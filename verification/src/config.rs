//! Node-wide settings and the arguments that every debug call is executed with.

use vstd::prelude::*;

verus! {

/// The L1 gas price that every debug call is executed with.
pub const DEBUG_L1_GAS_PRICE: u64 = 100_000;

/// The ceiling on computational gas: a debug call may use all the gas a block may hold.
pub const BLOCK_GAS_LIMIT: u32 = 0xffff_ffff;

/// The largest encoded transaction, in bytes, that a call request may make.
pub const USED_BOOTLOADER_MEMORY_BYTES: usize = 0x100_0000;

/// The account of an operator, by its address.
#[derive(Clone, Copy, Debug, PartialEq, Eq)]
pub struct AccountTreeId(pub [u8; 20]);

impl AccountTreeId {
    /// Whether every byte of the address is zero.
    pub open spec fn is_zero(self) -> bool {
        forall|i: int| 0 <= i < 20 ==> self.0[i] == 0
    }
}

impl Default for AccountTreeId {
    /// The zero address.
    fn default() -> (account: Self)
        ensures
            account.is_zero(),
    {
        AccountTreeId([0u8; 20])
    }
}

/// The settings of the transaction sender that debug calls share with it.
#[derive(Clone, Copy, Debug, PartialEq, Eq)]
pub struct TxSenderConfig {
    /// The L2 gas price that the operator considers fair.
    pub fair_l2_gas_price: u64,
    /// The identifier of the chain.
    pub chain_id: u64,
    /// How many cache misses one VM execution may cause, if bounded.
    pub vm_execution_cache_misses_limit: Option<usize>,
}

/// A handle on the storage caches that VM executions share.
#[derive(Clone, Copy, Debug, PartialEq, Eq)]
pub struct StorageCaches(pub u64);

/// The state of the node that debug requests read.
#[derive(Clone, Copy, Debug, PartialEq, Eq)]
pub struct RpcState {
    pub sender_config: TxSenderConfig,
    pub storage_caches: StorageCaches,
}

/// A set of base system contracts, by the hashes of its bootloader and its default
/// account code.
#[derive(Clone, Copy, Debug, PartialEq, Eq)]
pub struct BaseSystemContracts {
    pub bootloader: [u8; 32],
    pub default_aa: [u8; 32],
}

/// The base system contracts that API calls are executed with.
#[derive(Clone, Copy, Debug, PartialEq, Eq)]
pub struct ApiContracts {
    /// For gas estimation.
    pub estimate_gas: BaseSystemContracts,
    /// For calls that change no state.
    pub eth_call: BaseSystemContracts,
}

/// What one debug call is executed with, besides its transaction and its block.
#[derive(Clone, Copy, Debug, PartialEq, Eq)]
pub struct SharedExecutionArgs {
    pub operator_account: AccountTreeId,
    pub l1_gas_price: u64,
    pub fair_l2_gas_price: u64,
    pub base_system_contracts: BaseSystemContracts,
    pub caches: StorageCaches,
    pub validation_computational_gas_limit: u32,
    pub chain_id: u64,
}

impl SharedExecutionArgs {
    /// The arguments that debug calls get on a node with the given state and contracts:
    /// the zero operator account, the fixed L1 gas price, no limit on computational gas
    /// below the block's, and the node's own fair L2 gas price, chain, `eth_call`
    /// contracts and caches.
    pub open spec fn for_debug_call(self, state: RpcState, api_contracts: ApiContracts) -> bool {
        &&& self.operator_account.is_zero()
        &&& self.l1_gas_price == DEBUG_L1_GAS_PRICE
        &&& self.fair_l2_gas_price == state.sender_config.fair_l2_gas_price
        &&& self.base_system_contracts == api_contracts.eth_call
        &&& self.caches == state.storage_caches
        &&& self.validation_computational_gas_limit == BLOCK_GAS_LIMIT
        &&& self.chain_id == state.sender_config.chain_id
    }
}

} // verus!
