use vstd::prelude::*;

use crate::epoch::EpochPoint;

verus! {

/// A 32-byte hash, as the chain uses for transactions and blocks.
#[derive(Clone, Copy, Debug, PartialEq, Eq)]
pub struct Hash256 {
    pub bytes: [u8; 32],
}

/// Names one output of a transaction.
#[derive(Clone, Copy, Debug, PartialEq, Eq)]
pub struct OutPoint {
    pub tx_hash: Hash256,
    pub index: u32,
}

/// The cell that a transaction created at `output_index`: how a caller names a
/// prepared deposit.
#[derive(Clone, Copy, Debug, PartialEq, Eq)]
pub struct CellReference {
    pub tx_hash: Hash256,
    pub output_index: u32,
}

/// An output of a transaction together with its data.
#[derive(Clone, Debug, PartialEq, Eq)]
pub struct CellOutput {
    /// Declared capacity, in shannons.
    pub capacity: u64,
    /// Bytes taken by the output's own fields: its capacity field, lock script and
    /// type script.
    pub base_size: u64,
    /// The cell's data.
    pub data: Vec<u8>,
}

/// The parts of a transaction that the withdrawal reads.
#[derive(Clone, Debug, PartialEq, Eq)]
pub struct TransactionBody {
    /// Previous outputs spent by the inputs, in input order.
    pub inputs: Vec<OutPoint>,
    pub outputs: Vec<CellOutput>,
}

/// What a node reports for a transaction hash that it knows.
#[derive(Clone, Debug, PartialEq, Eq)]
pub struct TxRecord {
    /// The block that committed the transaction, if any.
    pub block_hash: Option<Hash256>,
    /// The transaction itself; absent when the node rejected it.
    pub transaction: Option<TransactionBody>,
}

/// The DAO field of a block header.
#[derive(Clone, Copy, Debug, PartialEq, Eq)]
pub struct DaoField {
    pub total_issuance: u64,
    /// Accumulated rate: the compounded interest multiplier since genesis.
    pub accumulated_rate: u64,
    pub secondary_issuance: u64,
    pub occupied_total: u64,
}

/// The parts of a block header that the withdrawal reads.
#[derive(Clone, Copy, Debug, PartialEq, Eq)]
pub struct ChainHeader {
    pub epoch: EpochPoint,
    pub dao: DaoField,
    pub block_hash: Hash256,
}

/// Which of the two transactions of a withdrawal a failure concerns.
#[derive(Clone, Copy, Debug, PartialEq, Eq)]
pub enum Stage {
    Prepare,
    Deposit,
}

/// Why a withdrawal attempt stopped.
#[derive(Clone, Debug, PartialEq, Eq)]
pub enum WithdrawError {
    /// The node has no record of the transaction.
    NotFound(Stage),
    /// The transaction is known but not committed in a block.
    NotCommitted(Stage),
    /// The node rejected the transaction.
    Rejected(Stage),
    /// The prepare transaction has no input at the cell's index, or its block does not
    /// come after the deposit's.
    MalformedPrepareTx,
    /// The deposit transaction has no output at the index that the prepare input names.
    MalformedDepositTx,
    /// The node returned no header for a committing block.
    HeaderUnavailable(Stage),
    /// The output capacity is below the occupied capacity.
    InvalidCapacity,
    /// The deposit header's accumulated rate is zero.
    InvalidRate,
    /// A result does not fit in 64 bits.
    ArithmeticOverflow,
    /// An output declares less capacity than its storage takes.
    InsufficientCapacity { output_index: usize },
    /// The node client failed; its message is passed on unchanged.
    TransportError(String),
}

/// Everything that the withdrawal amount and unlock point are computed from.
#[derive(Clone, Copy, Debug, PartialEq, Eq)]
pub struct ResolvedDeposit {
    pub deposit_header: ChainHeader,
    pub prepare_header: ChainHeader,
    pub output_capacity: u64,
    pub occupied_capacity: u64,
}

/// The node as the withdrawal sees it. Every call may fail with a transport error.
pub trait ChainClient {
    /// The node's record of a transaction, or `None` when it has none.
    fn get_transaction(&mut self, tx_hash: &Hash256) -> Result<Option<TxRecord>, String>;

    /// The header of a block, or `None` when the node has none.
    fn get_header(&mut self, block_hash: &Hash256) -> Result<Option<ChainHeader>, String>;

    /// Sends a transaction and returns the hash under which the node accepted it.
    fn send_transaction(&mut self, tx: &TransactionBody) -> Result<Hash256, String>;

    /// Shows a transaction before it is sent; diagnostic output only.
    fn show_preview(&mut self, tx: &TransactionBody);
}

} // verus!
