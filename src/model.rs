//! Records as a block explorer delivers them, and the canonical transaction.
use vstd::prelude::*;

verus! {

/// The output that an input spends, as the explorer reports it.
#[derive(Clone, Debug, PartialEq, Eq)]
pub struct PrevOut {
    pub value: u64,
    pub scriptpubkey: Vec<u8>,
}

/// One input of a transaction record; hex fields already decoded.
#[derive(Clone, Debug, PartialEq, Eq)]
pub struct Vin {
    pub txid: [u8; 32],
    pub vout: u32,
    /// Absent for a coinbase input, or where the explorer has pruned it.
    pub prevout: Option<PrevOut>,
    pub scriptsig: Vec<u8>,
    /// Empty where the explorer leaves the field out.
    pub witness: Vec<Vec<u8>>,
    pub sequence: u32,
    pub is_coinbase: bool,
}

/// One output of a transaction record.
#[derive(Clone, Debug, PartialEq, Eq)]
pub struct Vout {
    pub value: u64,
    pub scriptpubkey: Vec<u8>,
}

/// Where a transaction stands in the chain.
#[derive(Clone, Debug, PartialEq, Eq)]
pub struct TxStatus {
    pub confirmed: bool,
    pub block_height: Option<u32>,
    pub block_hash: Option<[u8; 32]>,
    pub block_time: Option<u64>,
}

/// Proof that a transaction is included in a block.
#[derive(Clone, Debug, PartialEq, Eq)]
pub struct MerkleProof {
    pub block_height: u32,
    pub merkle: Vec<[u8; 32]>,
    pub pos: usize,
}

/// Whether an output has been spent, and by what.
#[derive(Clone, Debug, PartialEq, Eq)]
pub struct OutputStatus {
    pub spent: bool,
    pub txid: Option<[u8; 32]>,
    pub vin: Option<u64>,
    pub status: Option<TxStatus>,
}

/// Where a block stands in the chain.
#[derive(Clone, Debug, PartialEq, Eq)]
pub struct BlockStatus {
    pub in_best_chain: bool,
    pub height: Option<u32>,
    pub next_best: Option<[u8; 32]>,
}

/// A transaction record as the explorer delivers it.
#[derive(Clone, Debug, PartialEq, Eq)]
pub struct Tx {
    pub txid: [u8; 32],
    pub version: i32,
    pub locktime: u32,
    pub vin: Vec<Vin>,
    pub vout: Vec<Vout>,
    /// Transaction size in raw bytes (not virtual bytes).
    pub size: u32,
    /// Transaction weight units.
    pub weight: u32,
    pub status: TxStatus,
    pub fee: u64,
}

/// An unspent output.
#[derive(Clone, Debug)]
pub struct Utxo {
    pub txid: [u8; 32],
    pub vout: u32,
    pub value: u64,
    pub status: TxStatus,
}

/// A block height with its timestamp; one is never given without the other.
#[derive(Clone, Copy, Debug, PartialEq, Eq, Structural)]
pub struct BlockTime {
    pub timestamp: u64,
    pub height: u32,
}

/// A block's header summary.
#[derive(Clone, Debug, PartialEq, Eq)]
pub struct BlockSummary {
    pub id: [u8; 32],
    pub time: BlockTime,
    /// Hash of the previous block; `None` for the genesis block.
    pub previousblockhash: Option<[u8; 32]>,
    pub merkle_root: [u8; 32],
}

/// Address statistics: the address, and the outputs that it holds.
#[derive(Clone, Debug, PartialEq, Eq)]
pub struct AddressStats {
    /// The address.
    pub address: String,
    /// The summary of transactions for this address, already on chain.
    pub chain_stats: AddressTxsSummary,
    /// The summary of transactions for this address, currently in the mempool.
    pub mempool_stats: AddressTxsSummary,
}

/// A summary of the transactions of an address.
#[derive(Clone, Copy, Debug, PartialEq, Eq, Structural)]
pub struct AddressTxsSummary {
    /// The number of funded transaction outputs.
    pub funded_txo_count: u32,
    /// The sum of the funded transaction outputs, in satoshis.
    pub funded_txo_sum: u64,
    /// The number of spent transaction outputs.
    pub spent_txo_count: u32,
    /// The sum of the spent transaction outputs, in satoshis.
    pub spent_txo_sum: u64,
    /// The total number of transactions.
    pub tx_count: u32,
}

/// A reference to an output of an earlier transaction.
#[derive(Clone, Copy, Debug, PartialEq, Eq)]
pub struct Outpoint {
    pub txid: [u8; 32],
    pub vout: u32,
}

/// An input of a canonical transaction.
#[derive(Clone, Debug, PartialEq, Eq)]
pub struct TxIn {
    pub prev_output: Outpoint,
    pub sig_script: Vec<u8>,
    pub sequence: u32,
    pub witness: Vec<Vec<u8>>,
}

/// An output of a canonical transaction.
#[derive(Clone, Debug, PartialEq, Eq)]
pub struct TxOut {
    pub value: u64,
    pub script_pubkey: Vec<u8>,
}

/// A canonical transaction: inputs and outputs within the protocol's bounds.
#[derive(Clone, Debug, PartialEq, Eq)]
pub struct Transaction {
    pub version: i32,
    pub lock_time: u32,
    pub inputs: Vec<TxIn>,
    pub outputs: Vec<TxOut>,
}

/// The least number of inputs, and of outputs, of a transaction.
pub const MIN_ITEMS: usize = 1;

/// The greatest number of inputs, and of outputs, of a transaction.
pub const MAX_ITEMS: usize = 4294967295;

/// Both lists of a transaction are within the protocol's bounds.
pub open spec fn bounded(n: nat) -> bool {
    MIN_ITEMS <= n <= MAX_ITEMS
}

impl Transaction {
    /// The transaction's invariant.
    pub open spec fn wf(&self) -> bool {
        bounded(self.inputs@.len()) && bounded(self.outputs@.len())
    }
}

} // verus!
