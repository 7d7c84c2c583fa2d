use crate::codec::sha256_of;
use crate::state::Event;
use vstd::prelude::*;

verus! {

/// The terminal outcome of one transaction.
#[derive(Clone, Copy, Debug, PartialEq, Eq)]
pub enum TxEffect {
    Successful,
    Reverted,
}

/// The record of executing one transaction.
#[derive(Clone, Debug, PartialEq, Eq)]
pub struct TransactionReceipt {
    pub tx_hash: [u8; 32],
    /// The canonical encoding of the transaction; absent where the pre-dispatch
    /// hook rejected it.
    pub body_to_save: Option<Vec<u8>>,
    pub events: Vec<Event>,
    pub receipt: TxEffect,
}

/// The record of executing one batch.
#[derive(Clone, Debug, PartialEq, Eq)]
pub struct BatchReceipt {
    pub batch_hash: [u8; 32],
    pub tx_receipts: Vec<TransactionReceipt>,
}

/// Why a blob's sequencer is penalised.
#[derive(Clone, Copy, Debug, PartialEq, Eq)]
pub enum SlashingReason {
    InvalidBatchEncoding,
    StatelessVerificationFailed,
    InvalidTransactionEncoding,
}

/// Why a blob produced no transaction receipts.
#[derive(Clone, Debug, PartialEq, Eq)]
pub enum ApplyBatchError {
    /// The begin-blob hook refused the blob; nothing is penalised.
    Ignored([u8; 32]),
    /// The blob was malformed or malicious; its sequencer is penalised.
    Slashed { hash: [u8; 32], reason: SlashingReason, sequencer_da_address: Vec<u8> },
}

impl ApplyBatchError {
    /// The hash of the blob the error is about.
    pub open spec fn blob_hash(&self) -> [u8; 32] {
        match self {
            ApplyBatchError::Ignored(hash) => *hash,
            ApplyBatchError::Slashed { hash, .. } => *hash,
        }
    }
}

impl BatchReceipt {
    /// The receipt recorded for a rejected blob: its hash and no transactions.
    pub fn from_batch_error(value: ApplyBatchError) -> (r: BatchReceipt)
        ensures
            r.batch_hash == value.blob_hash(),
            r.tx_receipts@.len() == 0,
    {
        match value {
            ApplyBatchError::Ignored(hash) => BatchReceipt { batch_hash: hash, tx_receipts: Vec::new() },
            ApplyBatchError::Slashed { hash, reason: _, sequencer_da_address: _ } => BatchReceipt {
                batch_hash: hash,
                tx_receipts: Vec::new(),
            },
        }
    }
}

/// An error reported by a runtime hook or by a dispatched call.
#[derive(Clone, Debug, PartialEq, Eq)]
pub struct HookError {
    pub message: String,
}

/// The begin-soft-confirmation hook refused the soft confirmation; the caller
/// must not persist it.
#[derive(Clone, Debug, PartialEq, Eq)]
pub struct ApplySoftConfirmationError {
    pub message: String,
}

/// An inconsistency past which the engine cannot continue; the node must halt.
#[derive(Clone, Copy, Debug, PartialEq, Eq)]
pub enum EngineFault {
    /// A soft confirmation holds a transaction that fails stateless verification.
    InvalidSequencerTransaction,
    /// A soft confirmation holds a transaction whose call cannot be decoded.
    UndecodableSequencerTransaction,
    /// The post-dispatch hook failed.
    PostDispatchHookFailed,
}

/// A transaction receipt that belongs to the raw transaction `raw`: it carries the
/// raw transaction's hash, its body where one is saved, a rejected transaction is
/// reverted, and a call that was reverted leaves no events.
pub open spec fn receipt_for(r: TransactionReceipt, raw: Seq<u8>) -> bool {
    &&& r.tx_hash@ == sha256_of(raw)
    &&& match r.body_to_save {
        Some(b) => b@ == raw && (r.receipt == TxEffect::Reverted ==> r.events@.len() == 0),
        None => r.receipt == TxEffect::Reverted,
    }
}

/// Receipts that correspond one to one, in order, to the raw transactions.
pub open spec fn receipts_for(rs: Seq<TransactionReceipt>, raws: Seq<Seq<u8>>) -> bool {
    &&& rs.len() == raws.len()
    &&& forall|i: int| 0 <= i < rs.len() ==> receipt_for(#[trigger] rs[i], raws[i])
}

} // verus!
