use crate::codec::Transaction;
use crate::receipt::{ApplySoftConfirmationError, HookError};
use crate::state::WorkingSet;
use vstd::prelude::*;

verus! {

/// A blob read from the data-availability layer.
#[derive(Clone, Debug, PartialEq, Eq)]
pub struct BlobTransaction {
    /// Address of the sequencer that posted the blob.
    pub sender: Vec<u8>,
    /// Content hash of the blob.
    pub hash: [u8; 32],
    /// Everything the blob holds.
    pub full_data: Vec<u8>,
    /// The part of the blob whose availability was verified.
    pub verified_data: Vec<u8>,
    /// The length that the blob declares for itself.
    pub total_len: usize,
}

/// A batch of transactions that the sequencer confirmed before DA inclusion.
#[derive(Clone, Debug, PartialEq, Eq)]
pub struct SignedSoftConfirmationBatch {
    pub hash: [u8; 32],
    pub da_slot_height: u64,
    pub da_slot_hash: [u8; 32],
    pub txs: Vec<Vec<u8>>,
    pub signature: Vec<u8>,
    pub sequencer_pub_key: Vec<u8>,
}

/// What the pre-dispatch hook learns of the surrounding block.
#[derive(Clone, Debug, PartialEq, Eq)]
pub struct RuntimeTxHook {
    pub height: u64,
    pub sequencer: Vec<u8>,
}

/// The hooks and the call dispatcher that a rollup's runtime supplies.
///
/// A hook works on the working set it is handed: it reads, stages writes and
/// emits events, and never commits or reverts what it was handed.
pub trait Runtime {
    /// A decoded call of the runtime.
    type Message;

    /// What the pre-dispatch hook verified of a transaction, handed to the call.
    type Context;

    /// Decodes the call a transaction carries.
    fn decode_call(&self, msg: &[u8]) -> Result<Self::Message, HookError>;

    /// Runs before a blob's transactions; an error means the blob is ignored.
    fn begin_blob_hook(&self, blob: &BlobTransaction, ws: &mut WorkingSet) -> (r: Result<(), HookError>)
        ensures
            final(ws)@.committed == old(ws)@.committed,
    ;

    /// Runs after a blob's transactions, or after it was found to be malformed.
    fn end_blob_hook(&self, ws: &mut WorkingSet) -> (r: Result<(), HookError>)
        ensures
            final(ws)@.committed == old(ws)@.committed,
    ;

    /// Runs before a soft confirmation's transactions; an error rejects it.
    fn begin_soft_confirmation_hook(
        &self,
        soft_batch: &SignedSoftConfirmationBatch,
        ws: &mut WorkingSet,
    ) -> (r: Result<(), ApplySoftConfirmationError>)
        ensures
            final(ws)@.committed == old(ws)@.committed,
    ;

    /// Runs after a soft confirmation's transactions.
    fn end_soft_confirmation_hook(&self, ws: &mut WorkingSet) -> (r: Result<(), HookError>)
        ensures
            final(ws)@.committed == old(ws)@.committed,
    ;

    /// Stateful checks of a transaction before its call (nonce, balance).
    fn pre_dispatch_tx_hook(
        &self,
        tx: &Transaction,
        ws: &mut WorkingSet,
        hook: &RuntimeTxHook,
    ) -> (r: Result<Self::Context, HookError>)
        ensures
            final(ws)@.committed == old(ws)@.committed,
    ;

    /// Executes a decoded call.
    fn dispatch_call(&self, msg: Self::Message, ws: &mut WorkingSet, ctx: &Self::Context) -> (r:
        Result<(), HookError>)
        ensures
            final(ws)@.committed == old(ws)@.committed,
    ;

    /// Bookkeeping after a transaction's receipt was recorded.
    fn post_dispatch_tx_hook(&self, tx: &Transaction, ctx: &Self::Context, ws: &mut WorkingSet) -> (r:
        Result<(), HookError>)
        ensures
            final(ws)@.committed == old(ws)@.committed,
    ;
}

} // verus!
