use crate::codec::{
    batch_of, decode_batch, decode_transaction, encode_transaction, is_batch_encoding,
    passes_stateless, sha256, sha256_of, verify_signature, views, Transaction,
};
use crate::receipt::{
    receipt_for, receipts_for, ApplyBatchError, ApplySoftConfirmationError, BatchReceipt,
    EngineFault, HookError, SlashingReason, TransactionReceipt, TxEffect,
};
use crate::runtime::{BlobTransaction, Runtime, RuntimeTxHook, SignedSoftConfirmationBatch};
use crate::state::{current, opened, Event, StateCheckpoint, WorkingSet, WorkingSetModel};
use vstd::prelude::*;

verus! {

/// Which view of a blob is deserialized: the full data on a native node, the
/// verified data inside the proving environment. Chosen once, at construction.
#[derive(Clone, Copy, Debug, PartialEq, Eq)]
pub enum BlobDataSource {
    Full,
    Verified,
}

/// A transaction that passed stateless verification, with the hash of its raw bytes.
#[derive(Clone, Debug, PartialEq, Eq)]
pub struct TransactionAndRawHash {
    pub tx: Transaction,
    pub raw_tx_hash: [u8; 32],
}

/// `t` is the verified form of the raw transaction `raw`.
pub open spec fn verified_from(t: TransactionAndRawHash, raw: Seq<u8>) -> bool {
    &&& t.tx.encodable()
    &&& t.tx.encoding() == raw
    &&& t.raw_tx_hash@ == sha256_of(raw)
    &&& t.tx.signature_valid()
}

/// Whether every raw transaction passes stateless verification.
pub open spec fn all_pass_stateless(raws: Seq<Seq<u8>>) -> bool {
    forall|i: int| 0 <= i < raws.len() ==> passes_stateless(#[trigger] raws[i])
}

/// The slashing reason that stateless preprocessing of `data` gives, if any.
pub open spec fn stateless_slash(data: Seq<u8>) -> Option<SlashingReason> {
    if !is_batch_encoding(data) {
        Some(SlashingReason::InvalidBatchEncoding)
    } else if !all_pass_stateless(batch_of(data)) {
        Some(SlashingReason::StatelessVerificationFailed)
    } else {
        None
    }
}

/// A batch that decodes but holds a transaction that fails stateless
/// verification (bad encoding or bad signature) is classified as a failed
/// stateless verification, whatever the other transactions hold.
pub proof fn lemma_invalid_transaction_slashes(data: Seq<u8>, i: int)
    requires
        is_batch_encoding(data),
        0 <= i < batch_of(data).len(),
        !passes_stateless(batch_of(data)[i]),
    ensures
        stateless_slash(data) == Some(SlashingReason::StatelessVerificationFailed),
{
    assert(!all_pass_stateless(batch_of(data)));
}

/// Verifies raw transactions one by one: each must decode and carry a valid
/// signature. One failure rejects them all.
pub fn verify_txs_stateless(raw_txs: &Vec<Vec<u8>>) -> (r: Option<Vec<TransactionAndRawHash>>)
    ensures
        r is Some <==> all_pass_stateless(views(raw_txs@)),
        r matches Some(v) ==> v@.len() == raw_txs@.len() && forall|i: int|
            0 <= i < v@.len() ==> verified_from(#[trigger] v@[i], raw_txs@[i]@),
{
    let mut txs: Vec<TransactionAndRawHash> = Vec::new();
    let mut i: usize = 0;
    while i < raw_txs.len()
        invariant
            i <= raw_txs@.len(),
            txs@.len() == i,
            forall|j: int| 0 <= j < i ==> verified_from(#[trigger] txs@[j], raw_txs@[j]@),
            forall|j: int| 0 <= j < i ==> passes_stateless(#[trigger] views(raw_txs@)[j]),
        decreases raw_txs@.len() - i,
    {
        let raw = &raw_txs[i];
        let raw_tx_hash = sha256(raw.as_slice());
        let tx = match decode_transaction(raw.as_slice()) {
            Some(tx) => tx,
            None => {
                proof {
                    assert(!passes_stateless(views(raw_txs@)[i as int]));
                }
                return None;
            },
        };
        if !verify_signature(&tx) {
            proof {
                assert(!passes_stateless(views(raw_txs@)[i as int]));
            }
            return None;
        }
        txs.push(TransactionAndRawHash { tx, raw_tx_hash });
        i = i + 1;
    }
    Some(txs)
}

/// A working set with its buffered events drained.
pub open spec fn drained(m: WorkingSetModel) -> WorkingSetModel {
    WorkingSetModel { events: Seq::empty(), ..m }
}

/// The facts a receipt carries about the verified transaction it records.
pub open spec fn receipt_records(r: TransactionReceipt, t: TransactionAndRawHash) -> bool {
    &&& r.tx_hash == t.raw_tx_hash
    &&& match r.body_to_save {
        Some(b) => b@ == t.tx.encoding() && (r.receipt == TxEffect::Reverted ==> r.events@.len()
            == 0),
        None => r.receipt == TxEffect::Reverted,
    }
}

/// Settles the outcome of a dispatched call: a success drains the call's events
/// into the receipt, a failure reverts the call's writes and keeps no events.
pub fn settle_call(result: Result<(), HookError>, ws: WorkingSet) -> (r: (
    WorkingSet,
    TxEffect,
    Vec<Event>,
))
    ensures
        (r.1 == TxEffect::Successful) == (result is Ok),
        result is Ok ==> r.0@ == drained(ws@) && r.2@ == ws@.events,
        result is Err ==> r.0@ == opened(ws@.committed) && r.2@.len() == 0,
{
    match result {
        Ok(()) => {
            let mut ws = ws;
            let events = ws.take_events();
            (ws, TxEffect::Successful, events)
        },
        Err(_) => (ws.revert().to_revertable(), TxEffect::Reverted, Vec::new()),
    }
}

/// Settles the outcome of the pre-dispatch hook. A rejection yields a reverted
/// receipt without a body, carrying the hook's events, and keeps the hook's
/// writes staged; an acceptance checkpoints them.
pub fn settle_pre_dispatch<C>(
    pre: Result<C, HookError>,
    tx: &TransactionAndRawHash,
    ws: WorkingSet,
) -> (r: Result<(C, WorkingSet), (WorkingSet, TransactionReceipt)>)
    ensures
        (r is Ok) == (pre is Ok),
        r matches Ok((c, w)) ==> pre == Ok::<C, HookError>(c) && w@ == opened(current(ws@)),
        r matches Err((w, receipt)) ==> w@ == drained(ws@) && receipt.tx_hash == tx.raw_tx_hash
            && receipt.body_to_save is None && receipt.events@ == ws@.events && receipt.receipt
            == TxEffect::Reverted,
{
    match pre {
        Ok(ctx) => Ok((ctx, ws.checkpoint().to_revertable())),
        Err(_) => {
            let mut ws = ws;
            let events = ws.take_events();
            let receipt = TransactionReceipt {
                tx_hash: tx.raw_tx_hash,
                body_to_save: None,
                events,
                receipt: TxEffect::Reverted,
            };
            Err((ws, receipt))
        },
    }
}

/// Records the receipt of a dispatched transaction, with its canonical encoding
/// as body, and checkpoints so that the receipt's state is durable.
pub fn record_receipt(
    tx: &TransactionAndRawHash,
    effect: TxEffect,
    events: Vec<Event>,
    ws: WorkingSet,
) -> (r: (WorkingSet, TransactionReceipt))
    requires
        tx.tx.encodable(),
    ensures
        r.0@ == opened(current(ws@)),
        r.1.tx_hash == tx.raw_tx_hash,
        r.1.body_to_save matches Some(b) && b@ == tx.tx.encoding(),
        r.1.events@ == events@,
        r.1.receipt == effect,
{
    let body = encode_transaction(&tx.tx);
    let receipt = TransactionReceipt { tx_hash: tx.raw_tx_hash, body_to_save: body, events, receipt: effect };
    (ws.checkpoint().to_revertable(), receipt)
}

/// Settles the outcome of the post-dispatch hook, whose failure is a fault.
pub fn settle_post_dispatch(
    result: Result<(), HookError>,
    ws: WorkingSet,
    receipt: TransactionReceipt,
) -> (r: Result<(WorkingSet, TransactionReceipt), EngineFault>)
    ensures
        (r is Ok) == (result is Ok),
        r matches Ok((w, rc)) ==> w@ == ws@ && rc == receipt,
        r matches Err(f) ==> f == EngineFault::PostDispatchHookFailed,
{
    match result {
        Ok(()) => Ok((ws, receipt)),
        Err(_) => Err(EngineFault::PostDispatchHookFailed),
    }
}

/// Settles the outcome of the begin-blob hook: a rejection ignores the blob and
/// discards everything the hook staged; an acceptance checkpoints its writes.
pub fn settle_begin_blob(hook: Result<(), HookError>, blob_hash: [u8; 32], ws: WorkingSet) -> (r:
    Result<WorkingSet, (ApplyBatchError, StateCheckpoint)>)
    ensures
        (r is Err) == (hook is Err),
        r matches Err((e, c)) ==> e == ApplyBatchError::Ignored(blob_hash) && c@ == ws@.committed,
        r matches Ok(w) ==> w@ == opened(current(ws@)),
{
    match hook {
        Ok(()) => Ok(ws.checkpoint().to_revertable()),
        Err(_) => Err((ApplyBatchError::Ignored(blob_hash), ws.revert())),
    }
}

/// Settles the outcome of the end-blob hook after a slash: its writes are
/// committed where it succeeds and reverted where it fails.
pub fn settle_end_blob_after_slash(hook: Result<(), HookError>, ws: WorkingSet) -> (r:
    StateCheckpoint)
    ensures
        hook is Ok ==> r@ == current(ws@),
        hook is Err ==> r@ == ws@.committed,
{
    match hook {
        Ok(()) => ws.checkpoint(),
        Err(_) => ws.revert(),
    }
}

/// Settles the outcome of an end hook whose failure changes nothing: the
/// working set is committed either way.
pub fn settle_end_hook(hook: Result<(), HookError>, ws: WorkingSet) -> (r: StateCheckpoint)
    ensures
        r@ == current(ws@),
{
    let _ = hook;
    ws.checkpoint()
}

/// Settles the outcome of the begin-soft-confirmation hook: the hook's result
/// is handed on; an acceptance checkpoints its writes, a rejection leaves the
/// working set as the hook left it, for the caller to revert.
pub fn settle_begin_soft(hook: Result<(), ApplySoftConfirmationError>, ws: WorkingSet) -> (r: (
    Result<(), ApplySoftConfirmationError>,
    WorkingSet,
))
    ensures
        r.0 == hook,
        hook is Ok ==> r.1@ == opened(current(ws@)),
        hook is Err ==> r.1@ == ws@,
{
    if hook.is_ok() {
        (hook, ws.checkpoint().to_revertable())
    } else {
        (hook, ws)
    }
}

/// The state-transition engine: applies batches from blobs and from soft
/// confirmations through a runtime's hooks.
pub struct StfBlueprint<RT: Runtime> {
    pub runtime: RT,
    pub source: BlobDataSource,
}

impl<RT: Runtime> StfBlueprint<RT> {
    /// The bytes of `blob` that this engine deserializes.
    pub open spec fn data_of(&self, blob: &BlobTransaction) -> Seq<u8> {
        match self.source {
            BlobDataSource::Full => blob.full_data@,
            BlobDataSource::Verified => blob.verified_data@,
        }
    }

    /// Whether the blob fails to deserialize while data was withheld upstream:
    /// the verified data is shorter than the declared total length. The engine
    /// cannot process such a blob at all.
    pub open spec fn data_withheld(&self, blob: &BlobTransaction) -> bool {
        !is_batch_encoding(self.data_of(blob)) && blob.verified_data@.len() < blob.total_len
    }

    /// An engine over `runtime` that deserializes blobs from `source`.
    pub fn new(runtime: RT, source: BlobDataSource) -> (r: Self)
        ensures
            r.runtime == runtime,
            r.source == source,
    {
        StfBlueprint { runtime, source }
    }

    fn data_for_deserialization<'a>(&self, blob: &'a BlobTransaction) -> (r: &'a [u8])
        ensures
            r@ == self.data_of(blob),
    {
        match self.source {
            BlobDataSource::Full => blob.full_data.as_slice(),
            BlobDataSource::Verified => blob.verified_data.as_slice(),
        }
    }

    /// Tells whether data of the blob was withheld; the node must halt on such a blob.
    pub fn is_data_withheld(&self, blob: &BlobTransaction) -> (r: bool)
        ensures
            r == self.data_withheld(blob),
    {
        decode_batch(self.data_for_deserialization(blob)).is_none() && blob.verified_data.len()
            < blob.total_len
    }

    /// Deserializes a blob into its raw transactions; a blob that does not
    /// deserialize slashes its sequencer.
    pub fn deserialize_batch(&self, blob: &BlobTransaction) -> (r: Result<Vec<Vec<u8>>, SlashingReason>)
        requires
            !self.data_withheld(blob),
        ensures
            (r is Ok) == is_batch_encoding(self.data_of(blob)),
            r matches Ok(v) ==> views(v@) == batch_of(self.data_of(blob)),
            r matches Err(e) ==> e == SlashingReason::InvalidBatchEncoding,
    {
        match decode_batch(self.data_for_deserialization(blob)) {
            Some(batch) => Ok(batch),
            None => Err(SlashingReason::InvalidBatchEncoding),
        }
    }

    /// Stateless verification of a blob's transactions; one failure slashes.
    pub fn verify_batch_stateless(&self, raw_txs: &Vec<Vec<u8>>) -> (r: Result<
        Vec<TransactionAndRawHash>,
        SlashingReason,
    >)
        ensures
            r is Ok <==> all_pass_stateless(views(raw_txs@)),
            r matches Ok(v) ==> v@.len() == raw_txs@.len() && forall|i: int|
                0 <= i < v@.len() ==> verified_from(#[trigger] v@[i], raw_txs@[i]@),
            r matches Err(e) ==> e == SlashingReason::StatelessVerificationFailed,
    {
        match verify_txs_stateless(raw_txs) {
            Some(txs) => Ok(txs),
            None => Err(SlashingReason::StatelessVerificationFailed),
        }
    }

    /// Stateless verification of a soft confirmation's transactions, which the
    /// sequencer has already filtered.
    pub fn verify_txs_stateless_soft(&self, raw_txs: &Vec<Vec<u8>>) -> (r: Vec<TransactionAndRawHash>)
        requires
            all_pass_stateless(views(raw_txs@)),
        ensures
            r@.len() == raw_txs@.len(),
            forall|i: int| 0 <= i < r@.len() ==> verified_from(#[trigger] r@[i], raw_txs@[i]@),
    {
        verify_txs_stateless(raw_txs).unwrap()
    }

    /// Decodes the runtime call of every transaction, in order; one failure
    /// rejects them all.
    pub fn decode_txs(&self, txs: &Vec<TransactionAndRawHash>) -> (r: Result<
        Vec<RT::Message>,
        SlashingReason,
    >)
        ensures
            r matches Ok(m) ==> m@.len() == txs@.len(),
            r matches Err(e) ==> e == SlashingReason::InvalidTransactionEncoding,
            txs@.len() == 0 ==> (r matches Ok(m) && m@.len() == 0),
    {
        let mut messages: Vec<RT::Message> = Vec::new();
        let mut i: usize = 0;
        while i < txs.len()
            invariant
                i <= txs@.len(),
                messages@.len() == i,
            decreases txs@.len() - i,
        {
            match self.runtime.decode_call(txs[i].tx.runtime_msg.as_slice()) {
                Ok(msg) => messages.push(msg),
                Err(_) => {
                    return Err(SlashingReason::InvalidTransactionEncoding);
                },
            }
            i = i + 1;
        }
        Ok(messages)
    }

    /// All stateless checks of a blob, whose failures slash its sequencer.
    pub fn pre_process_batch(&self, blob: &BlobTransaction) -> (r: Result<
        (Vec<TransactionAndRawHash>, Vec<RT::Message>),
        SlashingReason,
    >)
        requires
            !self.data_withheld(blob),
        ensures
            r matches Ok((txs, msgs)) ==> stateless_slash(self.data_of(blob)) is None
                && txs@.len() == batch_of(self.data_of(blob)).len() && msgs@.len() == txs@.len()
                && forall|i: int|
                0 <= i < txs@.len() ==> verified_from(
                    #[trigger] txs@[i],
                    batch_of(self.data_of(blob))[i],
                ),
            stateless_slash(self.data_of(blob)) is Some ==> (r matches Err(e) && stateless_slash(
                self.data_of(blob),
            ) == Some(e)),
            r matches Err(e) ==> stateless_slash(self.data_of(blob)) == Some(e) || e
                == SlashingReason::InvalidTransactionEncoding,
            stateless_slash(self.data_of(blob)) is None && batch_of(self.data_of(blob)).len() == 0
                ==> r is Ok,
    {
        let batch = match self.deserialize_batch(blob) {
            Ok(batch) => batch,
            Err(reason) => {
                return Err(reason);
            },
        };
        let txs = match self.verify_batch_stateless(&batch) {
            Ok(txs) => txs,
            Err(reason) => {
                return Err(reason);
            },
        };
        let messages = match self.decode_txs(&txs) {
            Ok(messages) => messages,
            Err(reason) => {
                return Err(reason);
            },
        };
        proof {
            assert forall|i: int| 0 <= i < txs@.len() implies verified_from(
                #[trigger] txs@[i],
                batch_of(self.data_of(blob))[i],
            ) by {
                assert(views(batch@)[i] == batch@[i]@);
            }
        }
        Ok((txs, messages))
    }

    /// Checkpoints the pre-dispatch hook's writes, runs the call and settles its
    /// outcome.
    pub fn execute_message(&self, msg: RT::Message, ctx: &RT::Context, ws: WorkingSet) -> (r: (
        WorkingSet,
        TxEffect,
        Vec<Event>,
    ))
        ensures
            r.0@.committed == current(ws@),
            r.0@.events.len() == 0,
            r.1 == TxEffect::Reverted ==> r.0@ == opened(current(ws@)) && r.2@.len() == 0,
    {
        let mut ws = ws.checkpoint().to_revertable();
        let result = self.runtime.dispatch_call(msg, &mut ws, ctx);
        settle_call(result, ws)
    }

    /// Applies one verified transaction and its decoded call.
    pub fn apply_tx(
        &self,
        tx: &TransactionAndRawHash,
        msg: RT::Message,
        hook: &RuntimeTxHook,
        ws: WorkingSet,
    ) -> (r: Result<(WorkingSet, TransactionReceipt), EngineFault>)
        requires
            tx.tx.encodable(),
        ensures
            r matches Ok((w, receipt)) ==> receipt_records(receipt, *tx) && (
            receipt.body_to_save is None ==> w@.committed == ws@.committed),
            r matches Err(f) ==> f == EngineFault::PostDispatchHookFailed,
    {
        let mut ws = ws;
        let pre = self.runtime.pre_dispatch_tx_hook(&tx.tx, &mut ws, hook);
        let (ctx, ws) = match settle_pre_dispatch(pre, tx, ws) {
            Ok(accepted) => accepted,
            Err(rejected) => {
                return Ok(rejected);
            },
        };
        let (ws, effect, events) = self.execute_message(msg, &ctx, ws);
        let (ws, receipt) = record_receipt(tx, effect, events, ws);
        let mut ws = ws;
        let post = self.runtime.post_dispatch_tx_hook(&tx.tx, &ctx, &mut ws);
        settle_post_dispatch(post, ws, receipt)
    }

    /// The dispatch loop: applies each transaction with its call, strictly in order.
    pub fn dispatch_txs(
        &self,
        txs: Vec<TransactionAndRawHash>,
        messages: Vec<RT::Message>,
        hook: &RuntimeTxHook,
        ws: WorkingSet,
    ) -> (r: Result<(WorkingSet, Vec<TransactionReceipt>), EngineFault>)
        requires
            messages@.len() == txs@.len(),
            forall|i: int| 0 <= i < txs@.len() ==> (#[trigger] txs@[i]).tx.encodable(),
        ensures
            r matches Ok((_, receipts)) ==> receipts@.len() == txs@.len() && forall|i: int|
                0 <= i < txs@.len() ==> receipt_records(#[trigger] receipts@[i], txs@[i]),
            r matches Err(f) ==> f == EngineFault::PostDispatchHookFailed,
            txs@.len() == 0 ==> (r matches Ok((w, receipts)) && w@ == ws@ && receipts@.len() == 0),
    {
        let ghost start = ws@;
        // Reverse the calls so that popping hands them out in order.
        let mut messages = messages;
        let mut pending: Vec<RT::Message> = Vec::new();
        while messages.len() > 0
            invariant
                pending@.len() + messages@.len() == txs@.len(),
            decreases messages@.len(),
        {
            pending.push(messages.pop().unwrap());
        }
        let mut ws = ws;
        let mut receipts: Vec<TransactionReceipt> = Vec::new();
        let mut i: usize = 0;
        while i < txs.len()
            invariant
                i <= txs@.len(),
                pending@.len() == txs@.len() - i,
                receipts@.len() == i,
                i == 0 ==> ws@ == start,
                forall|j: int| 0 <= j < txs@.len() ==> (#[trigger] txs@[j]).tx.encodable(),
                forall|j: int| 0 <= j < i ==> receipt_records(#[trigger] receipts@[j], txs@[j]),
            decreases txs@.len() - i,
        {
            let msg = pending.pop().unwrap();
            match self.apply_tx(&txs[i], msg, hook, ws) {
                Ok((next, receipt)) => {
                    ws = next;
                    receipts.push(receipt);
                },
                Err(f) => {
                    return Err(f);
                },
            }
            i = i + 1;
        }
        Ok((ws, receipts))
    }

    /// Verifies, decodes and applies a soft confirmation's transactions.
    pub fn apply_sov_txs_inner(&self, txs: &Vec<Vec<u8>>, hook: &RuntimeTxHook, ws: WorkingSet) -> (r:
        Result<(WorkingSet, Vec<TransactionReceipt>), EngineFault>)
        requires
            all_pass_stateless(views(txs@)),
        ensures
            r matches Ok((_, receipts)) ==> receipts_for(receipts@, views(txs@)),
            r matches Err(f) ==> f == EngineFault::UndecodableSequencerTransaction || f
                == EngineFault::PostDispatchHookFailed,
            txs@.len() == 0 ==> (r matches Ok((w, receipts)) && w@ == ws@ && receipts@.len() == 0),
    {
        let verified = self.verify_txs_stateless_soft(txs);
        let messages = match self.decode_txs(&verified) {
            Ok(m) => m,
            Err(_) => {
                return Err(EngineFault::UndecodableSequencerTransaction);
            },
        };
        let ghost vs = verified@;
        match self.dispatch_txs(verified, messages, hook, ws) {
            Ok((ws, receipts)) => {
                proof {
                    assert forall|i: int| 0 <= i < receipts@.len() implies receipt_for(
                        #[trigger] receipts@[i],
                        views(txs@)[i],
                    ) by {
                        assert(verified_from(vs[i], txs@[i]@));
                        assert(receipt_records(receipts@[i], vs[i]));
                    }
                }
                Ok((ws, receipts))
            },
            Err(f) => Err(f),
        }
    }

    /// Opens a working set for a soft confirmation and runs the begin hook,
    /// handing on its result.
    pub fn begin_soft_confirmation_inner(
        &self,
        checkpoint: StateCheckpoint,
        soft_batch: &SignedSoftConfirmationBatch,
    ) -> (r: (Result<(), ApplySoftConfirmationError>, WorkingSet))
        ensures
            r.0 is Err ==> r.1@.committed == checkpoint@,
            r.0 is Ok ==> r.1@.writes.len() == 0 && r.1@.events.len() == 0,
    {
        let mut ws = checkpoint.to_revertable();
        let hook = self.runtime.begin_soft_confirmation_hook(soft_batch, &mut ws);
        settle_begin_soft(hook, ws)
    }

    /// Runs the end hook and commits. A failure of the end hook does not change
    /// the outcome and reverts nothing.
    pub fn end_soft_confirmation_inner(
        &self,
        soft_batch: &SignedSoftConfirmationBatch,
        tx_receipts: Vec<TransactionReceipt>,
        ws: WorkingSet,
    ) -> (r: (Result<BatchReceipt, ApplySoftConfirmationError>, StateCheckpoint))
        ensures
            r.0 matches Ok(b) && b.batch_hash == soft_batch.hash && b.tx_receipts@ == tx_receipts@,
    {
        let mut ws = ws;
        let hook = self.runtime.end_soft_confirmation_hook(&mut ws);
        let checkpoint = settle_end_hook(hook, ws);
        (Ok(BatchReceipt { batch_hash: soft_batch.hash, tx_receipts }), checkpoint)
    }

    /// Applies a soft confirmation on top of `checkpoint`. A rejection by the begin
    /// hook leaves the state as it was.
    pub fn apply_soft_confirmation(
        &self,
        checkpoint: StateCheckpoint,
        soft_batch: &SignedSoftConfirmationBatch,
    ) -> (r: Result<(Result<BatchReceipt, ApplySoftConfirmationError>, StateCheckpoint), EngineFault>)
        requires
            all_pass_stateless(views(soft_batch.txs@)),
        ensures
            r matches Ok((Err(_), c)) ==> c@ == checkpoint@,
            r matches Ok((Ok(b), _)) ==> b.batch_hash == soft_batch.hash && receipts_for(
                b.tx_receipts@,
                views(soft_batch.txs@),
            ),
            r matches Err(f) ==> f == EngineFault::UndecodableSequencerTransaction || f
                == EngineFault::PostDispatchHookFailed,
            soft_batch.txs@.len() == 0 ==> r is Ok,
    {
        let hook = RuntimeTxHook {
            height: soft_batch.da_slot_height,
            sequencer: soft_batch.sequencer_pub_key.clone(),
        };
        match self.begin_soft_confirmation_inner(checkpoint, soft_batch) {
            (Ok(()), ws) => {
                let (ws, tx_receipts) = match self.apply_sov_txs_inner(&soft_batch.txs, &hook, ws) {
                    Ok(applied) => applied,
                    Err(f) => {
                        return Err(f);
                    },
                };
                Ok(self.end_soft_confirmation_inner(soft_batch, tx_receipts, ws))
            },
            (Err(e), ws) => Ok((Err(e), ws.revert())),
        }
    }

    /// Applies a soft confirmation after checking that every transaction passes
    /// stateless verification; where one does not, the sequencer is faulty and
    /// nothing is applied.
    pub fn try_apply_soft_confirmation(
        &self,
        checkpoint: StateCheckpoint,
        soft_batch: &SignedSoftConfirmationBatch,
    ) -> (r: Result<(Result<BatchReceipt, ApplySoftConfirmationError>, StateCheckpoint), EngineFault>)
        ensures
            !all_pass_stateless(views(soft_batch.txs@)) ==> (r matches Err(f) && f
                == EngineFault::InvalidSequencerTransaction),
            r matches Ok((Err(_), c)) ==> c@ == checkpoint@,
            r matches Ok((Ok(b), _)) ==> b.batch_hash == soft_batch.hash && receipts_for(
                b.tx_receipts@,
                views(soft_batch.txs@),
            ),
            soft_batch.txs@.len() == 0 ==> r is Ok,
    {
        if verify_txs_stateless(&soft_batch.txs).is_none() {
            return Err(EngineFault::InvalidSequencerTransaction);
        }
        self.apply_soft_confirmation(checkpoint, soft_batch)
    }

    /// Applies a blob on top of `checkpoint`: ignored where the begin hook refuses
    /// it, slashed where it is malformed, otherwise every transaction is applied.
    /// The pre-dispatch hook sees `height` and the blob's sender as sequencer.
    pub fn apply_blob(&self, checkpoint: StateCheckpoint, blob: &BlobTransaction, height: u64) -> (r:
        Result<(Result<BatchReceipt, ApplyBatchError>, StateCheckpoint), EngineFault>)
        requires
            !self.data_withheld(blob),
        ensures
            r matches Ok((Err(ApplyBatchError::Ignored(h)), c)) ==> h == blob.hash && c@
                == checkpoint@,
            r matches Ok((Err(ApplyBatchError::Slashed { hash, reason, sequencer_da_address }), _))
                ==> hash == blob.hash && sequencer_da_address@ == blob.sender@ && (stateless_slash(
                self.data_of(blob),
            ) == Some(reason) || (stateless_slash(self.data_of(blob)) is None && reason
                == SlashingReason::InvalidTransactionEncoding)),
            stateless_slash(self.data_of(blob)) matches Some(e) ==> (r matches Ok((Err(err), _)) && (
            err is Ignored || (err matches ApplyBatchError::Slashed { reason, .. } && reason == e))),
            r matches Ok((Ok(b), _)) ==> b.batch_hash == blob.hash && stateless_slash(
                self.data_of(blob),
            ) is None && receipts_for(b.tx_receipts@, batch_of(self.data_of(blob))),
            r matches Err(f) ==> f == EngineFault::PostDispatchHookFailed && stateless_slash(
                self.data_of(blob),
            ) is None,
    {
        let mut ws = checkpoint.to_revertable();
        let begun = self.runtime.begin_blob_hook(blob, &mut ws);
        let ws = match settle_begin_blob(begun, blob.hash, ws) {
            Ok(ws) => ws,
            Err((ignored, checkpoint)) => {
                return Ok((Err(ignored), checkpoint));
            },
        };
        let (txs, messages) = match self.pre_process_batch(blob) {
            Ok(preprocessed) => preprocessed,
            Err(reason) => {
                let mut ws = ws;
                let ended = self.runtime.end_blob_hook(&mut ws);
                let checkpoint = settle_end_blob_after_slash(ended, ws);
                let slashed = ApplyBatchError::Slashed {
                    hash: blob.hash,
                    reason,
                    sequencer_da_address: blob.sender.clone(),
                };
                return Ok((Err(slashed), checkpoint));
            },
        };
        let hook = RuntimeTxHook { height, sequencer: blob.sender.clone() };
        let ghost vs = txs@;
        let (ws, tx_receipts) = match self.dispatch_txs(txs, messages, &hook, ws) {
            Ok(applied) => applied,
            Err(f) => {
                return Err(f);
            },
        };
        proof {
            assert forall|i: int| 0 <= i < tx_receipts@.len() implies receipt_for(
                #[trigger] tx_receipts@[i],
                batch_of(self.data_of(blob))[i],
            ) by {
                assert(verified_from(vs[i], batch_of(self.data_of(blob))[i]));
                assert(receipt_records(tx_receipts@[i], vs[i]));
            }
        }
        let mut ws = ws;
        let ended = self.runtime.end_blob_hook(&mut ws);
        let checkpoint = settle_end_hook(ended, ws);
        Ok((Ok(BatchReceipt { batch_hash: blob.hash, tx_receipts }), checkpoint))
    }
}

} // verus!
