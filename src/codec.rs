use borsh::{BorshDeserialize, BorshSerialize};
use ed25519_dalek::Verifier;
use sha2::Digest;
use vstd::prelude::*;

verus! {

/// The largest length that a length prefix can carry.
pub const MAX_PREFIXED_LEN: u64 = 0xffff_ffff;

/// Little-endian bytes of a 32-bit integer.
pub open spec fn u32_le(n: u32) -> Seq<u8> {
    seq![n as u8, (n >> 8u32) as u8, (n >> 16u32) as u8, (n >> 24u32) as u8]
}

/// Little-endian bytes of a 64-bit integer.
pub open spec fn u64_le(n: u64) -> Seq<u8> {
    seq![
        n as u8,
        (n >> 8u64) as u8,
        (n >> 16u64) as u8,
        (n >> 24u64) as u8,
        (n >> 32u64) as u8,
        (n >> 40u64) as u8,
        (n >> 48u64) as u8,
        (n >> 56u64) as u8,
    ]
}

/// A byte string prefixed with its length.
pub open spec fn encode_bytes(b: Seq<u8>) -> Seq<u8> {
    u32_le(b.len() as u32) + b
}

/// The length-prefixed byte strings of `s`, one after another.
pub open spec fn encode_byte_seqs(s: Seq<Seq<u8>>) -> Seq<u8>
    decreases s.len(),
{
    if s.len() == 0 {
        Seq::empty()
    } else {
        encode_bytes(s[0]) + encode_byte_seqs(s.drop_first())
    }
}

/// A batch: the number of transactions, then each raw transaction with its length.
pub open spec fn encode_batch(txs: Seq<Seq<u8>>) -> Seq<u8> {
    u32_le(txs.len() as u32) + encode_byte_seqs(txs)
}

/// Whether every length in the batch fits its prefix.
pub open spec fn batch_encodable(txs: Seq<Seq<u8>>) -> bool {
    &&& txs.len() <= MAX_PREFIXED_LEN
    &&& forall|i: int| 0 <= i < txs.len() ==> (#[trigger] txs[i]).len() <= MAX_PREFIXED_LEN
}

/// Whether `data` is the encoding of some batch.
pub open spec fn is_batch_encoding(data: Seq<u8>) -> bool {
    exists|txs: Seq<Seq<u8>>| batch_encodable(txs) && #[trigger] encode_batch(txs) == data
}

/// The batch that `data` encodes, where it encodes one.
pub open spec fn batch_of(data: Seq<u8>) -> Seq<Seq<u8>> {
    choose|txs: Seq<Seq<u8>>| batch_encodable(txs) && #[trigger] encode_batch(txs) == data
}

/// A signed transaction as the sequencer submits it.
#[derive(Clone, Debug, PartialEq, Eq)]
pub struct Transaction {
    pub signature: [u8; 64],
    pub pub_key: [u8; 32],
    pub runtime_msg: Vec<u8>,
    pub nonce: u64,
}

impl Transaction {
    /// The canonical encoding: signature, public key, length-prefixed message, nonce.
    pub open spec fn encoding(&self) -> Seq<u8> {
        self.signature@ + self.pub_key@ + encode_bytes(self.runtime_msg@) + u64_le(self.nonce)
    }

    /// Whether the message length fits its prefix.
    pub open spec fn encodable(&self) -> bool {
        self.runtime_msg@.len() <= MAX_PREFIXED_LEN
    }

    /// The bytes that the signature covers: the message followed by the nonce.
    pub open spec fn signed_bytes(&self) -> Seq<u8> {
        self.runtime_msg@ + u64_le(self.nonce)
    }

    /// Whether the signature is valid for the public key over the signed bytes.
    pub open spec fn signature_valid(&self) -> bool {
        ed25519_accepts(self.pub_key@, self.signed_bytes(), self.signature@)
    }
}

/// Whether `raw` is the encoding of some transaction.
pub open spec fn is_tx_encoding(raw: Seq<u8>) -> bool {
    exists|t: Transaction| t.encodable() && #[trigger] t.encoding() == raw
}

/// The transaction that `raw` encodes, where it encodes one.
pub open spec fn tx_of(raw: Seq<u8>) -> Transaction {
    choose|t: Transaction| t.encodable() && #[trigger] t.encoding() == raw
}

/// Whether a raw transaction passes stateless verification: it decodes, and its
/// signature is valid.
pub open spec fn passes_stateless(raw: Seq<u8>) -> bool {
    is_tx_encoding(raw) && tx_of(raw).signature_valid()
}

/// Result of the SHA-256 digest of `data`.
pub uninterp spec fn sha256_of(data: Seq<u8>) -> Seq<u8>;

/// Result of Ed25519 verification of `signature` over `message` under `public_key`.
pub uninterp spec fn ed25519_accepts(public_key: Seq<u8>, message: Seq<u8>, signature: Seq<u8>) -> bool;

proof fn lemma_u64_le_injective(a: u64, b: u64)
    requires
        u64_le(a) == u64_le(b),
    ensures
        a == b,
{
    assert(u64_le(a)[0] == u64_le(b)[0]);
    assert(u64_le(a)[1] == u64_le(b)[1]);
    assert(u64_le(a)[2] == u64_le(b)[2]);
    assert(u64_le(a)[3] == u64_le(b)[3]);
    assert(u64_le(a)[4] == u64_le(b)[4]);
    assert(u64_le(a)[5] == u64_le(b)[5]);
    assert(u64_le(a)[6] == u64_le(b)[6]);
    assert(u64_le(a)[7] == u64_le(b)[7]);
    assert(a == b) by (bit_vector)
        requires
            (a as u8) == (b as u8),
            ((a >> 8u64) as u8) == ((b >> 8u64) as u8),
            ((a >> 16u64) as u8) == ((b >> 16u64) as u8),
            ((a >> 24u64) as u8) == ((b >> 24u64) as u8),
            ((a >> 32u64) as u8) == ((b >> 32u64) as u8),
            ((a >> 40u64) as u8) == ((b >> 40u64) as u8),
            ((a >> 48u64) as u8) == ((b >> 48u64) as u8),
            ((a >> 56u64) as u8) == ((b >> 56u64) as u8),
    ;
}

proof fn lemma_u32_le_injective(a: u32, b: u32)
    requires
        u32_le(a) == u32_le(b),
    ensures
        a == b,
{
    assert(u32_le(a)[0] == u32_le(b)[0]);
    assert(u32_le(a)[1] == u32_le(b)[1]);
    assert(u32_le(a)[2] == u32_le(b)[2]);
    assert(u32_le(a)[3] == u32_le(b)[3]);
    assert(a == b) by (bit_vector)
        requires
            (a as u8) == (b as u8),
            ((a >> 8u32) as u8) == ((b >> 8u32) as u8),
            ((a >> 16u32) as u8) == ((b >> 16u32) as u8),
            ((a >> 24u32) as u8) == ((b >> 24u32) as u8),
    ;
}

/// Two transactions with the same encoding are the same transaction.
pub proof fn lemma_tx_encoding_injective(t1: Transaction, t2: Transaction)
    requires
        t1.encoding() == t2.encoding(),
    ensures
        t1.signature@ == t2.signature@,
        t1.pub_key@ == t2.pub_key@,
        t1.runtime_msg@ == t2.runtime_msg@,
        t1.nonce == t2.nonce,
        t1.signed_bytes() == t2.signed_bytes(),
        t1.signature_valid() == t2.signature_valid(),
{
    let e = t1.encoding();
    let n = t1.runtime_msg@.len() as int;
    assert(e.len() == 108 + n);
    assert(e.len() == 108 + t2.runtime_msg@.len());
    assert(t1.signature@ =~= e.subrange(0, 64));
    assert(t2.signature@ =~= e.subrange(0, 64));
    assert(t1.pub_key@ =~= e.subrange(64, 96));
    assert(t2.pub_key@ =~= e.subrange(64, 96));
    assert(t1.runtime_msg@ =~= e.subrange(100, 100 + n));
    assert(t2.runtime_msg@ =~= e.subrange(100, 100 + n));
    assert(u64_le(t1.nonce) =~= e.subrange(100 + n, 108 + n));
    assert(u64_le(t2.nonce) =~= e.subrange(100 + n, 108 + n));
    lemma_u64_le_injective(t1.nonce, t2.nonce);
    assert(t1.signed_bytes() =~= t2.signed_bytes());
}

proof fn lemma_byte_seqs_injective(a: Seq<Seq<u8>>, b: Seq<Seq<u8>>)
    requires
        a.len() == b.len(),
        batch_encodable(a),
        batch_encodable(b),
        encode_byte_seqs(a) == encode_byte_seqs(b),
    ensures
        a == b,
    decreases a.len(),
{
    if a.len() == 0 {
        assert(a =~= b);
    } else {
        let e = encode_byte_seqs(a);
        let la = a[0].len() as int;
        let lb = b[0].len() as int;
        assert(u32_le(la as u32) =~= e.subrange(0, 4));
        assert(u32_le(lb as u32) =~= e.subrange(0, 4));
        lemma_u32_le_injective(la as u32, lb as u32);
        assert(la == lb);
        assert(a[0] =~= e.subrange(4, 4 + la));
        assert(b[0] =~= e.subrange(4, 4 + la));
        assert(encode_byte_seqs(a.drop_first()) =~= e.subrange(4 + la, e.len() as int));
        assert(encode_byte_seqs(b.drop_first()) =~= e.subrange(4 + la, e.len() as int));
        assert(batch_encodable(a.drop_first()));
        assert(batch_encodable(b.drop_first()));
        lemma_byte_seqs_injective(a.drop_first(), b.drop_first());
        assert(a =~= b) by {
            assert forall|i: int| 0 <= i < a.len() implies a[i] == b[i] by {
                if i > 0 {
                    assert(a[i] == a.drop_first()[i - 1]);
                    assert(b[i] == b.drop_first()[i - 1]);
                }
            }
        }
    }
}

/// Two batches with the same encoding are the same batch.
pub proof fn lemma_batch_encoding_injective(a: Seq<Seq<u8>>, b: Seq<Seq<u8>>)
    requires
        batch_encodable(a),
        batch_encodable(b),
        encode_batch(a) == encode_batch(b),
    ensures
        a == b,
{
    let e = encode_batch(a);
    assert(u32_le(a.len() as u32) =~= e.subrange(0, 4));
    assert(u32_le(b.len() as u32) =~= e.subrange(0, 4));
    lemma_u32_le_injective(a.len() as u32, b.len() as u32);
    assert(encode_byte_seqs(a) =~= e.subrange(4, e.len() as int));
    assert(encode_byte_seqs(b) =~= e.subrange(4, e.len() as int));
    lemma_byte_seqs_injective(a, b);
}

/// Decoding the encoding of a transaction gives back that transaction.
pub proof fn lemma_transaction_round_trip(t: Transaction)
    requires
        t.encodable(),
    ensures
        is_tx_encoding(t.encoding()),
        tx_of(t.encoding()).signature@ == t.signature@,
        tx_of(t.encoding()).pub_key@ == t.pub_key@,
        tx_of(t.encoding()).runtime_msg@ == t.runtime_msg@,
        tx_of(t.encoding()).nonce == t.nonce,
{
    assert(is_tx_encoding(t.encoding()));
    lemma_tx_encoding_injective(tx_of(t.encoding()), t);
}

/// Decoding the encoding of a batch gives back that batch.
pub proof fn lemma_batch_round_trip(txs: Seq<Seq<u8>>)
    requires
        batch_encodable(txs),
    ensures
        is_batch_encoding(encode_batch(txs)),
        batch_of(encode_batch(txs)) == txs,
{
    assert(is_batch_encoding(encode_batch(txs)));
    lemma_batch_encoding_injective(batch_of(encode_batch(txs)), txs);
}

/// The byte strings that the vectors hold.
pub open spec fn views(v: Seq<Vec<u8>>) -> Seq<Seq<u8>> {
    v.map_values(|t: Vec<u8>| t@)
}

/// Relies on borsh's `try_from_slice` for `Vec<Vec<u8>>`: a little-endian `u32`
/// count, then each element as a `u32` length and its bytes, with no byte left over.
#[verifier::external_body]
fn borsh_decode_batch(data: &[u8]) -> (r: Option<Vec<Vec<u8>>>)
    ensures
        match r {
            Some(v) => batch_encodable(views(v@)) && encode_batch(views(v@)) == data@,
            None => !is_batch_encoding(data@),
        },
{
    <Vec<Vec<u8>> as BorshDeserialize>::try_from_slice(data).ok()
}

/// Relies on borsh's `try_from_slice` for `([u8; 64], [u8; 32], Vec<u8>, u64)`:
/// the arrays as their bytes, the vector with a `u32` length, the integer little-endian,
/// with no byte left over.
#[verifier::external_body]
fn borsh_decode_transaction(raw: &[u8]) -> (r: Option<Transaction>)
    ensures
        match r {
            Some(t) => t.encodable() && t.encoding() == raw@,
            None => !is_tx_encoding(raw@),
        },
{
    match <([u8; 64], [u8; 32], Vec<u8>, u64) as BorshDeserialize>::try_from_slice(raw) {
        Ok((signature, pub_key, runtime_msg, nonce)) => Some(
            Transaction { signature, pub_key, runtime_msg, nonce },
        ),
        Err(_) => None,
    }
}

/// Relies on borsh's `try_to_vec` for `([u8; 64], [u8; 32], Vec<u8>, u64)`: it fails
/// only where the vector's length does not fit a `u32`.
#[verifier::external_body]
fn borsh_encode_transaction(tx: &Transaction) -> (r: Option<Vec<u8>>)
    ensures
        r is Some <==> tx.encodable(),
        r matches Some(v) ==> v@ == tx.encoding(),
{
    (&tx.signature, &tx.pub_key, &tx.runtime_msg, &tx.nonce).try_to_vec().ok()
}

/// Relies on sha2's `Sha256::digest`.
#[verifier::external_body]
pub fn sha256(data: &[u8]) -> (r: [u8; 32])
    ensures
        r@ == sha256_of(data@),
{
    sha2::Sha256::digest(data).into()
}

/// Relies on ed25519-dalek's `VerifyingKey::from_bytes` and `Verifier::verify`: a key
/// that is not a valid point accepts nothing.
#[verifier::external_body]
fn ed25519_verify(public_key: &[u8; 32], message: &[u8], signature: &[u8; 64]) -> (r: bool)
    ensures
        r == ed25519_accepts(public_key@, message@, signature@),
{
    match ed25519_dalek::VerifyingKey::from_bytes(public_key) {
        Ok(key) => key.verify(message, &ed25519_dalek::Signature::from_bytes(signature)).is_ok(),
        Err(_) => false,
    }
}

/// Decodes a batch of raw transactions.
pub fn decode_batch(data: &[u8]) -> (r: Option<Vec<Vec<u8>>>)
    ensures
        r is Some <==> is_batch_encoding(data@),
        r matches Some(v) ==> views(v@) == batch_of(data@),
{
    let r = borsh_decode_batch(data);
    proof {
        if let Some(v) = &r {
            assert(is_batch_encoding(data@));
            lemma_batch_encoding_injective(views(v@), batch_of(data@));
        }
    }
    r
}

/// Decodes one transaction.
pub fn decode_transaction(raw: &[u8]) -> (r: Option<Transaction>)
    ensures
        r is Some <==> is_tx_encoding(raw@),
        r matches Some(t) ==> t.encodable() && t.encoding() == raw@
            && t.signature_valid() == tx_of(raw@).signature_valid(),
{
    let r = borsh_decode_transaction(raw);
    proof {
        if let Some(t) = &r {
            assert(is_tx_encoding(raw@));
            lemma_tx_encoding_injective(*t, tx_of(raw@));
        }
    }
    r
}

/// The canonical encoding of a transaction, where its message fits a length prefix.
pub fn encode_transaction(tx: &Transaction) -> (r: Option<Vec<u8>>)
    ensures
        r is Some <==> tx.encodable(),
        r matches Some(v) ==> v@ == tx.encoding(),
{
    borsh_encode_transaction(tx)
}

/// The bytes that a transaction's signature covers.
pub fn signed_bytes(tx: &Transaction) -> (r: Vec<u8>)
    ensures
        r@ == tx.signed_bytes(),
{
    let mut out = tx.runtime_msg.clone();
    let n = tx.nonce;
    out.push(n as u8);
    out.push((n >> 8u64) as u8);
    out.push((n >> 16u64) as u8);
    out.push((n >> 24u64) as u8);
    out.push((n >> 32u64) as u8);
    out.push((n >> 40u64) as u8);
    out.push((n >> 48u64) as u8);
    out.push((n >> 56u64) as u8);
    proof {
        assert(out@ =~= tx.runtime_msg@ + u64_le(tx.nonce));
    }
    out
}

/// Checks a transaction's signature.
pub fn verify_signature(tx: &Transaction) -> (r: bool)
    ensures
        r == tx.signature_valid(),
{
    let msg = signed_bytes(tx);
    ed25519_verify(&tx.pub_key, msg.as_slice(), &tx.signature)
}

} // verus!
