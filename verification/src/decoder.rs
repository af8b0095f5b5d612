//! Decoding of raw transaction bytes into a tagged transaction with its
//! content hash.
//!
//! The wire format of the transactions themselves belongs to the `ethereum`
//! and `rlp` crates. This module decides which of their decoders a buffer is
//! handed to, reports what became of it, and keeps the accepted payload
//! together with its hash.

use vstd::prelude::*;
use vstd::slice::slice_to_vec;
use crate::primitives::H256;

verus! {

/// The two wire-format families of transactions.
#[derive(Clone, Copy, Debug, PartialEq, Eq, Structural)]
pub enum TransactionKind {
    /// A bare RLP list of nine items.
    Legacy,
    /// A version byte followed by the RLP list of that version.
    Typed,
}

/// Why a buffer was not accepted as a transaction.
#[derive(Clone, Copy, Debug, PartialEq, Eq, Structural)]
pub enum DecodeError {
    /// The buffer holds no bytes.
    Empty,
    /// The codec of the buffer's wire-format family refused it.
    Malformed,
}

/// An accepted transaction: its wire-format family, its content hash and the
/// bytes it was decoded from.
#[derive(Clone, Debug, PartialEq, Eq)]
pub enum DecodedTransaction {
    Legacy { hash: H256, payload: Vec<u8> },
    Typed { hash: H256, payload: Vec<u8> },
}

impl DecodedTransaction {
    /// The wire-format family.
    pub open spec fn spec_kind(&self) -> TransactionKind {
        match self {
            DecodedTransaction::Legacy { .. } => TransactionKind::Legacy,
            DecodedTransaction::Typed { .. } => TransactionKind::Typed,
        }
    }

    /// The content hash.
    pub open spec fn spec_hash(&self) -> H256 {
        match self {
            DecodedTransaction::Legacy { hash, .. } => *hash,
            DecodedTransaction::Typed { hash, .. } => *hash,
        }
    }

    /// The bytes the transaction was decoded from.
    pub open spec fn spec_payload(&self) -> Seq<u8> {
        match self {
            DecodedTransaction::Legacy { payload, .. } => payload@,
            DecodedTransaction::Typed { payload, .. } => payload@,
        }
    }

    /// The wire-format family.
    pub fn kind(&self) -> (r: TransactionKind)
        ensures
            r == self.spec_kind(),
    {
        match self {
            DecodedTransaction::Legacy { .. } => TransactionKind::Legacy,
            DecodedTransaction::Typed { .. } => TransactionKind::Typed,
        }
    }

    /// Whether the transaction is of the legacy family.
    pub fn is_legacy(&self) -> (r: bool)
        ensures
            r == (self.spec_kind() == TransactionKind::Legacy),
    {
        match self {
            DecodedTransaction::Legacy { .. } => true,
            DecodedTransaction::Typed { .. } => false,
        }
    }

    /// The content hash.
    pub fn hash(&self) -> (r: H256)
        ensures
            r == self.spec_hash(),
    {
        match self {
            DecodedTransaction::Legacy { hash, .. } => *hash,
            DecodedTransaction::Typed { hash, .. } => *hash,
        }
    }

    /// The bytes the transaction was decoded from.
    pub fn payload(&self) -> (r: &[u8])
        ensures
            r@ == self.spec_payload(),
    {
        match self {
            DecodedTransaction::Legacy { payload, .. } => payload.as_slice(),
            DecodedTransaction::Typed { payload, .. } => payload.as_slice(),
        }
    }
}

/// The family that the first byte of a buffer announces: above `0x7f` a
/// legacy transaction, otherwise a typed one. An empty buffer announces none.
pub open spec fn announced_kind(bytes: Seq<u8>) -> Option<TransactionKind> {
    if bytes.len() == 0 {
        None
    } else if bytes[0] > 0x7f {
        Some(TransactionKind::Legacy)
    } else {
        Some(TransactionKind::Typed)
    }
}

/// The shortest big-endian form of `n`; zero has the empty form.
pub open spec fn be_bytes(n: nat) -> Seq<u8>
    decreases n,
{
    if n == 0 {
        Seq::empty()
    } else {
        be_bytes(n / 256).push((n % 256) as u8)
    }
}

/// The RLP encoding of `bytes` as one byte string. The length field of a
/// long string is 32 bits wide in the `rlp` crate, so it holds the length
/// modulo 2^32.
pub open spec fn rlp_byte_string(bytes: Seq<u8>) -> Seq<u8> {
    if bytes.len() == 0 {
        seq![0x80u8]
    } else if bytes.len() == 1 && bytes[0] < 0x80 {
        bytes
    } else if bytes.len() <= 55 {
        seq![(0x80 + bytes.len()) as u8] + bytes
    } else {
        let field = be_bytes(bytes.len() % 0x1_0000_0000);
        seq![(0xb7 + field.len()) as u8] + field + bytes
    }
}

/// The hash of the legacy transaction that `bytes` decode to, where the
/// codec accepts them.
pub uninterp spec fn legacy_transaction_hash(bytes: Seq<u8>) -> Option<Seq<u8>>;

/// The hash of the transaction that the enveloping byte string `wrapped`
/// decodes to, where the codec accepts it.
pub uninterp spec fn envelope_transaction_hash(wrapped: Seq<u8>) -> Option<Seq<u8>>;

/// Calls `rlp::decode::<ethereum::TransactionV0>` on `bytes` and, where it
/// returns a transaction, `ethereum::TransactionV2::hash` on that transaction
/// as a legacy envelope. Both are functions of their input alone; the contract
/// gives the outcome its name and claims nothing else.
#[verifier::external_body]
fn legacy_hash(bytes: &[u8]) -> (r: Option<H256>)
    ensures
        match r {
            Some(hash) => legacy_transaction_hash(bytes@) == Some(hash@),
            None => legacy_transaction_hash(bytes@) is None,
        },
{
    match rlp::decode::<ethereum::TransactionV0>(bytes) {
        Ok(transaction) => {
            Some(H256 { bytes: ethereum::TransactionV2::Legacy(transaction).hash().0 })
        },
        Err(_) => None,
    }
}

/// Calls `rlp::decode::<ethereum::TransactionV2>` on `wrapped` and, where it
/// returns a transaction, `ethereum::TransactionV2::hash` on it. Both are
/// functions of their input alone; the contract gives the outcome its name
/// and claims nothing else.
#[verifier::external_body]
fn envelope_hash(wrapped: &[u8]) -> (r: Option<H256>)
    ensures
        match r {
            Some(hash) => envelope_transaction_hash(wrapped@) == Some(hash@),
            None => envelope_transaction_hash(wrapped@) is None,
        },
{
    match rlp::decode::<ethereum::TransactionV2>(wrapped) {
        Ok(transaction) => Some(H256 { bytes: transaction.hash().0 }),
        Err(_) => None,
    }
}

/// Calls `rlp::encode` on a byte slice, which the `rlp` crate encodes as one
/// byte string: a single byte below `0x80` stands for itself, up to 55 bytes
/// follow a prefix of `0x80` plus their count, and longer strings follow
/// `0xb7` plus the width of the length field and that field.
#[verifier::external_body]
fn rlp_wrap(bytes: &[u8]) -> (r: Vec<u8>)
    ensures
        r@ == rlp_byte_string(bytes@),
{
    rlp::encode(&bytes).to_vec()
}

/// What decoding makes of a buffer: the family and hash of the accepted
/// transaction, or the reason for refusing the buffer.
pub open spec fn decoding(bytes: Seq<u8>) -> Result<(TransactionKind, Seq<u8>), DecodeError> {
    match announced_kind(bytes) {
        None => Err(DecodeError::Empty),
        Some(TransactionKind::Legacy) => match legacy_transaction_hash(bytes) {
            Some(hash) => Ok((TransactionKind::Legacy, hash)),
            None => Err(DecodeError::Malformed),
        },
        Some(TransactionKind::Typed) => match envelope_transaction_hash(rlp_byte_string(bytes)) {
            Some(hash) => Ok((TransactionKind::Typed, hash)),
            None => Err(DecodeError::Malformed),
        },
    }
}

/// The family of an accepted transaction follows from the first byte of its
/// buffer alone: above `0x7f` it is legacy, otherwise typed, whatever the
/// rest of the buffer holds.
pub proof fn law_family_follows_first_byte(bytes: Seq<u8>)
    requires
        decoding(bytes) is Ok,
    ensures
        bytes.len() > 0,
        decoding(bytes).unwrap().0 == if bytes[0] > 0x7f {
            TransactionKind::Legacy
        } else {
            TransactionKind::Typed
        },
{
}

/// An empty buffer is refused as empty, and no other buffer is.
pub proof fn law_only_the_empty_buffer_is_empty(bytes: Seq<u8>)
    ensures
        decoding(bytes) == Err::<(TransactionKind, Seq<u8>), DecodeError>(DecodeError::Empty)
            <==> bytes.len() == 0,
{
}

/// Reads the family that a buffer announces off its first byte.
pub fn wire_kind(bytes: &[u8]) -> (r: Option<TransactionKind>)
    ensures
        r == announced_kind(bytes@),
{
    if bytes.len() == 0 {
        None
    } else if bytes[0] > 0x7f {
        Some(TransactionKind::Legacy)
    } else {
        Some(TransactionKind::Typed)
    }
}

/// Turns the codec's answer for a buffer of a known family into the decoder's
/// result: a hash makes an accepted transaction of that family, carrying the
/// buffer; no hash makes the buffer malformed.
pub fn accept(kind: TransactionKind, bytes: &[u8], outcome: Option<H256>) -> (r: Result<
    DecodedTransaction,
    DecodeError,
>)
    ensures
        match outcome {
            Some(hash) => r is Ok && r.unwrap().spec_kind() == kind && r.unwrap().spec_hash()
                == hash && r.unwrap().spec_payload() == bytes@,
            None => r == Err::<DecodedTransaction, DecodeError>(DecodeError::Malformed),
        },
{
    match outcome {
        Some(hash) => {
            let payload = slice_to_vec(bytes);
            match kind {
                TransactionKind::Legacy => Ok(DecodedTransaction::Legacy { hash, payload }),
                TransactionKind::Typed => Ok(DecodedTransaction::Typed { hash, payload }),
            }
        },
        None => Err(DecodeError::Malformed),
    }
}

/// Decodes a raw transaction.
///
/// An empty buffer is refused as `Empty`. A buffer whose first byte is above
/// `0x7f` goes to the legacy codec as it is. Any other buffer is a typed
/// transaction, which is no RLP item by itself: it is wrapped as one RLP byte
/// string and handed to the envelope codec, which strips the wrapping and
/// reads the version byte. A buffer that its codec refuses is `Malformed`.
pub fn decode(bytes: &[u8]) -> (r: Result<DecodedTransaction, DecodeError>)
    ensures
        match decoding(bytes@) {
            Ok((kind, hash)) => r is Ok && r.unwrap().spec_kind() == kind && r.unwrap().spec_hash()@
                == hash && r.unwrap().spec_payload() == bytes@,
            Err(error) => r == Err::<DecodedTransaction, DecodeError>(error),
        },
{
    match wire_kind(bytes) {
        None => Err(DecodeError::Empty),
        Some(TransactionKind::Legacy) => {
            let outcome = legacy_hash(bytes);
            accept(TransactionKind::Legacy, bytes, outcome)
        },
        Some(TransactionKind::Typed) => {
            let wrapped = rlp_wrap(bytes);
            let outcome = envelope_hash(wrapped.as_slice());
            accept(TransactionKind::Typed, bytes, outcome)
        },
    }
}

} // verus!
