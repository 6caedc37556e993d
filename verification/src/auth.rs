//! Verification layer: turns a raw submitted transaction into an
//! authenticated sender identity plus an opaque runtime message, or rejects
//! it. Verification is a pure function of the raw bytes, so replay on any
//! node reaches the same verdict.
//!
//! Wire format of a raw transaction: one version byte (currently 1), the
//! sender address as eight little-endian bytes, the runtime message, and a
//! trailing authenticator byte that must equal the wrapping byte-sum of
//! everything before it.

use vstd::prelude::*;

verus! {

/// Rlp encoded evm transaction.
pub struct RlpEvmTransaction {
    /// Rlp data.
    pub rlp: Vec<u8>,
}

/// Why a raw transaction was rejected by verification.
#[derive(Clone, Copy, PartialEq, Eq, Structural, Debug)]
pub enum VerificationError {
    /// The raw bytes are too short to carry a version, sender and authenticator.
    MalformedEncoding,
    /// The version byte names an unsupported encoding version.
    UnsupportedVersion,
    /// The trailing authenticator byte does not match the payload.
    BadSignature,
}

/// Represents a transaction after verification.
pub trait VerifiedTx {
    /// The sender identity type.
    type Address;

    /// The authenticated sender, at the specification level.
    spec fn sender_spec(&self) -> Self::Address;

    /// The opaque runtime message, at the specification level.
    spec fn message_spec(&self) -> Seq<u8>;

    /// The authenticated sender of this transaction.
    fn sender(&self) -> (a: &Self::Address)
        ensures
            *a == self.sender_spec(),
    ;

    /// The opaque message to be routed to the owning module.
    fn runtime_message(&self) -> (m: &[u8])
        ensures
            m@ == self.message_spec(),
    ;
}

/// Wrapping byte-sum authenticator over `s`.
pub open spec fn checksum_spec(s: Seq<u8>) -> u8
    decreases s.len(),
{
    if s.len() == 0 {
        0u8
    } else {
        ((checksum_spec(s.drop_last()) as nat + s.last() as nat) % 256) as u8
    }
}

/// The u64 encoded by eight little-endian bytes.
pub open spec fn le_bytes_u64(s: Seq<u8>) -> u64
    recommends
        s.len() == 8,
{
    (s[0] as nat + s[1] as nat * 0x100 + s[2] as nat * 0x1_0000 + s[3] as nat * 0x100_0000
        + s[4] as nat * 0x1_0000_0000 + s[5] as nat * 0x100_0000_0000
        + s[6] as nat * 0x1_0000_0000_0000 + s[7] as nat * 0x100_0000_0000_0000) as u64
}

/// A raw transaction that verification accepts: long enough, version 1, and
/// its authenticator byte matches the rest.
pub open spec fn tx_wf(s: Seq<u8>) -> bool {
    &&& s.len() >= 10
    &&& s[0] == 1u8
    &&& s.last() == checksum_spec(s.drop_last())
}

/// The sender address carried by a well-formed raw transaction.
pub open spec fn tx_sender(s: Seq<u8>) -> u64 {
    le_bytes_u64(s.subrange(1, 9))
}

/// The runtime message carried by a well-formed raw transaction.
pub open spec fn tx_message(s: Seq<u8>) -> Seq<u8> {
    s.subrange(9, s.len() - 1)
}

/// A transaction after authentication: sender identity plus opaque message.
/// Values of this type exist only for the duration of one batch attempt.
pub struct AuthenticatedTx {
    sender: u64,
    message: Vec<u8>,
}

impl VerifiedTx for AuthenticatedTx {
    type Address = u64;

    closed spec fn sender_spec(&self) -> u64 {
        self.sender
    }

    closed spec fn message_spec(&self) -> Seq<u8> {
        self.message@
    }

    fn sender(&self) -> (a: &u64) {
        &self.sender
    }

    fn runtime_message(&self) -> (m: &[u8]) {
        self.message.as_slice()
    }
}

/// Wrapping byte-sum of the first `m` bytes of `v`.
fn checksum_prefix(v: &Vec<u8>, m: usize) -> (r: u8)
    requires
        m <= v@.len(),
    ensures
        r == checksum_spec(v@.take(m as int)),
{
    let mut acc: u16 = 0;
    let mut i: usize = 0;
    proof {
        assert(v@.take(0) =~= Seq::<u8>::empty());
    }
    while i < m
        invariant
            i <= m <= v@.len(),
            acc < 256,
            acc as u8 == checksum_spec(v@.take(i as int)),
            acc == acc as u8 as u16,
        decreases m - i,
    {
        proof {
            assert(v@.take(i as int + 1).drop_last() =~= v@.take(i as int));
            assert(v@.take(i as int + 1).last() == v@[i as int]);
        }
        acc = (acc + v[i] as u16) % 256;
        i = i + 1;
    }
    acc as u8
}

/// Verifies a raw transaction: checks length, version and authenticator, and
/// on success returns the authenticated sender and runtime message. Reads no
/// state and writes none; the verdict depends on the raw bytes alone.
pub fn verify(raw: &RlpEvmTransaction) -> (r: Result<AuthenticatedTx, VerificationError>)
    ensures
        r is Ok <==> tx_wf(raw.rlp@),
        r == Err::<AuthenticatedTx, VerificationError>(VerificationError::MalformedEncoding)
            <==> raw.rlp@.len() < 10,
        r == Err::<AuthenticatedTx, VerificationError>(VerificationError::UnsupportedVersion)
            <==> raw.rlp@.len() >= 10 && raw.rlp@[0] != 1u8,
        r == Err::<AuthenticatedTx, VerificationError>(VerificationError::BadSignature)
            <==> raw.rlp@.len() >= 10 && raw.rlp@[0] == 1u8 && raw.rlp@.last()
                != checksum_spec(raw.rlp@.drop_last()),
        r is Ok ==> r.unwrap().sender_spec() == tx_sender(raw.rlp@) && r.unwrap().message_spec()
            == tx_message(raw.rlp@),
{
    let n = raw.rlp.len();
    if n < 10 {
        return Err(VerificationError::MalformedEncoding);
    }
    if raw.rlp[0] != 1u8 {
        return Err(VerificationError::UnsupportedVersion);
    }
    let expected = checksum_prefix(&raw.rlp, n - 1);
    proof {
        assert(raw.rlp@.take(n as int - 1) =~= raw.rlp@.drop_last());
    }
    if raw.rlp[n - 1] != expected {
        return Err(VerificationError::BadSignature);
    }
    let b = &raw.rlp;
    let sender: u64 = b[1] as u64 + (b[2] as u64) * 0x100 + (b[3] as u64) * 0x1_0000 + (b[4]
        as u64) * 0x100_0000 + (b[5] as u64) * 0x1_0000_0000 + (b[6] as u64) * 0x100_0000_0000 + (
    b[7] as u64) * 0x1_0000_0000_0000 + (b[8] as u64) * 0x100_0000_0000_0000;
    proof {
        let sub = raw.rlp@.subrange(1, 9);
        assert(sub.len() == 8);
        assert(sub[0] == raw.rlp@[1]);
        assert(sub[1] == raw.rlp@[2]);
        assert(sub[2] == raw.rlp@[3]);
        assert(sub[3] == raw.rlp@[4]);
        assert(sub[4] == raw.rlp@[5]);
        assert(sub[5] == raw.rlp@[6]);
        assert(sub[6] == raw.rlp@[7]);
        assert(sub[7] == raw.rlp@[8]);
        assert(sender == le_bytes_u64(sub));
    }
    let mut message: Vec<u8> = Vec::new();
    let mut j: usize = 9;
    proof {
        assert(message@ =~= raw.rlp@.subrange(9, 9));
    }
    while j < n - 1
        invariant
            9 <= j <= n - 1,
            n == raw.rlp@.len(),
            n >= 10,
            message@ == raw.rlp@.subrange(9, j as int),
        decreases n - 1 - j,
    {
        message.push(raw.rlp[j]);
        proof {
            assert(message@ =~= raw.rlp@.subrange(9, j as int + 1));
        }
        j = j + 1;
    }
    proof {
        assert(message@ =~= tx_message(raw.rlp@));
    }
    Ok(AuthenticatedTx { sender, message })
}

} // verus!
