use vstd::prelude::*;

verus! {

/// Role tag of a view-change vote.
pub const PREFIX_VIEW_CHANGE: u8 = 0x01;
/// Role tag of a prepare vote.
pub const PREFIX_PBFT_PREPARE: u8 = 0x02;
/// Role tag of a commit vote.
pub const PREFIX_PBFT_COMMIT: u8 = 0x03;
/// Role tag of a macro-block proposal.
pub const PREFIX_PBFT_PROPOSAL: u8 = 0x04;

/// Length in bytes of a Blake2b block hash.
pub const HASH_SIZE: usize = 32;

/// A 32-byte Blake2b digest: the block that a vote refers to.
#[derive(Clone, Copy, Debug, PartialEq, Eq)]
pub struct Blake2bHash {
    pub bytes: [u8; 32],
}

impl View for Blake2bHash {
    type V = Seq<u8>;

    open spec fn view(&self) -> Seq<u8> {
        self.bytes@
    }
}

impl Blake2bHash {
    pub fn from_bytes(bytes: [u8; 32]) -> (r: Blake2bHash)
        ensures
            r.bytes == bytes,
    {
        Blake2bHash { bytes }
    }

    /// The hash's bytes, in order: its deterministic encoding.
    pub fn encode(&self) -> (r: Vec<u8>)
        ensures
            r@ == self@,
    {
        let mut out: Vec<u8> = Vec::new();
        let mut i: usize = 0;
        while i < HASH_SIZE
            invariant
                i <= HASH_SIZE,
                self@.len() == HASH_SIZE,
                out@ == self@.subrange(0, i as int),
            decreases HASH_SIZE - i,
        {
            out.push(self.bytes[i]);
            i = i + 1;
            assert(out@ =~= self@.subrange(0, i as int));
        }
        assert(out@ =~= self@);
        out
    }
}

/// A payload that validators sign, tagged with a one-byte role prefix.
///
/// The prefix is mixed into the signed bytes, so that a signature given for
/// one role is never valid for another, even where the payloads coincide.
pub trait Message {
    /// The role prefix of this kind of message.
    spec fn spec_prefix() -> u8;

    /// The deterministic encoding of the payload.
    spec fn spec_encoding(&self) -> Seq<u8>;

    fn prefix() -> (r: u8)
        ensures
            r == Self::spec_prefix(),
    ;

    fn encode(&self) -> (r: Vec<u8>)
        ensures
            r@ == self.spec_encoding(),
    ;
}

/// The bytes that a validator signs for `m`: its prefix, then its encoding.
pub open spec fn spec_signing_bytes<M: Message>(m: &M) -> Seq<u8> {
    seq![M::spec_prefix()] + m.spec_encoding()
}

/// Computes the domain-separated bytes that are signed for `m`.
pub fn signing_bytes<M: Message>(m: &M) -> (r: Vec<u8>)
    ensures
        r@ == spec_signing_bytes(m),
{
    let payload = m.encode();
    let mut out: Vec<u8> = Vec::new();
    out.push(M::prefix());
    let mut i: usize = 0;
    while i < payload.len()
        invariant
            i <= payload@.len(),
            out@ == seq![M::spec_prefix()] + payload@.subrange(0, i as int),
        decreases payload@.len() - i,
    {
        out.push(payload[i]);
        i = i + 1;
        assert(out@ =~= seq![M::spec_prefix()] + payload@.subrange(0, i as int));
    }
    assert(payload@.subrange(0, payload@.len() as int) =~= payload@);
    out
}

/// A prepare vote: "this block is the candidate".
#[derive(Clone, Copy, Debug, PartialEq, Eq)]
pub struct PbftPrepareMessage {
    pub block_hash: Blake2bHash,
}

impl Message for PbftPrepareMessage {
    open spec fn spec_prefix() -> u8 {
        PREFIX_PBFT_PREPARE
    }

    open spec fn spec_encoding(&self) -> Seq<u8> {
        self.block_hash@
    }

    fn prefix() -> (r: u8) {
        PREFIX_PBFT_PREPARE
    }

    fn encode(&self) -> (r: Vec<u8>) {
        self.block_hash.encode()
    }
}

/// A commit vote: "the candidate was seen prepared; finalize it".
#[derive(Clone, Copy, Debug, PartialEq, Eq)]
pub struct PbftCommitMessage {
    pub block_hash: Blake2bHash,
}

impl Message for PbftCommitMessage {
    open spec fn spec_prefix() -> u8 {
        PREFIX_PBFT_COMMIT
    }

    open spec fn spec_encoding(&self) -> Seq<u8> {
        self.block_hash@
    }

    fn prefix() -> (r: u8) {
        PREFIX_PBFT_COMMIT
    }

    fn encode(&self) -> (r: Vec<u8>) {
        self.block_hash.encode()
    }
}

/// A message together with the signature that one validator presents for
/// its signing bytes. Whether that signature is valid is not recorded.
pub struct SignedMessage<M> {
    pub message: M,
    /// The slot index of the validator that signed.
    pub signer_idx: u16,
    /// The signature, in the scheme's compressed encoding.
    pub signature: Vec<u8>,
}

pub type SignedPbftPrepareMessage = SignedMessage<PbftPrepareMessage>;

pub type SignedPbftCommitMessage = SignedMessage<PbftCommitMessage>;

/// Messages of one kind whose encodings differ are signed as different bytes.
pub proof fn lemma_distinct_payloads_sign_distinct_bytes<M: Message>(a: M, b: M)
    requires
        a.spec_encoding() != b.spec_encoding(),
    ensures
        spec_signing_bytes(&a) != spec_signing_bytes(&b),
{
    let sa = spec_signing_bytes(&a);
    let sb = spec_signing_bytes(&b);
    if sa == sb {
        assert(sa.subrange(1, sa.len() as int) =~= a.spec_encoding());
        assert(sb.subrange(1, sb.len() as int) =~= b.spec_encoding());
    }
}

/// A prepare vote for one block hash is never signed as the same bytes as a
/// prepare vote for another hash, whatever the two hashes hold.
pub proof fn lemma_prepare_votes_for_distinct_hashes_differ(a: PbftPrepareMessage, b: PbftPrepareMessage)
    requires
        a.block_hash@ != b.block_hash@,
    ensures
        spec_signing_bytes(&a) != spec_signing_bytes(&b),
{
    lemma_distinct_payloads_sign_distinct_bytes(a, b);
}

/// A commit vote for one block hash is never signed as the same bytes as a
/// commit vote for another hash.
pub proof fn lemma_commit_votes_for_distinct_hashes_differ(a: PbftCommitMessage, b: PbftCommitMessage)
    requires
        a.block_hash@ != b.block_hash@,
    ensures
        spec_signing_bytes(&a) != spec_signing_bytes(&b),
{
    lemma_distinct_payloads_sign_distinct_bytes(a, b);
}

/// A prepare vote and a commit vote are never signed as the same bytes, for
/// any two block hashes, the same one included.
pub proof fn lemma_phases_sign_distinct_bytes(p: PbftPrepareMessage, c: PbftCommitMessage)
    ensures
        spec_signing_bytes(&p) != spec_signing_bytes(&c),
{
    assert(spec_signing_bytes(&p)[0] == PREFIX_PBFT_PREPARE);
    assert(spec_signing_bytes(&c)[0] == PREFIX_PBFT_COMMIT);
}

} // verus!
