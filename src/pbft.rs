use vstd::prelude::*;
use crate::aggregate::{AggregateProof, AggregateState, Signer, has_signer, total_weight, shared_weight, shared_weight_of};
use crate::message::{
    Blake2bHash, PbftCommitMessage, PbftPrepareMessage, SignedPbftCommitMessage,
    SignedPbftPrepareMessage, signing_bytes, spec_signing_bytes,
};

verus! {

/// The full two-phase check: both phases reach `threshold` with valid
/// aggregates, and the weight of the validators that signed both phases
/// exceeds `threshold` too.
pub open spec fn pbft_verifies(
    prepare: AggregateState,
    commit: AggregateState,
    threshold: u16,
    prepare_valid: bool,
    commit_valid: bool,
) -> bool {
    prepare.verifies(threshold, prepare_valid) && commit.verifies(threshold, commit_valid)
        && shared_weight(prepare.signers, commit.signers) > threshold
}

/// A prepare certificate and a commit certificate for one block.
pub struct PbftProof {
    pub prepare: AggregateProof<PbftPrepareMessage>,
    pub commit: AggregateProof<PbftCommitMessage>,
}

impl PbftProof {
    pub open spec fn wf(&self) -> bool {
        self.prepare.wf() && self.commit.wf()
    }

    /// A proof with both phases empty.
    pub fn new() -> (r: PbftProof)
        ensures
            r.wf(),
            r.prepare@ == AggregateState::empty(),
            r.commit@ == AggregateState::empty(),
    {
        PbftProof { prepare: AggregateProof::new(), commit: AggregateProof::new() }
    }

    /// The bytes that a prepare vote for `block_hash` signs.
    pub fn prepare_signing_bytes(block_hash: Blake2bHash) -> (r: Vec<u8>)
        ensures
            r@ == spec_signing_bytes(&PbftPrepareMessage { block_hash }),
    {
        signing_bytes(&PbftPrepareMessage { block_hash })
    }

    /// The bytes that a commit vote for `block_hash` signs.
    pub fn commit_signing_bytes(block_hash: Blake2bHash) -> (r: Vec<u8>)
        ensures
            r@ == spec_signing_bytes(&PbftCommitMessage { block_hash }),
    {
        signing_bytes(&PbftCommitMessage { block_hash })
    }

    /// Checks the prepare phase alone: its signers' weight exceeds
    /// `threshold` and `prepare_valid`, the scheme's verdict on the prepare
    /// aggregate over the prepare signing bytes of the block, holds.
    pub fn verify_prepare(&self, threshold: u16, prepare_valid: bool) -> (r: bool)
        ensures
            r == self.prepare@.verifies(threshold, prepare_valid),
    {
        self.prepare.verify(threshold, prepare_valid)
    }

    /// Checks both phases, and that the validators who signed both carry
    /// more than `threshold` weight. `prepare_valid` and `commit_valid` are
    /// the scheme's verdicts on the two aggregates over the block's prepare
    /// and commit signing bytes.
    pub fn verify(&self, threshold: u16, prepare_valid: bool, commit_valid: bool) -> (r: bool)
        ensures
            r == pbft_verifies(self.prepare@, self.commit@, threshold, prepare_valid, commit_valid),
    {
        self.prepare.verify(threshold, prepare_valid) && self.commit.verify(threshold, commit_valid)
            && shared_weight_of(&self.prepare.signers, &self.commit.signers) > threshold as u128
    }

    /// Folds a prepare vote into the prepare phase; the commit phase is kept.
    pub fn add_prepare_signature(
        &mut self,
        slots: u16,
        prepare: &SignedPbftPrepareMessage,
        signature_valid: bool,
        combined: Vec<u8>,
    ) -> (r: bool)
        requires
            old(self).wf(),
        ensures
            final(self).wf(),
            r == old(self).prepare@.accepts(prepare.signer_idx, signature_valid),
            final(self).prepare@ == old(self).prepare@.add(prepare.signer_idx, slots, signature_valid, combined@),
            final(self).commit@ == old(self).commit@,
    {
        self.prepare.add_signature(slots, prepare, signature_valid, combined)
    }

    /// Folds a commit vote into the commit phase; the prepare phase is kept.
    pub fn add_commit_signature(
        &mut self,
        slots: u16,
        commit: &SignedPbftCommitMessage,
        signature_valid: bool,
        combined: Vec<u8>,
    ) -> (r: bool)
        requires
            old(self).wf(),
        ensures
            final(self).wf(),
            r == old(self).commit@.accepts(commit.signer_idx, signature_valid),
            final(self).commit@ == old(self).commit@.add(commit.signer_idx, slots, signature_valid, combined@),
            final(self).prepare@ == old(self).prepare@,
    {
        self.commit.add_signature(slots, commit, signature_valid, combined)
    }

    /// Empties both phases.
    pub fn clear(&mut self)
        ensures
            final(self).wf(),
            final(self).prepare@ == AggregateState::empty(),
            final(self).commit@ == AggregateState::empty(),
    {
        self.prepare.clear();
        self.commit.clear();
    }
}

/// One attempt to fold a signature into an aggregate, with the scheme's
/// verdict and aggregate for it.
pub ghost struct Contribution {
    pub idx: u16,
    pub weight: u16,
    pub signature_valid: bool,
    pub combined: Seq<u8>,
}

/// The state reached from `st` by the attempts `cs`, in order.
pub open spec fn replay(st: AggregateState, cs: Seq<Contribution>) -> AggregateState
    decreases cs.len(),
{
    if cs.len() == 0 {
        st
    } else {
        let c = cs.last();
        replay(st, cs.drop_last()).add(c.idx, c.weight, c.signature_valid, c.combined)
    }
}

/// Once a validator's signature is folded in, any later signature of the
/// same validator, with the same bytes or others, is refused and changes
/// nothing: not the signers, their weight, nor the aggregate.
pub proof fn lemma_no_double_counting(
    st: AggregateState,
    idx: u16,
    w1: u16,
    v1: bool,
    c1: Seq<u8>,
    w2: u16,
    v2: bool,
    c2: Seq<u8>,
)
    requires
        st.accepts(idx, v1),
    ensures
        !st.add(idx, w1, v1, c1).accepts(idx, v2),
        st.add(idx, w1, v1, c1).add(idx, w2, v2, c2) == st.add(idx, w1, v1, c1),
{
    let s1 = st.add(idx, w1, v1, c1);
    assert(s1.signers[st.signers.len() as int].idx == idx);
}

/// A proof that passes at `threshold` passes at every lower threshold.
pub proof fn lemma_threshold_monotonic(st: AggregateState, threshold: u16, lower: u16, aggregate_valid: bool)
    requires
        st.verifies(threshold, aggregate_valid),
        lower < threshold,
    ensures
        st.verifies(lower, aggregate_valid),
{
}

/// A two-phase proof that passes at `threshold` passes at every lower one.
pub proof fn lemma_pbft_threshold_monotonic(
    prepare: AggregateState,
    commit: AggregateState,
    threshold: u16,
    lower: u16,
    prepare_valid: bool,
    commit_valid: bool,
)
    requires
        pbft_verifies(prepare, commit, threshold, prepare_valid, commit_valid),
        lower < threshold,
    ensures
        pbft_verifies(prepare, commit, lower, prepare_valid, commit_valid),
{
}

/// Folding in a signature, accepted or not, never lowers the total weight.
pub proof fn lemma_adding_never_decreases_weight(
    st: AggregateState,
    idx: u16,
    weight: u16,
    signature_valid: bool,
    combined: Seq<u8>,
)
    ensures
        total_weight(st.add(idx, weight, signature_valid, combined).signers) >= total_weight(st.signers),
{
    if st.accepts(idx, signature_valid) {
        let s = st.signers.push(Signer { idx, weight });
        assert(s.drop_last() =~= st.signers);
    }
}

/// Signers of `s` that `other` lacks contribute no shared weight.
proof fn lemma_disjoint_shares_nothing(s: Seq<Signer>, other: Seq<Signer>)
    requires
        forall|k: int| 0 <= k < s.len() ==> !has_signer(other, #[trigger] s[k].idx),
    ensures
        shared_weight(s, other) == 0,
    decreases s.len(),
{
    if s.len() > 0 {
        let t = s.drop_last();
        assert forall|k: int| 0 <= k < t.len() implies !has_signer(other, #[trigger] t[k].idx) by {
            assert(t[k] == s[k]);
        }
        lemma_disjoint_shares_nothing(t, other);
        assert(!has_signer(other, s[s.len() - 1].idx));
    }
}

/// Safety: where no validator signed both phases, the two-phase check
/// fails at every threshold, whatever weight each phase has on its own and
/// whatever the scheme says of the aggregates. So two disjoint coalitions,
/// one preparing and the other committing, never produce a certificate.
pub proof fn lemma_disjoint_phases_never_verify(
    prepare: AggregateState,
    commit: AggregateState,
    threshold: u16,
    prepare_valid: bool,
    commit_valid: bool,
)
    requires
        forall|k: int| 0 <= k < prepare.signers.len() ==> !has_signer(commit.signers, #[trigger] prepare.signers[k].idx),
    ensures
        !pbft_verifies(prepare, commit, threshold, prepare_valid, commit_valid),
{
    lemma_disjoint_shares_nothing(prepare.signers, commit.signers);
}

/// A cleared proof and a new one, given the same attempts in the same
/// order, end in the same state: the same signers and the same aggregate.
pub proof fn lemma_clear_then_replay(cleared: AggregateState, fresh: AggregateState, cs: Seq<Contribution>)
    requires
        cleared == AggregateState::empty(),
        fresh == AggregateState::empty(),
    ensures
        replay(cleared, cs) == replay(fresh, cs),
{
}

/// Signers stay: whoever is in `st` is in the state after one more attempt.
proof fn lemma_add_keeps_signer(st: AggregateState, c: Contribution, idx: u16)
    requires
        has_signer(st.signers, idx),
    ensures
        has_signer(st.add(c.idx, c.weight, c.signature_valid, c.combined).signers, idx),
{
    if st.accepts(c.idx, c.signature_valid) {
        let k = choose|k: int| 0 <= k < st.signers.len() && st.signers[k].idx == idx;
        assert(st.add(c.idx, c.weight, c.signature_valid, c.combined).signers[k].idx == idx);
    }
}

/// After a run of attempts, the signer of every attempt with a valid
/// signature is present.
proof fn lemma_replay_covers_valid(st: AggregateState, cs: Seq<Contribution>, j: int)
    requires
        0 <= j < cs.len(),
        cs[j].signature_valid,
    ensures
        has_signer(replay(st, cs).signers, cs[j].idx),
    decreases cs.len(),
{
    let prev = replay(st, cs.drop_last());
    let c = cs.last();
    if j < cs.len() - 1 {
        assert(cs.drop_last()[j] == cs[j]);
        lemma_replay_covers_valid(st, cs.drop_last(), j);
        lemma_add_keeps_signer(prev, c, cs[j].idx);
    } else {
        let next = prev.add(c.idx, c.weight, c.signature_valid, c.combined);
        if prev.accepts(c.idx, c.signature_valid) {
            assert(next.signers[prev.signers.len() as int].idx == c.idx);
        }
    }
}

/// Attempts that `st` refuses one by one leave it as it is.
proof fn lemma_replay_refused(st: AggregateState, cs: Seq<Contribution>)
    requires
        forall|j: int| 0 <= j < cs.len() ==> !st.accepts(#[trigger] cs[j].idx, cs[j].signature_valid),
    ensures
        replay(st, cs) == st,
    decreases cs.len(),
{
    if cs.len() > 0 {
        let t = cs.drop_last();
        assert forall|j: int| 0 <= j < t.len() implies !st.accepts(#[trigger] t[j].idx, t[j].signature_valid) by {
            assert(t[j] == cs[j]);
        }
        lemma_replay_refused(st, t);
        assert(!st.accepts(cs[cs.len() - 1].idx, cs[cs.len() - 1].signature_valid));
    }
}

/// Idempotence: repeating a run of attempts on the state it produced
/// changes nothing, neither the signers nor the aggregate.
pub proof fn lemma_replay_twice(st: AggregateState, cs: Seq<Contribution>)
    ensures
        replay(replay(st, cs), cs) == replay(st, cs),
{
    let once = replay(st, cs);
    assert forall|j: int| 0 <= j < cs.len() implies !once.accepts(#[trigger] cs[j].idx, cs[j].signature_valid) by {
        if cs[j].signature_valid {
            lemma_replay_covers_valid(st, cs, j);
        }
    }
    lemma_replay_refused(once, cs);
}

} // verus!
