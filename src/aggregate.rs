use vstd::prelude::*;
use core::marker::PhantomData;
use crate::message::{Message, SignedMessage};

verus! {

/// One contributor to an aggregate: a validator slot and its voting weight.
#[derive(Clone, Copy, Debug, PartialEq, Eq, Structural)]
pub struct Signer {
    pub idx: u16,
    pub weight: u16,
}

/// Whether validator `idx` is among `s`.
pub open spec fn has_signer(s: Seq<Signer>, idx: u16) -> bool {
    exists|i: int| 0 <= i < s.len() && s[i].idx == idx
}

/// No validator appears twice in `s`.
pub open spec fn distinct_signers(s: Seq<Signer>) -> bool {
    forall|i: int, j: int| 0 <= i < j < s.len() ==> s[i].idx != s[j].idx
}

/// The summed weight of the signers in `s`.
pub open spec fn total_weight(s: Seq<Signer>) -> nat
    decreases s.len(),
{
    if s.len() == 0 {
        0
    } else {
        total_weight(s.drop_last()) + s.last().weight as nat
    }
}

/// The summed weight of those signers in `s` that also appear in `other`.
pub open spec fn shared_weight(s: Seq<Signer>, other: Seq<Signer>) -> nat
    decreases s.len(),
{
    if s.len() == 0 {
        0
    } else {
        shared_weight(s.drop_last(), other) + if has_signer(other, s.last().idx) {
            s.last().weight as nat
        } else {
            0
        }
    }
}

/// What an aggregate proof holds, as values.
pub ghost struct AggregateState {
    pub signers: Seq<Signer>,
    pub signature: Option<Seq<u8>>,
}

impl AggregateState {
    /// The state of a proof that nobody has signed yet.
    pub open spec fn empty() -> AggregateState {
        AggregateState { signers: Seq::empty(), signature: None }
    }

    /// Whether a signature of validator `idx` is folded in, given the
    /// scheme's verdict on it.
    pub open spec fn accepts(self, idx: u16, signature_valid: bool) -> bool {
        !has_signer(self.signers, idx) && signature_valid
    }

    /// The state after an attempt to fold in a signature of validator `idx`
    /// with weight `weight`, where `combined` is the scheme's aggregate of
    /// the current aggregate with the new signature.
    pub open spec fn add(self, idx: u16, weight: u16, signature_valid: bool, combined: Seq<u8>) -> AggregateState {
        if self.accepts(idx, signature_valid) {
            AggregateState {
                signers: self.signers.push(Signer { idx, weight }),
                signature: Some(combined),
            }
        } else {
            self
        }
    }

    /// Whether the proof passes a check against `threshold`, given the
    /// scheme's verdict on the aggregate signature.
    pub open spec fn verifies(self, threshold: u16, aggregate_valid: bool) -> bool {
        total_weight(self.signers) > threshold && aggregate_valid
    }
}

/// The signatures of many validators over one message of kind `M`, folded
/// into one aggregate, with the set of validators that contributed.
///
/// Cryptography is not done here: the signature scheme's verdicts and its
/// aggregate are handed in by the caller, who computes them over
/// `signing_bytes` of the message and the signers' public keys.
pub struct AggregateProof<M> {
    pub signers: Vec<Signer>,
    /// The aggregate signature; `None` while no signature is folded in.
    pub signature: Option<Vec<u8>>,
    pub message: PhantomData<M>,
}

impl<M> View for AggregateProof<M> {
    type V = AggregateState;

    open spec fn view(&self) -> AggregateState {
        AggregateState {
            signers: self.signers@,
            signature: match self.signature {
                Some(v) => Some(v@),
                None => None,
            },
        }
    }
}

/// Scans `s` for validator `idx`.
pub fn contains_signer(s: &Vec<Signer>, idx: u16) -> (r: bool)
    ensures
        r == has_signer(s@, idx),
{
    let mut i: usize = 0;
    while i < s.len()
        invariant
            i <= s@.len(),
            forall|k: int| 0 <= k < i ==> s@[k].idx != idx,
        decreases s@.len() - i,
    {
        if s[i].idx == idx {
            return true;
        }
        i = i + 1;
    }
    false
}

/// The summed weight of the signers in `s`.
pub fn weight_of(s: &Vec<Signer>) -> (r: u128)
    ensures
        r == total_weight(s@),
{
    let mut sum: u128 = 0;
    let mut i: usize = 0;
    while i < s.len()
        invariant
            i <= s@.len(),
            sum == total_weight(s@.subrange(0, i as int)),
            sum <= (i as int) * 65535,
        decreases s@.len() - i,
    {
        let w = s[i].weight;
        assert(s@.subrange(0, i + 1 as int).drop_last() =~= s@.subrange(0, i as int));
        assert((i as int) * 65535 + 65535 < 0x1_0000_0000_0000_0000_0000 * 65535) by (nonlinear_arith)
            requires i <= usize::MAX, usize::MAX <= u64::MAX;
        sum = sum + w as u128;
        i = i + 1;
        assert(sum <= (i as int) * 65535) by (nonlinear_arith)
            requires sum <= (i - 1) as int * 65535 + 65535;
    }
    assert(s@.subrange(0, s@.len() as int) =~= s@);
    sum
}

/// The summed weight of those signers in `s` that also appear in `other`.
pub fn shared_weight_of(s: &Vec<Signer>, other: &Vec<Signer>) -> (r: u128)
    ensures
        r == shared_weight(s@, other@),
{
    let mut sum: u128 = 0;
    let mut i: usize = 0;
    while i < s.len()
        invariant
            i <= s@.len(),
            sum == shared_weight(s@.subrange(0, i as int), other@),
            sum <= (i as int) * 65535,
        decreases s@.len() - i,
    {
        let sg = s[i];
        assert(s@.subrange(0, i + 1 as int).drop_last() =~= s@.subrange(0, i as int));
        assert((i as int) * 65535 + 65535 < 0x1_0000_0000_0000_0000_0000 * 65535) by (nonlinear_arith)
            requires i <= usize::MAX, usize::MAX <= u64::MAX;
        if contains_signer(other, sg.idx) {
            sum = sum + sg.weight as u128;
        }
        i = i + 1;
        assert(sum <= (i as int) * 65535) by (nonlinear_arith)
            requires sum <= (i - 1) as int * 65535 + 65535;
    }
    assert(s@.subrange(0, s@.len() as int) =~= s@);
    sum
}

impl<M: Message> AggregateProof<M> {
    /// No validator is recorded twice.
    pub open spec fn wf(&self) -> bool {
        distinct_signers(self.signers@)
    }

    /// An empty proof: no signers and no aggregate yet.
    pub fn new() -> (r: Self)
        ensures
            r.wf(),
            r@ == AggregateState::empty(),
    {
        let r = AggregateProof { signers: Vec::new(), signature: None, message: PhantomData };
        assert(r@.signers =~= Seq::<Signer>::empty());
        r
    }

    /// Folds a validator's signed vote into the proof.
    ///
    /// `weight` is the signer's voting weight. `signature_valid` is the
    /// scheme's verdict on `signed.signature` over the signing bytes of
    /// `signed.message` under the signer's public key; `combined` is the
    /// scheme's aggregate of the current aggregate with `signed.signature`.
    /// A signer already present is refused whatever its signature, and so is
    /// an invalid signature; a refusal leaves the proof unchanged.
    pub fn add_signature(&mut self, weight: u16, signed: &SignedMessage<M>, signature_valid: bool, combined: Vec<u8>) -> (r: bool)
        requires
            old(self).wf(),
        ensures
            final(self).wf(),
            r == old(self)@.accepts(signed.signer_idx, signature_valid),
            final(self)@ == old(self)@.add(signed.signer_idx, weight, signature_valid, combined@),
    {
        if contains_signer(&self.signers, signed.signer_idx) {
            return false;
        }
        if !signature_valid {
            return false;
        }
        let ghost before = self.signers@;
        self.signers.push(Signer { idx: signed.signer_idx, weight });
        self.signature = Some(combined);
        assert forall|i: int, j: int| 0 <= i < j < self.signers@.len() implies self.signers@[i].idx != self.signers@[j].idx by {
            if j == before.len() {
                assert(!(0 <= i < before.len() && before[i].idx == signed.signer_idx));
            }
        }
        true
    }

    /// The summed weight of the signers folded in so far.
    pub fn signer_weight(&self) -> (r: u128)
        ensures
            r == total_weight(self@.signers),
    {
        weight_of(&self.signers)
    }

    /// Checks the proof: the signers' weight exceeds `threshold` and the
    /// aggregate is valid. `aggregate_valid` is the scheme's verdict on the
    /// aggregate signature over the message's signing bytes under the public
    /// keys of exactly the recorded signers.
    pub fn verify(&self, threshold: u16, aggregate_valid: bool) -> (r: bool)
        ensures
            r == self@.verifies(threshold, aggregate_valid),
    {
        weight_of(&self.signers) > threshold as u128 && aggregate_valid
    }

    /// Empties the proof for reuse in another round.
    pub fn clear(&mut self)
        ensures
            final(self).wf(),
            final(self)@ == AggregateState::empty(),
    {
        self.signers.clear();
        self.signature = None;
        assert(self@.signers =~= Seq::<Signer>::empty());
    }
}

} // verus!
