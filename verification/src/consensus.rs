//! Consensus engine: an append-only ledger of automated votes and the
//! approval ratio computed from it.
//!
//! Probabilities and thresholds are exact fractions between zero and one, so
//! the ratio test needs no rounding.

use vstd::prelude::*;

verus! {

/// Votes cast in one batch unless the caller says otherwise.
pub const DEFAULT_BATCH: usize = 10;

/// A fraction between zero and one.
#[derive(Clone, Copy, Debug)]
pub struct Fraction {
    numerator: u32,
    denominator: u32,
}

impl Fraction {
    /// The numerator.
    pub closed spec fn num(&self) -> nat {
        self.numerator as nat
    }

    /// The denominator.
    pub closed spec fn den(&self) -> nat {
        self.denominator as nat
    }

    /// The denominator is positive and the value does not exceed one.
    pub open spec fn wf(&self) -> bool {
        0 < self.den() && self.num() <= self.den()
    }

    /// The fraction `numerator / denominator`, if that lies between zero and one.
    pub fn new(numerator: u32, denominator: u32) -> (fraction: Option<Fraction>)
        ensures
            fraction is Some <==> 0 < denominator && numerator <= denominator,
            fraction matches Some(f) ==> f.wf() && f.num() == numerator && f.den() == denominator,
    {
        if denominator == 0 || numerator > denominator {
            None
        } else {
            Some(Fraction { numerator, denominator })
        }
    }

    /// Three quarters: the default approval probability and threshold.
    pub fn three_quarters() -> (fraction: Fraction)
        ensures
            fraction.wf(),
            fraction.num() == 3,
            fraction.den() == 4,
    {
        Fraction { numerator: 3, denominator: 4 }
    }

    /// The numerator.
    pub fn numerator(&self) -> (n: u32)
        ensures
            n == self.num(),
    {
        self.numerator
    }

    /// The denominator.
    pub fn denominator(&self) -> (d: u32)
        ensures
            d == self.den(),
    {
        self.denominator
    }
}

/// Why the consensus ratio could not be computed.
#[derive(Clone, Copy, Debug, PartialEq, Eq, Structural)]
pub enum ConsensusError {
    /// No vote has been cast yet.
    NoVotes,
}

/// Every vote is zero or one.
pub open spec fn votes_valid(votes: Seq<u8>) -> bool {
    forall|i: int| 0 <= i < votes.len() ==> #[trigger] votes[i] <= 1
}

/// Sum of the votes.
pub open spec fn vote_sum(votes: Seq<u8>) -> nat
    decreases votes.len(),
{
    if votes.len() == 0 {
        0
    } else {
        vote_sum(votes.drop_last()) + votes.last() as nat
    }
}

/// The share of approvals is strictly greater than `num / den`.
pub open spec fn ratio_exceeds(votes: Seq<u8>, num: nat, den: nat) -> bool {
    vote_sum(votes) * den > num * votes.len()
}

/// The vote that stands for an approval or a rejection.
pub open spec fn vote_of(approve: bool) -> u8 {
    if approve {
        1
    } else {
        0
    }
}

/// What is certain of the votes that `after` holds beyond `before`, cast
/// with the given probability: with probability one each of them approves,
/// with probability zero none does.
pub open spec fn certain_votes(before: Seq<u8>, after: Seq<u8>, probability: Fraction) -> bool {
    &&& probability.num() == probability.den() ==> forall|i: int|
        before.len() <= i < after.len() ==> #[trigger] after[i] == 1
    &&& probability.num() == 0 ==> forall|i: int|
        before.len() <= i < after.len() ==> #[trigger] after[i] == 0
}

/// Votes that all equal `value` sum to `value` times their number.
proof fn lemma_sum_uniform(votes: Seq<u8>, value: u8)
    requires
        forall|i: int| 0 <= i < votes.len() ==> #[trigger] votes[i] == value,
    ensures
        vote_sum(votes) == value * votes.len(),
    decreases votes.len(),
{
    if votes.len() > 0 {
        lemma_sum_uniform(votes.drop_last(), value);
        assert(value * votes.len() == value * (votes.len() - 1) + value) by (nonlinear_arith);
    }
}

/// A ledger of approvals only reaches consensus for every threshold below one.
pub proof fn law_unanimous_approval(votes: Seq<u8>, threshold: Fraction)
    requires
        votes.len() > 0,
        forall|i: int| 0 <= i < votes.len() ==> #[trigger] votes[i] == 1,
        threshold.wf(),
        threshold.num() < threshold.den(),
    ensures
        ratio_exceeds(votes, threshold.num(), threshold.den()),
{
    lemma_sum_uniform(votes, 1);
    let n = votes.len();
    let num = threshold.num();
    let den = threshold.den();
    assert(n * den > num * n) by (nonlinear_arith)
        requires
            n > 0,
            num < den,
    ;
}

/// A ledger of rejections only never reaches consensus.
pub proof fn law_unanimous_rejection(votes: Seq<u8>, threshold: Fraction)
    requires
        forall|i: int| 0 <= i < votes.len() ==> #[trigger] votes[i] == 0,
        threshold.wf(),
    ensures
        !ratio_exceeds(votes, threshold.num(), threshold.den()),
{
    lemma_sum_uniform(votes, 0);
    let n = votes.len();
    let num = threshold.num();
    assert(num * n >= 0) by (nonlinear_arith);
    assert(0 * threshold.den() == 0);
}

/// Trusted: `rand::random_ratio`. The draw is random; the contract states
/// the two cases in which the outcome is fixed: a probability of one always
/// approves, a probability of zero never does.
#[verifier::external_body]
fn draw_approval(numerator: u32, denominator: u32) -> (approve: bool)
    requires
        0 < denominator,
        numerator <= denominator,
    ensures
        numerator == denominator ==> approve,
        numerator == 0 ==> !approve,
{
    rand::random_ratio(numerator, denominator)
}

/// The vote ledger and its operations.
pub struct ConsensusEngine {
    votes: Vec<u8>,
}

impl View for ConsensusEngine {
    type V = Seq<u8>;

    closed spec fn view(&self) -> Seq<u8> {
        self.votes@
    }
}

impl ConsensusEngine {
    /// Every recorded vote is zero or one.
    pub open spec fn wf(&self) -> bool {
        votes_valid(self@)
    }

    /// An engine with an empty ledger.
    pub fn new() -> (engine: Self)
        ensures
            engine.wf(),
            engine@ == Seq::<u8>::empty(),
    {
        ConsensusEngine { votes: Vec::new() }
    }

    /// Appends one vote.
    pub fn record_vote(&mut self, approve: bool)
        requires
            old(self).wf(),
        ensures
            final(self).wf(),
            final(self)@ == old(self)@.push(vote_of(approve)),
    {
        let vote: u8 = if approve {
            1
        } else {
            0
        };
        self.votes.push(vote);
    }

    /// Appends the votes of an outside vote source, in order.
    pub fn record_votes(&mut self, approvals: &Vec<bool>)
        requires
            old(self).wf(),
        ensures
            final(self).wf(),
            final(self)@ == old(self)@ + approvals@.map_values(|a: bool| vote_of(a)),
    {
        let ghost cast = approvals@.map_values(|a: bool| vote_of(a));
        let mut i: usize = 0;
        while i < approvals.len()
            invariant
                i <= approvals.len(),
                self.wf(),
                cast == approvals@.map_values(|a: bool| vote_of(a)),
                self@ == old(self)@ + cast.take(i as int),
            decreases approvals.len() - i,
        {
            self.record_vote(approvals[i]);
            assert((old(self)@ + cast.take(i as int)).push(cast[i as int]) =~= old(self)@
                + cast.take(i + 1));
            i += 1;
        }
        assert(cast.take(cast.len() as int) =~= cast);
    }

    /// Appends `n` automated votes, each approving with the given
    /// probability. Earlier votes stay as they are. With probability one
    /// every new vote approves, with probability zero none does.
    pub fn cast_votes(&mut self, n: usize, probability: Fraction)
        requires
            old(self).wf(),
            probability.wf(),
        ensures
            final(self).wf(),
            final(self)@.len() == old(self)@.len() + n,
            final(self)@.take(old(self)@.len() as int) == old(self)@,
            probability.num() == probability.den() ==> forall|i: int|
                old(self)@.len() <= i < final(self)@.len() ==> #[trigger] final(self)@[i] == 1,
            probability.num() == 0 ==> forall|i: int|
                old(self)@.len() <= i < final(self)@.len() ==> #[trigger] final(self)@[i] == 0,
    {
        let numerator = probability.numerator();
        let denominator = probability.denominator();
        let mut cast: usize = 0;
        while cast < n
            invariant
                cast <= n,
                self.wf(),
                0 < denominator,
                numerator <= denominator,
                numerator == probability.num(),
                denominator == probability.den(),
                self@.len() == old(self)@.len() + cast,
                self@.take(old(self)@.len() as int) == old(self)@,
                numerator == denominator ==> forall|i: int|
                    old(self)@.len() <= i < self@.len() ==> #[trigger] self@[i] == 1,
                numerator == 0 ==> forall|i: int|
                    old(self)@.len() <= i < self@.len() ==> #[trigger] self@[i] == 0,
            decreases n - cast,
        {
            let ghost before = self@;
            let approve = draw_approval(numerator, denominator);
            self.record_vote(approve);
            assert(self@.take(old(self)@.len() as int) =~= before.take(old(self)@.len() as int));
            cast += 1;
        }
    }

    /// Number of votes in the ledger.
    pub fn vote_count(&self) -> (count: usize)
        ensures
            count == self@.len(),
    {
        self.votes.len()
    }

    /// Number of approvals in the ledger.
    pub fn approvals(&self) -> (sum: usize)
        requires
            self.wf(),
        ensures
            sum == vote_sum(self@),
    {
        let mut sum: usize = 0;
        let mut i: usize = 0;
        while i < self.votes.len()
            invariant
                i <= self.votes.len(),
                self.wf(),
                sum == vote_sum(self@.take(i as int)),
                sum <= i,
            decreases self.votes.len() - i,
        {
            assert(self@.take(i + 1).drop_last() =~= self@.take(i as int));
            assert(self@[i as int] <= 1);
            sum += self.votes[i] as usize;
            i += 1;
        }
        assert(self@.take(self@.len() as int) =~= self@);
        sum
    }

    /// Tells whether the share of approvals among all votes cast so far is
    /// strictly greater than the threshold. Fails on an empty ledger.
    pub fn consensus_reached(&self, threshold: Fraction) -> (result: Result<bool, ConsensusError>)
        requires
            self.wf(),
            threshold.wf(),
        ensures
            match result {
                Ok(reached) => self@.len() > 0 && reached == ratio_exceeds(
                    self@,
                    threshold.num(),
                    threshold.den(),
                ),
                Err(error) => self@.len() == 0 && error == ConsensusError::NoVotes,
            },
    {
        if self.votes.len() == 0 {
            return Err(ConsensusError::NoVotes);
        }
        let sum = self.approvals() as u128;
        let count = self.votes.len() as u128;
        let num = threshold.numerator() as u128;
        let den = threshold.denominator() as u128;
        assert(sum * den <= 0xffff_ffff_ffff_ffff * 0xffff_ffff) by (nonlinear_arith)
            requires
                sum <= 0xffff_ffff_ffff_ffff,
                den <= 0xffff_ffff,
        ;
        assert(num * count <= 0xffff_ffff * 0xffff_ffff_ffff_ffff) by (nonlinear_arith)
            requires
                count <= 0xffff_ffff_ffff_ffff,
                num <= 0xffff_ffff,
        ;
        Ok(sum * den > num * count)
    }

    /// Casts a fresh batch and reports whether the ledger as a whole now
    /// exceeds the threshold. A ledger that is still empty has no consensus.
    pub fn governance_vote(&mut self, batch: usize, probability: Fraction, threshold: Fraction) -> (reached:
        bool)
        requires
            old(self).wf(),
            probability.wf(),
            threshold.wf(),
        ensures
            final(self).wf(),
            final(self)@.len() == old(self)@.len() + batch,
            final(self)@.take(old(self)@.len() as int) == old(self)@,
            reached == (final(self)@.len() > 0 && ratio_exceeds(
                final(self)@,
                threshold.num(),
                threshold.den(),
            )),
            probability.num() == probability.den() ==> forall|i: int|
                old(self)@.len() <= i < final(self)@.len() ==> #[trigger] final(self)@[i] == 1,
            probability.num() == 0 ==> forall|i: int|
                old(self)@.len() <= i < final(self)@.len() ==> #[trigger] final(self)@[i] == 0,
    {
        self.cast_votes(batch, probability);
        match self.consensus_reached(threshold) {
            Ok(reached) => reached,
            Err(_) => false,
        }
    }
}

} // verus!
