//! A biased coin and a three-way weighted sampler of moves.
//!
//! Probabilities are counted in parts of [`WHOLE`]: the number `p` stands for the
//! probability `p / WHOLE`. A draw is a number from zero to below `WHOLE`, each as
//! likely as any other, and stands for the point `draw / WHOLE` of the unit
//! interval. So what holds on exactly `p` of the draws has the probability
//! `p / WHOLE`. `WHOLE` is two to the power of 23: a uniform draw in single
//! precision takes as many values in the unit interval, and no more.
//!
//! Each sampler owns its generator, which is seeded when the sampler is made and
//! moves on with every draw.

use vstd::prelude::*;
use vstd::set_lib::{lemma_int_range, set_int_range};
use urandom::Random;
use urandom::rng::Xoshiro256;
use crate::game::Move;

verus! {

/// `urandom::Random`, the interface through which a generator is consumed. A value
/// of it is carried through unopened.
#[verifier::external_type_specification]
#[verifier::external_body]
#[verifier::reject_recursive_types(R)]
pub struct ExRandom<R: ?Sized>(Random<R>);

/// `urandom::rng::Xoshiro256`, the generator that the samplers own. A value of it
/// is carried through unopened.
#[verifier::external_type_specification]
#[verifier::external_body]
pub struct ExXoshiro256(Xoshiro256);

/// The number of equal parts into which the unit interval is divided: two to the
/// power of 23.
pub const WHOLE: i32 = 8_388_608;

/// A third of [`WHOLE`], rounded up.
pub const THIRD: i32 = 2_796_203;

/// Why a sampler could not be made.
#[derive(Clone, Copy, Debug, PartialEq, Eq, Structural)]
pub enum InvalidConfiguration {
    /// The probability of a coin is negative or more than the whole.
    Probability,
    /// The probability of `X` is negative or more than the whole.
    ProbabilityOfX,
    /// The probability of `Y` is negative or more than the whole.
    ProbabilityOfY,
    /// The probabilities of `X` and `Y` together are more than the whole.
    CombinedProbability,
}

impl InvalidConfiguration {
    /// The text that `message` returns.
    pub open spec fn spec_message(&self) -> Seq<char> {
        match self {
            InvalidConfiguration::Probability => "Probability must be between 0 and 1"@,
            InvalidConfiguration::ProbabilityOfX => "Probability of X must be between 0 and 1"@,
            InvalidConfiguration::ProbabilityOfY => "Probability of Y must be between 0 and 1"@,
            InvalidConfiguration::CombinedProbability =>
                "Combined probability of X and Y cannot exceed 1"@,
        }
    }

    /// What is wrong with the configuration, in words.
    pub fn message(&self) -> (text: &'static str)
        ensures
            text@ == self.spec_message(),
    {
        match self {
            InvalidConfiguration::Probability => "Probability must be between 0 and 1",
            InvalidConfiguration::ProbabilityOfX => "Probability of X must be between 0 and 1",
            InvalidConfiguration::ProbabilityOfY => "Probability of Y must be between 0 and 1",
            InvalidConfiguration::CombinedProbability =>
                "Combined probability of X and Y cannot exceed 1",
        }
    }
}

/// Whether a coin of the given probability shows true on the given draw: it does
/// on the draws below the probability.
pub open spec fn coin_outcome(draw: int, probability: int) -> bool {
    draw < probability
}

/// The move that the given draw selects: the draws below `prob_x` select `X`, the
/// next `prob_y` draws select `Y`, and all others select `Z`. A draw on the
/// boundary between two moves belongs to the later one.
pub open spec fn move_outcome(draw: int, prob_x: int, prob_y: int) -> Move {
    if draw < prob_x {
        Move::X
    } else if draw < prob_x + prob_y {
        Move::Y
    } else {
        Move::Z
    }
}

/// The error that a coin's probability meets, if any: it must be neither negative
/// nor more than the whole.
pub open spec fn coin_rejection(probability: int) -> Option<InvalidConfiguration> {
    if probability < 0 || probability > WHOLE {
        Some(InvalidConfiguration::Probability)
    } else {
        None
    }
}

/// The error that the weights of `X` and `Y` meet, if any. Each weight must be
/// neither negative nor more than the whole, and their sum must not be more than
/// the whole; the first of these that fails, in this order, names the error.
pub open spec fn weights_rejection(prob_x: int, prob_y: int) -> Option<InvalidConfiguration> {
    if prob_x < 0 || prob_x > WHOLE {
        Some(InvalidConfiguration::ProbabilityOfX)
    } else if prob_y < 0 || prob_y > WHOLE {
        Some(InvalidConfiguration::ProbabilityOfY)
    } else if prob_x + prob_y > WHOLE {
        Some(InvalidConfiguration::CombinedProbability)
    } else {
        None
    }
}

/// The draws on which a coin of the given probability shows true.
pub open spec fn draws_showing_true(probability: int) -> Set<int> {
    Set::new(|draw: int| 0 <= draw < WHOLE && coin_outcome(draw, probability))
}

/// The draws that select the given move.
pub open spec fn draws_selecting(chosen: Move, prob_x: int, prob_y: int) -> Set<int> {
    Set::new(|draw: int| 0 <= draw < WHOLE && move_outcome(draw, prob_x, prob_y) == chosen)
}

/// A coin of probability zero shows true on no draw, and a coin whose probability
/// is the whole shows true on every draw.
pub proof fn lemma_coin_boundaries(draw: int)
    requires
        0 <= draw < WHOLE,
    ensures
        !coin_outcome(draw, 0),
        coin_outcome(draw, WHOLE as int),
{
}

/// With no weight on `X` and none on `Y` every draw selects `Z`, and with the
/// whole weight on `X` every draw selects `X`.
pub proof fn lemma_move_boundaries(draw: int)
    requires
        0 <= draw < WHOLE,
    ensures
        move_outcome(draw, 0, 0) == Move::Z,
        move_outcome(draw, WHOLE as int, 0) == Move::X,
{
}

/// A coin shows true on exactly as many draws as its probability has parts.
pub proof fn lemma_coin_frequency(probability: int)
    requires
        0 <= probability <= WHOLE,
    ensures
        draws_showing_true(probability).finite(),
        draws_showing_true(probability).len() == probability,
{
    lemma_int_range(0, probability);
    assert(draws_showing_true(probability) =~= set_int_range(0, probability));
}

/// Each move is selected by exactly as many draws as its weight has parts, where
/// the weight of `Z` is what `X` and `Y` leave of the whole.
pub proof fn lemma_move_frequency(prob_x: int, prob_y: int)
    requires
        0 <= prob_x,
        0 <= prob_y,
        prob_x + prob_y <= WHOLE,
    ensures
        draws_selecting(Move::X, prob_x, prob_y).finite(),
        draws_selecting(Move::Y, prob_x, prob_y).finite(),
        draws_selecting(Move::Z, prob_x, prob_y).finite(),
        draws_selecting(Move::X, prob_x, prob_y).len() == prob_x,
        draws_selecting(Move::Y, prob_x, prob_y).len() == prob_y,
        draws_selecting(Move::Z, prob_x, prob_y).len() == WHOLE - prob_x - prob_y,
{
    let both = prob_x + prob_y;
    lemma_int_range(0, prob_x);
    lemma_int_range(prob_x, both);
    lemma_int_range(both, WHOLE as int);
    assert(draws_selecting(Move::X, prob_x, prob_y) =~= set_int_range(0, prob_x));
    assert(draws_selecting(Move::Y, prob_x, prob_y) =~= set_int_range(prob_x, both));
    assert(draws_selecting(Move::Z, prob_x, prob_y) =~= set_int_range(both, WHOLE as int));
}

/// With the default weights no move is selected by more than one draw more than
/// another: `X` and `Y` by a third of the draws rounded up, `Z` by a third
/// rounded down.
pub proof fn lemma_default_weights_are_even()
    ensures
        weights_rejection(THIRD as int, THIRD as int) is None,
        draws_selecting(Move::X, THIRD as int, THIRD as int).len() == THIRD,
        draws_selecting(Move::Y, THIRD as int, THIRD as int).len() == THIRD,
        draws_selecting(Move::Z, THIRD as int, THIRD as int).len() == THIRD - 1,
        3 * THIRD - 1 == WHOLE,
{
    lemma_move_frequency(THIRD as int, THIRD as int);
}

/// Makes a generator with `Xoshiro256::new`, which seeds it from the entropy of
/// the system and panics if the system gives none. Nothing is claimed of the
/// generator's state.
#[verifier::external_body]
fn seeded_source() -> Random<Xoshiro256> {
    Xoshiro256::new()
}

/// Draws with `Random::range` from the interval that starts at zero and ends
/// before `bound`. The claim is the one that `range` makes of every sample: it
/// lies in the interval. On an empty interval `range` panics, so `bound` must be
/// positive; on any other it returns without unwinding.
#[verifier::external_body]
fn draw_below(source: &mut Random<Xoshiro256>, bound: i32) -> (draw: i32)
    requires
        bound > 0,
    ensures
        0 <= draw < bound,
    no_unwind
{
    source.range(0..bound)
}

/// A coin that shows true with a fixed probability.
pub struct RandomBoolean {
    random: Random<Xoshiro256>,
    probability: i32,
}

impl RandomBoolean {
    #[verifier::type_invariant]
    spec fn valid(&self) -> bool {
        0 <= self.probability <= WHOLE
    }

    /// The probability of true, in parts of [`WHOLE`].
    pub closed spec fn probability(&self) -> int {
        self.probability as int
    }

    /// A coin that shows true with the probability `probability / WHOLE`, with a
    /// freshly seeded generator of its own. A probability that is negative or
    /// above the whole is rejected.
    pub fn new(probability: i32) -> (made: Result<RandomBoolean, InvalidConfiguration>)
        ensures
            match made {
                Ok(coin) => {
                    &&& coin_rejection(probability as int) is None
                    &&& coin.probability() == probability
                },
                Err(e) => coin_rejection(probability as int) == Some(e),
            },
    {
        if probability < 0 || probability > WHOLE {
            return Err(InvalidConfiguration::Probability);
        }
        Ok(RandomBoolean { random: seeded_source(), probability })
    }

    /// What the coin shows on the given draw.
    pub fn outcome_for(&self, draw: i32) -> (outcome: bool)
        ensures
            outcome == coin_outcome(draw as int, self.probability()),
    {
        draw < self.probability
    }

    /// Tosses the coin: takes one draw below [`WHOLE`] from the generator and
    /// shows what the coin shows on it. Which draw comes is not known, so a coin
    /// of probability zero never shows true, a coin whose probability is the whole
    /// always does, and any other may show either. The probability stays as it
    /// is.
    pub fn get(&mut self) -> (outcome: bool)
        ensures
            final(self).probability() == old(self).probability(),
            exists|draw: int|
                0 <= draw < WHOLE && outcome == #[trigger] coin_outcome(
                    draw,
                    old(self).probability(),
                ),
            old(self).probability() == 0 ==> !outcome,
            old(self).probability() == WHOLE ==> outcome,
    {
        proof {
            use_type_invariant(&*self);
        }
        let draw = draw_below(&mut self.random, WHOLE);
        let outcome = self.outcome_for(draw);
        assert(outcome == coin_outcome(draw as int, old(self).probability()));
        outcome
    }
}

/// A sampler of moves with fixed weights for `X` and `Y`; `Z` has what they leave
/// of the whole.
pub struct RandomMove {
    random: Random<Xoshiro256>,
    prob_x: i32,
    prob_y: i32,
}

impl RandomMove {
    #[verifier::type_invariant]
    spec fn valid(&self) -> bool {
        &&& 0 <= self.prob_x
        &&& 0 <= self.prob_y
        &&& self.prob_x + self.prob_y <= WHOLE
    }

    /// The probability of `X`, in parts of [`WHOLE`].
    pub closed spec fn prob_x(&self) -> int {
        self.prob_x as int
    }

    /// The probability of `Y`, in parts of [`WHOLE`].
    pub closed spec fn prob_y(&self) -> int {
        self.prob_y as int
    }

    /// A sampler that gives `X` with the probability `prob_x / WHOLE`, `Y` with the
    /// probability `prob_y / WHOLE` and `Z` otherwise, with a freshly seeded
    /// generator of its own. Weights that [`weights_rejection`] objects to are
    /// rejected with the error that it names.
    pub fn new(prob_x: i32, prob_y: i32) -> (made: Result<RandomMove, InvalidConfiguration>)
        ensures
            match made {
                Ok(sampler) => {
                    &&& weights_rejection(prob_x as int, prob_y as int) is None
                    &&& sampler.prob_x() == prob_x
                    &&& sampler.prob_y() == prob_y
                },
                Err(e) => weights_rejection(prob_x as int, prob_y as int) == Some(e),
            },
    {
        if prob_x < 0 || prob_x > WHOLE {
            return Err(InvalidConfiguration::ProbabilityOfX);
        }
        if prob_y < 0 || prob_y > WHOLE {
            return Err(InvalidConfiguration::ProbabilityOfY);
        }
        if prob_x + prob_y > WHOLE {
            return Err(InvalidConfiguration::CombinedProbability);
        }
        Ok(RandomMove { random: seeded_source(), prob_x, prob_y })
    }

    /// The move that the sampler gives on the given draw.
    pub fn outcome_for(&self, draw: i32) -> (outcome: Move)
        ensures
            outcome == move_outcome(draw as int, self.prob_x(), self.prob_y()),
    {
        proof {
            use_type_invariant(self);
        }
        if draw < self.prob_x {
            Move::X
        } else if draw < self.prob_x + self.prob_y {
            Move::Y
        } else {
            Move::Z
        }
    }

    /// Samples a move: takes one draw below [`WHOLE`] from the generator and gives
    /// the move that the draw selects. Which draw comes is not known, so a move
    /// of weight zero is never given, and any other may be. The weights stay as
    /// they are.
    pub fn get(&mut self) -> (outcome: Move)
        ensures
            final(self).prob_x() == old(self).prob_x(),
            final(self).prob_y() == old(self).prob_y(),
            exists|draw: int|
                0 <= draw < WHOLE && outcome == #[trigger] move_outcome(
                    draw,
                    old(self).prob_x(),
                    old(self).prob_y(),
                ),
            outcome == Move::X ==> old(self).prob_x() > 0,
            outcome == Move::Y ==> old(self).prob_y() > 0,
            outcome == Move::Z ==> old(self).prob_x() + old(self).prob_y() < WHOLE,
            old(self).prob_x() == 0 && old(self).prob_y() == 0 ==> outcome == Move::Z,
            old(self).prob_x() == WHOLE ==> outcome == Move::X,
            old(self).prob_y() == WHOLE ==> outcome == Move::Y,
    {
        proof {
            use_type_invariant(&*self);
        }
        let draw = draw_below(&mut self.random, WHOLE);
        let outcome = self.outcome_for(draw);
        assert(outcome == move_outcome(draw as int, old(self).prob_x(), old(self).prob_y()));
        outcome
    }
}

impl Default for RandomMove {
    /// The sampler with the weight [`THIRD`] for `X` and for `Y`, which leaves `Z`
    /// one part less.
    fn default() -> (sampler: RandomMove)
        ensures
            sampler.prob_x() == THIRD,
            sampler.prob_y() == THIRD,
    {
        RandomMove::new(THIRD, THIRD).unwrap()
    }
}

} // verus!
