//! The move alphabet, its symmetry, and the record of one completed round.

use vstd::prelude::*;
use core::cmp::Ordering;

verus! {

/// One of the three moves a participant can make in a round. The moves are ordered
/// as they are listed.
#[derive(Clone, Copy, Debug, PartialEq, Eq, Structural, Ord, Hash)]
pub enum Move {
    X,
    Y,
    Z,
}

impl Move {
    /// The place of the move in the order of the moves.
    pub open spec fn rank(&self) -> int {
        match self {
            Move::X => 0,
            Move::Y => 1,
            Move::Z => 2,
        }
    }

    /// The text that `to_string` returns: the variant's name.
    pub open spec fn spec_to_string(&self) -> Seq<char> {
        match self {
            Move::X => "X"@,
            Move::Y => "Y"@,
            Move::Z => "Z"@,
        }
    }

    /// The variant's name.
    pub fn to_string(&self) -> (text: String)
        ensures
            text@ == self.spec_to_string(),
    {
        match self {
            Move::X => "X".to_owned(),
            Move::Y => "Y".to_owned(),
            Move::Z => "Z".to_owned(),
        }
    }
}

impl PartialOrd for Move {
    fn partial_cmp(&self, other: &Move) -> (order: Option<Ordering>) {
        match (self, other) {
            (Move::X, Move::X) | (Move::Y, Move::Y) | (Move::Z, Move::Z) => Some(Ordering::Equal),
            (Move::X, Move::Y) | (Move::X, Move::Z) | (Move::Y, Move::Z) => Some(Ordering::Less),
            (Move::Y, Move::X) | (Move::Z, Move::X) | (Move::Z, Move::Y) => Some(
                Ordering::Greater,
            ),
        }
    }
}

impl vstd::std_specs::cmp::PartialOrdSpecImpl for Move {
    open spec fn obeys_partial_cmp_spec() -> bool {
        true
    }

    /// Moves compare as their ranks do.
    open spec fn partial_cmp_spec(&self, other: &Move) -> Option<Ordering> {
        if self.rank() < other.rank() {
            Some(Ordering::Less)
        } else if self.rank() == other.rank() {
            Some(Ordering::Equal)
        } else {
            Some(Ordering::Greater)
        }
    }
}

/// Something that has an opposite.
pub trait Opposite: Sized {
    /// The value that `opposite` returns. An implementation that proves nothing
    /// of its opposite leaves this as it is.
    open spec fn spec_opposite(self) -> Self {
        arbitrary()
    }

    /// The opposite of `self`.
    fn opposite(self) -> (other: Self)
        ensures
            other == self.spec_opposite(),
    ;
}

impl Opposite for Move {
    /// `X` and `Y` are each other's opposite, and `Z` is its own.
    open spec fn spec_opposite(self) -> Move {
        match self {
            Move::X => Move::Y,
            Move::Y => Move::X,
            Move::Z => Move::Z,
        }
    }

    fn opposite(self) -> (other: Move) {
        match self {
            Move::X => Move::Y,
            Move::Y => Move::X,
            Move::Z => Move::Z,
        }
    }
}

/// The opposite of the opposite of a move is the move itself.
pub proof fn lemma_opposite_is_involution(m: Move)
    ensures
        m.spec_opposite().spec_opposite() == m,
{
}

/// Taking the opposite permutes the moves: different moves have different
/// opposites, and every move is the opposite of some move.
pub proof fn lemma_opposite_is_permutation(a: Move, b: Move)
    ensures
        a.spec_opposite() == b.spec_opposite() ==> a == b,
        exists|m: Move| #[trigger] m.spec_opposite() == a,
{
    assert(a.spec_opposite().spec_opposite() == a);
}

/// The outcome of one completed round: a participant's move and the opponent's.
/// Any two moves make a round, and two rounds are equal when both moves are.
#[derive(Clone, Copy, Debug, PartialEq, Eq, Structural)]
pub struct Round {
    /// The move that the participant made.
    pub my_move: Move,
    /// The move that the opponent made.
    pub opponent_move: Move,
}

impl Round {
    /// The round in which the participant played `my_move` against `opponent_move`.
    pub fn of(my_move: Move, opponent_move: Move) -> (round: Round)
        ensures
            round.my_move == my_move,
            round.opponent_move == opponent_move,
    {
        Round { my_move, opponent_move }
    }
}

} // verus!
