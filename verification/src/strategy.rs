//! What a strategy must offer, and a strategy together with its owner.

use vstd::prelude::*;
use vstd::string::StringExecFns;
use crate::game::{Move, Round};
use crate::participant::{same_text, Participant};

verus! {

/// Something that has a name.
pub trait Named {
    /// The name, which depends on the value alone. An implementation that proves
    /// nothing of its name leaves this as it is.
    open spec fn spec_name(&self) -> Seq<char> {
        arbitrary()
    }

    /// The name of `self`.
    fn name(&self) -> (name: &str)
        ensures
            name@ == self.spec_name(),
    ;
}

impl Named for Move {
    open spec fn spec_name(&self) -> Seq<char> {
        "Move"@
    }

    fn name(&self) -> (name: &str) {
        "Move"
    }
}

/// A decision policy for the game.
pub trait Strategy: Named + Sync {
    /// Whether the strategy, as it is, may choose `chosen` when `favoured_move` is
    /// favoured. An implementation that promises nothing of its choice leaves this
    /// as it is: it may choose any move.
    open spec fn may_choose(&self, favoured_move: Move, chosen: Move) -> bool {
        true
    }

    /// Whether the strategy, as it is, has taken note of `round` and of the move
    /// that was favoured in it. An implementation that promises nothing of what
    /// it keeps leaves this as it is.
    open spec fn has_handled(&self, round: Round, favoured_move: Move) -> bool {
        true
    }

    /// Chooses the move for the coming round, given the move that the opponent or
    /// the conditions of the game are believed to favour: one of the moves that
    /// the strategy may choose as it was when it was asked.
    fn play_for_favoured_move(&mut self, favoured_move: Move) -> (chosen: Move)
        ensures
            old(self).may_choose(favoured_move, chosen),
    ;

    /// Takes note of a completed round and of the move that was favoured in it,
    /// and leaves the strategy as one that has handled them.
    fn handle_last_round(&mut self, round: Round, favoured_move: Move)
        ensures
            final(self).has_handled(round, favoured_move),
    ;
}

impl<S: Named + ?Sized> Named for Box<S> {
    open spec fn spec_name(&self) -> Seq<char> {
        (**self).spec_name()
    }

    fn name(&self) -> (name: &str) {
        (**self).name()
    }
}

/// A boxed strategy is the strategy in the box: it may choose what that one may
/// choose, and has handled what that one has handled.
impl<S: Strategy + ?Sized> Strategy for Box<S> {
    open spec fn may_choose(&self, favoured_move: Move, chosen: Move) -> bool {
        (**self).may_choose(favoured_move, chosen)
    }

    open spec fn has_handled(&self, round: Round, favoured_move: Move) -> bool {
        (**self).has_handled(round, favoured_move)
    }

    fn play_for_favoured_move(&mut self, favoured_move: Move) -> (chosen: Move) {
        (**self).play_for_favoured_move(favoured_move)
    }

    fn handle_last_round(&mut self, round: Round, favoured_move: Move) {
        (**self).handle_last_round(round, favoured_move)
    }
}

/// A strategy and the participant who owns it.
pub struct OwnedStrategy<S: Strategy> {
    pub owner: Participant,
    pub strategy: S,
}

impl<S: Strategy> OwnedStrategy<S> {
    /// The strategy with its owner.
    pub fn new(owner: Participant, strategy: S) -> (owned: OwnedStrategy<S>)
        ensures
            owned.owner == owner,
            owned.strategy == strategy,
    {
        OwnedStrategy { owner, strategy }
    }

    /// The text that `id` returns: the owner's name, a colon and a space, and the
    /// strategy's name.
    pub open spec fn spec_id(&self) -> Seq<char> {
        self.owner.name@ + ": "@ + self.strategy.spec_name()
    }

    /// An identifier for the strategy.
    pub fn id(&self) -> (id: String)
        ensures
            id@ == self.spec_id(),
    {
        let mut id = self.owner.name.to_owned();
        id.append(": ");
        id.append(self.strategy.name());
        id
    }
}

impl<S: Strategy> PartialEq for OwnedStrategy<S> {
    fn eq(&self, other: &OwnedStrategy<S>) -> (same: bool) {
        self.owner == other.owner && same_text(self.strategy.name(), other.strategy.name())
    }
}

impl<S: Strategy> Eq for OwnedStrategy<S> {

}

impl<S: Strategy> vstd::std_specs::cmp::PartialEqSpecImpl for OwnedStrategy<S> {
    open spec fn obeys_eq_spec() -> bool {
        true
    }

    /// Two owned strategies are equal when their owners are equal and their
    /// strategies have the same name.
    open spec fn eq_spec(&self, other: &OwnedStrategy<S>) -> bool {
        self.owner.same_as(&other.owner) && self.strategy.spec_name() == other.strategy.spec_name()
    }
}

/// Packages a strategy with the participant who submits it.
pub fn make_submission<S: Strategy>(strategy: S, participant: Participant) -> (owned:
    OwnedStrategy<S>)
    ensures
        owned.owner == participant,
        owned.strategy == strategy,
{
    OwnedStrategy::new(participant, strategy)
}

} // verus!
