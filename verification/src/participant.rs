//! Who owns a strategy.

use vstd::prelude::*;

verus! {

/// The internal, unique name of a participant.
pub type ParticipantName = &'static str;

/// The public-facing name of a participant.
pub type ParticipantPubName = &'static str;

/// The kind of a participant.
#[derive(Debug, PartialEq, Eq, Structural, Hash)]
pub enum ParticipantType {
    System,
    Remote,
    Onsite,
}

impl ParticipantType {
    /// The text that `to_string` returns: the variant's name.
    pub open spec fn spec_to_string(&self) -> Seq<char> {
        match self {
            ParticipantType::System => "System"@,
            ParticipantType::Remote => "Remote"@,
            ParticipantType::Onsite => "Onsite"@,
        }
    }

    /// The variant's name.
    pub fn to_string(&self) -> (text: String)
        ensures
            text@ == self.spec_to_string(),
    {
        match self {
            ParticipantType::System => "System".to_owned(),
            ParticipantType::Remote => "Remote".to_owned(),
            ParticipantType::Onsite => "Onsite".to_owned(),
        }
    }
}

/// A participant in the game.
#[derive(Debug, Hash)]
pub struct Participant {
    /// The kind of the participant.
    pub participant_type: ParticipantType,
    /// The internal, unique name of the participant.
    pub name: ParticipantName,
    /// The public-facing name of the participant.
    pub pub_name: ParticipantPubName,
}

/// Compares two string slices with `==` of `str`, which holds exactly when both
/// have the same characters.
#[verifier::external_body]
pub(crate) fn same_text(a: &str, b: &str) -> (same: bool)
    ensures
        same == (a@ == b@),
{
    a == b
}

impl Participant {
    /// The participant of the given kind and names.
    pub fn new(
        participant_type: ParticipantType,
        name: ParticipantName,
        pub_name: ParticipantPubName,
    ) -> (participant: Participant)
        ensures
            participant.participant_type == participant_type,
            participant.name == name,
            participant.pub_name == pub_name,
    {
        Participant { participant_type, name, pub_name }
    }

    /// Whether two participants have the same kind and the same names.
    pub open spec fn same_as(&self, other: &Participant) -> bool {
        &&& self.participant_type == other.participant_type
        &&& self.name@ == other.name@
        &&& self.pub_name@ == other.pub_name@
    }

    /// The text that `to_string` returns: the kind for the system's own
    /// participant, the public name for every other.
    pub open spec fn spec_to_string(&self) -> Seq<char> {
        if self.participant_type == ParticipantType::System {
            self.participant_type.spec_to_string()
        } else {
            self.pub_name@
        }
    }

    /// How the participant is shown.
    pub fn to_string(&self) -> (text: String)
        ensures
            text@ == self.spec_to_string(),
    {
        match self.participant_type {
            ParticipantType::System => self.participant_type.to_string(),
            _ => self.pub_name.to_owned(),
        }
    }
}

impl Clone for ParticipantType {
    fn clone(&self) -> (copy: ParticipantType)
        ensures
            copy == *self,
    {
        match self {
            ParticipantType::System => ParticipantType::System,
            ParticipantType::Remote => ParticipantType::Remote,
            ParticipantType::Onsite => ParticipantType::Onsite,
        }
    }
}

impl Clone for Participant {
    fn clone(&self) -> (copy: Participant)
        ensures
            copy == *self,
    {
        Participant {
            participant_type: self.participant_type.clone(),
            name: self.name,
            pub_name: self.pub_name,
        }
    }
}

impl PartialEq for Participant {
    fn eq(&self, other: &Participant) -> (same: bool) {
        self.participant_type == other.participant_type && same_text(self.name, other.name)
            && same_text(self.pub_name, other.pub_name)
    }
}

impl Eq for Participant {

}

impl vstd::std_specs::cmp::PartialEqSpecImpl for Participant {
    open spec fn obeys_eq_spec() -> bool {
        true
    }

    open spec fn eq_spec(&self, other: &Participant) -> bool {
        self.same_as(other)
    }
}

} // verus!
