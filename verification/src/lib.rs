//! Building blocks for strategies in a repeated two-player game with three moves.

pub mod game;
pub mod participant;
pub mod strategy;
pub mod utils;

pub use crate::game::{Move, Opposite, Round};
pub use crate::participant::{Participant, ParticipantName, ParticipantPubName, ParticipantType};
pub use crate::strategy::{make_submission, Named, OwnedStrategy, Strategy};
