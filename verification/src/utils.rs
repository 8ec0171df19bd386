//! Reusable parts that strategies compose: a bounded history and two samplers.

pub mod history;
pub mod random;

pub use self::history::{BoundedHistory, Memory};
pub use self::random::{InvalidConfiguration, RandomBoolean, RandomMove, THIRD, WHOLE};
