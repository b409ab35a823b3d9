//! Scoring engine for a single ten-pin bowling game.
//!
//! A [`Game`] receives rolls one at a time and routes each pin count into one
//! of its ten [`Frame`]s. A strike or spare is recorded as a bonus tag on the
//! following frame, whose own pins are then counted once more when that frame
//! is scored.
mod frame;
mod game;

pub use frame::{Frame, FrameBonusType, Score};
pub use game::{Game, GameState};
