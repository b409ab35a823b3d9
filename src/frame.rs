use vstd::prelude::*;

verus! {

/// Capability of reporting a score.
pub trait Score {
    fn score(&self) -> i64;
}

/// The bonus that a frame carries because of how the previous frame ended.
#[derive(Clone, Copy, Debug, PartialEq, Eq, Structural)]
pub enum FrameBonusType {
    Spare,
    Strike,
}

/// One of the ten frames of a game.
///
/// `bonus` is set when the previous frame ended in a strike or a spare: this
/// frame's pins then count a second time.
#[derive(Debug, Clone, Copy)]
pub struct Frame {
    pub first_roll_pins: i32,
    pub second_roll_pins: Option<i32>,
    pub bonus: Option<FrameBonusType>,
}

impl Frame {
    /// Pins knocked down in this frame, the second roll counting as zero
    /// while it is absent.
    pub open spec fn pins(self) -> int {
        self.first_roll_pins + match self.second_roll_pins {
            Some(p) => p as int,
            None => 0,
        }
    }

    /// What a bonus tag adds: the first roll again after a spare, every roll
    /// of the frame again after a strike.
    pub open spec fn bonus_pins(self) -> int {
        match self.bonus {
            None => 0,
            Some(FrameBonusType::Spare) => self.first_roll_pins as int,
            Some(FrameBonusType::Strike) => self.pins(),
        }
    }

    /// The frame's score.
    pub open spec fn spec_score(self) -> int {
        self.pins() + self.bonus_pins()
    }

    /// A frame into which no roll has been recorded.
    pub open spec fn is_fresh(self) -> bool {
        self.first_roll_pins == 0 && self.second_roll_pins is None
    }

    fn rolls_score(&self) -> (r: i64)
        ensures
            r == self.pins(),
    {
        match self.second_roll_pins {
            None => self.first_roll_pins as i64,
            Some(second) => self.first_roll_pins as i64 + second as i64,
        }
    }
}

impl Default for Frame {
    fn default() -> (r: Frame)
        ensures
            r.is_fresh(),
            r.bonus is None,
    {
        Frame { first_roll_pins: 0, second_roll_pins: None, bonus: None }
    }
}

impl Score for Frame {
    fn score(&self) -> (r: i64)
        ensures
            r == self.spec_score(),
    {
        let mut score = self.rolls_score();
        match self.bonus {
            None => {},
            Some(FrameBonusType::Spare) => {
                score = score + self.first_roll_pins as i64;
            },
            Some(FrameBonusType::Strike) => {
                score = score + self.first_roll_pins as i64;
                if let Some(second_roll) = self.second_roll_pins {
                    score = score + second_roll as i64;
                }
            },
        }
        score
    }
}

} // verus!
