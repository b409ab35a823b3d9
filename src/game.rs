use vstd::prelude::*;

use crate::frame::{Frame, FrameBonusType, Score};

verus! {

/// Sum of the scores of a sequence of frames.
pub open spec fn score_of(frames: Seq<Frame>) -> int
    decreases frames.len(),
{
    if frames.len() == 0 {
        0
    } else {
        score_of(frames.drop_last()) + frames.last().spec_score()
    }
}

/// `frames` with the bonus tag `earned` put on the frame after `index`, when
/// there is such a tag and such a frame.
pub open spec fn tag_next(frames: Seq<Frame>, index: int, earned: Option<FrameBonusType>) -> Seq<Frame> {
    match earned {
        Some(b) => if index + 1 < 10 {
            frames.update(index + 1, Frame { bonus: Some(b), ..frames[index + 1] })
        } else {
            frames
        },
        None => frames,
    }
}

/// The abstract state of a game: its frames, the cursor that tells where the
/// next roll goes, and the fill ball of the tenth frame.
pub struct GameState {
    pub frames: Seq<Frame>,
    pub frame_index: int,
    pub roll_index: int,
    pub fill_ball: Option<i32>,
}

impl GameState {
    /// Ten frames, and a cursor on a frame and roll that exist. Frames past
    /// the cursor hold no pins yet, nor does the roll under it.
    pub open spec fn wf(self) -> bool {
        &&& self.frames.len() == 10
        &&& 0 <= self.frame_index < 10
        &&& 0 <= self.roll_index <= 2
        &&& self.roll_index == 2 ==> self.frame_index == 9
        &&& forall|j: int| self.frame_index < j < 10 ==> (#[trigger] self.frames[j]).is_fresh()
        &&& self.roll_index == 0 ==> self.frames[self.frame_index].is_fresh()
        &&& self.roll_index == 1 && self.frame_index < 9
            ==> self.frames[self.frame_index].second_roll_pins is None
        &&& self.roll_index < 2 ==> self.fill_ball is None
    }

    /// The state of a game before its first roll.
    pub open spec fn is_new(self) -> bool {
        &&& self.frames.len() == 10
        &&& forall|j: int| 0 <= j < 10 ==> (#[trigger] self.frames[j]).is_fresh()
            && self.frames[j].bonus is None
        &&& self.frame_index == 0
        &&& self.roll_index == 0
        &&& self.fill_ball is None
    }

    /// Every roll the game allows has been recorded: the tenth frame ended
    /// without a strike or spare after its second roll, or its fill ball was
    /// rolled.
    pub open spec fn is_over(self) -> bool {
        ||| self.frame_index == 9 && self.roll_index == 1 && self.frames[9].second_roll_pins is Some
        ||| self.roll_index == 2 && self.fill_ball is Some
    }

    /// The total score: every frame's score, plus the fill ball.
    pub open spec fn total(self) -> int {
        score_of(self.frames) + match self.fill_ball {
            Some(p) => p as int,
            None => 0,
        }
    }

    /// The bonus that a roll of `pins` earns for the next frame: a strike on
    /// a first roll, a spare when a second roll completes ten pins.
    pub open spec fn earned(self, pins: i32) -> Option<FrameBonusType> {
        if self.roll_index == 0 && pins == 10 {
            Some(FrameBonusType::Strike)
        } else if self.roll_index == 1
            && self.frames[self.frame_index].first_roll_pins + pins == 10 {
            Some(FrameBonusType::Spare)
        } else {
            None
        }
    }

    /// Where the cursor goes after a roll that earned `earned`: a strike ends
    /// a frame, a second roll ends it too, but in the tenth frame a strike
    /// leads to its second roll and a strike or spare there grants the fill
    /// ball. Once the game is over the cursor stays where it is.
    pub open spec fn next_cursor(self, earned: Option<FrameBonusType>) -> (int, int) {
        let fi = self.frame_index;
        if self.roll_index == 0 {
            if earned == Some(FrameBonusType::Strike) && fi < 9 {
                (fi + 1, 0)
            } else {
                (fi, 1)
            }
        } else if self.roll_index == 1 {
            if fi < 9 {
                (fi + 1, 0)
            } else if earned is Some || self.frames[fi].first_roll_pins == 10 {
                (fi, 2)
            } else {
                (fi, 1)
            }
        } else {
            (fi, self.roll_index)
        }
    }

    /// The frames with `pins` written into the roll under the cursor.
    pub open spec fn stored(self, pins: i32) -> Seq<Frame> {
        let cur = self.frames[self.frame_index];
        if self.roll_index == 0 {
            self.frames.update(self.frame_index, Frame { first_roll_pins: pins, ..cur })
        } else if self.roll_index == 1 {
            self.frames.update(self.frame_index, Frame { second_roll_pins: Some(pins), ..cur })
        } else {
            self.frames
        }
    }

    /// The state after a roll of `pins`.
    pub open spec fn after_roll(self, pins: i32) -> GameState {
        let earned = self.earned(pins);
        let cursor = self.next_cursor(earned);
        GameState {
            frames: tag_next(self.stored(pins), self.frame_index, earned),
            frame_index: cursor.0,
            roll_index: cursor.1,
            fill_ball: if self.roll_index == 2 {
                Some(pins)
            } else {
                self.fill_ball
            },
        }
    }
}

/// A game of ten frames and the cursor that routes each roll into them.
#[derive(Debug)]
pub struct Game {
    frames: [Frame; 10],
    current_frame_index: usize,
    current_roll_index: usize,
    bonus_tenth_frame_third_roll: Option<i32>,
}

impl View for Game {
    type V = GameState;

    closed spec fn view(&self) -> GameState {
        GameState {
            frames: self.frames@,
            frame_index: self.current_frame_index as int,
            roll_index: self.current_roll_index as int,
            fill_ball: self.bonus_tenth_frame_third_roll,
        }
    }
}

/// Largest magnitude of one frame's score: four rolls' worth of `i32` pins.
spec fn frame_score_bound() -> int {
    0x2_0000_0000
}

proof fn lemma_frame_score_bounded(f: Frame)
    ensures
        -frame_score_bound() <= f.spec_score() <= frame_score_bound(),
{
}

proof fn lemma_score_of_fresh(frames: Seq<Frame>)
    requires
        forall|j: int| 0 <= j < frames.len() ==> (#[trigger] frames[j]).is_fresh(),
    ensures
        score_of(frames) == 0,
    decreases frames.len(),
{
    if frames.len() > 0 {
        let rest = frames.drop_last();
        assert forall|j: int| 0 <= j < rest.len() implies (#[trigger] rest[j]).is_fresh() by {
            assert(rest[j] == frames[j]);
        }
        lemma_score_of_fresh(rest);
    }
}

/// Replacing one frame changes the sum by the difference of the two frames'
/// scores.
proof fn lemma_score_of_update(frames: Seq<Frame>, i: int, f: Frame)
    requires
        0 <= i < frames.len(),
    ensures
        score_of(frames.update(i, f)) == score_of(frames) - frames[i].spec_score() + f.spec_score(),
    decreases frames.len(),
{
    let updated = frames.update(i, f);
    if i == frames.len() - 1 {
        assert(updated.drop_last() =~= frames.drop_last());
    } else {
        assert(updated.drop_last() =~= frames.drop_last().update(i, f));
        lemma_score_of_update(frames.drop_last(), i, f);
    }
}

/// Scoring is idempotent: two scores of one game, with no roll recorded in
/// between, are equal, since the score is a function of the game's state and
/// scoring does not change that state.
pub proof fn lemma_score_idempotent(game: Game, first: i64, second: i64)
    requires
        first == game@.total(),
        second == game@.total(),
    ensures
        first == second,
{
}

/// Scores never go down: in a game that is not over, recording a roll of zero
/// or more pins leaves the total score at least where it was.
pub proof fn lemma_roll_never_lowers_score(s: GameState, pins: i32)
    requires
        s.wf(),
        !s.is_over(),
        pins >= 0,
    ensures
        s.after_roll(pins).total() >= s.total(),
{
    let fi = s.frame_index;
    let stored = s.stored(pins);
    if s.roll_index < 2 {
        lemma_score_of_update(s.frames, fi, stored[fi]);
    }
    let earned = s.earned(pins);
    if earned is Some && fi + 1 < 10 {
        let next = stored[fi + 1];
        assert(next == s.frames[fi + 1]);
        assert(next.is_fresh());
        lemma_score_of_update(stored, fi + 1, Frame { bonus: earned, ..next });
    }
}

impl Default for Game {
    /// A new game: ten empty frames, the cursor on the first roll of the
    /// first frame.
    fn default() -> (r: Game)
        ensures
            r@.is_new(),
            r@.wf(),
            r@.total() == 0,
    {
        let f = Frame::default();
        let r = Game {
            frames: [f, f, f, f, f, f, f, f, f, f],
            current_frame_index: 0,
            current_roll_index: 0,
            bonus_tenth_frame_third_roll: None,
        };
        proof {
            lemma_score_of_fresh(r@.frames);
        }
        r
    }
}

impl Game {
    /// Records a roll of `pins` at the cursor: the first or second roll of
    /// the current frame, or the tenth frame's fill ball. A strike or spare
    /// tags the next frame, then the cursor moves on. Pin counts are not
    /// checked. Once the game is over, a further roll replaces the last one.
    pub fn roll(&mut self, pins: i32)
        requires
            old(self)@.wf(),
        ensures
            final(self)@ == old(self)@.after_roll(pins),
            final(self)@.wf(),
    {
        let fi = self.current_frame_index;
        let mut bonus: Option<FrameBonusType> = None;
        if self.current_roll_index == 0 {
            self.frames[fi].first_roll_pins = pins;
            if pins == 10 {
                bonus = Some(FrameBonusType::Strike);
            }
        } else if self.current_roll_index == 1 {
            self.frames[fi].second_roll_pins = Some(pins);
            if pins as i64 + self.frames[fi].first_roll_pins as i64 == 10 {
                bonus = Some(FrameBonusType::Spare);
            }
        } else {
            self.bonus_tenth_frame_third_roll = Some(pins);
        }
        if fi + 1 < 10 {
            if let Some(b) = bonus {
                self.frames[fi + 1].bonus = Some(b);
            }
        }
        self.set_next_indices(bonus);
        assert(self@.frames =~= old(self)@.after_roll(pins).frames);
    }

    fn set_next_indices(&mut self, bonus: Option<FrameBonusType>)
        requires
            old(self).current_frame_index < 10,
            old(self).current_roll_index <= 2,
        ensures
            final(self).frames == old(self).frames,
            final(self).bonus_tenth_frame_third_roll == old(self).bonus_tenth_frame_third_roll,
            (final(self).current_frame_index as int, final(self).current_roll_index as int)
                == old(self)@.next_cursor(bonus),
    {
        if self.current_roll_index == 0 {
            let is_strike = match bonus {
                Some(FrameBonusType::Strike) => true,
                _ => false,
            };
            if is_strike && self.current_frame_index < 9 {
                self.current_frame_index = self.current_frame_index + 1;
                self.current_roll_index = 0;
            } else {
                self.current_roll_index = 1;
            }
        } else if self.current_roll_index == 1 {
            if self.current_frame_index != 9 {
                self.current_roll_index = 0;
                self.current_frame_index = self.current_frame_index + 1;
            } else if bonus.is_some() || self.frames[9].first_roll_pins == 10 {
                self.current_roll_index = 2;
            }
        }
    }
}

impl Score for Game {
    /// The sum of the ten frames' scores, plus the fill ball if it was rolled.
    fn score(&self) -> (r: i64)
        ensures
            r == self@.total(),
    {
        let mut total_score: i64 = 0;
        let mut i: usize = 0;
        while i < 10
            invariant
                0 <= i <= 10,
                total_score == score_of(self.frames@.take(i as int)),
                -(i * frame_score_bound()) <= total_score <= i * frame_score_bound(),
            decreases 10 - i,
        {
            let frame = self.frames[i];
            proof {
                lemma_frame_score_bounded(frame);
                let upto = self.frames@.take(i + 1);
                assert(upto.drop_last() =~= self.frames@.take(i as int));
                assert(upto.last() == frame);
            }
            total_score = total_score + frame.score();
            i = i + 1;
        }
        assert(self.frames@.take(10) =~= self.frames@);
        if let Some(bonus_last_roll_pins) = self.bonus_tenth_frame_third_roll {
            total_score = total_score + bonus_last_roll_pins as i64;
        }
        total_score
    }
}


} // verus!
