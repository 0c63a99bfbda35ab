use std::time::{Duration, Instant};

use macro_recorder::actions::{Action, KeyState, PixelInfo};
use macro_recorder::player::{delay_poll, scale_delay, DelayPoll, PlaybackError, Player, Status, Step};
use macro_recorder::settings::Settings;

const KEY_A: i32 = 0x41;
const KEY_B: i32 = 0x42;
const KEY_C: i32 = 0x43;

fn key(code: i32) -> Action {
    Action::Keyboard(code, KeyState::Pressed)
}

fn pixel_query() -> Action {
    Action::IfPixel(PixelInfo {
        color: (255, 0, 0),
        search_location_left_top: (0, 0),
        search_location_width_height: (10, 10),
        check_if_not_found: false,
        move_mouse_if_found: false,
    })
}

/// Plays `actions` against scripted query answers; returns the indices of the
/// performed actions and the final step.
fn run(actions: Vec<Action>, settings: &Settings, answers: &[bool]) -> (Vec<usize>, Step) {
    let mut player = Player::new(actions, settings);
    let mut performed = Vec::new();
    let mut next_answer = 0;
    for _ in 0..10_000 {
        match player.step(false) {
            Step::Perform(i) => performed.push(i),
            Step::Evaluate(_) => {
                let answer = answers[next_answer];
                next_answer += 1;
                player.resolve(answer);
            }
            Step::Wait(_) | Step::Continue => {}
            end => return (performed, end),
        }
    }
    panic!("playback did not end");
}

#[test]
fn if_else_runs_only_the_else_branch() {
    let actions = vec![pixel_query(), key(KEY_A), Action::Else, key(KEY_B), Action::EndIf];
    let (performed, end) = run(actions, &Settings::default(), &[false]);
    assert_eq!(performed, vec![3]);
    assert_eq!(end, Step::Finished);
}

#[test]
fn if_true_runs_only_the_then_branch() {
    let actions = vec![pixel_query(), key(KEY_A), Action::Else, key(KEY_B), Action::EndIf];
    let (performed, end) = run(actions, &Settings::default(), &[true]);
    assert_eq!(performed, vec![1]);
    assert_eq!(end, Step::Finished);
}

#[test]
fn repeat_three_times() {
    let actions = vec![Action::Repeat(3), key(KEY_A), Action::EndRepeat];
    let (performed, end) = run(actions, &Settings::default(), &[]);
    assert_eq!(performed, vec![1, 1, 1]);
    assert_eq!(end, Step::Finished);
}

#[test]
fn endless_repeat_with_break_runs_once_and_halts() {
    let actions = vec![Action::Repeat(0), key(KEY_A), Action::Break];
    let (performed, end) = run(actions, &Settings::default(), &[]);
    assert_eq!(performed, vec![1]);
    assert_eq!(end, Step::Failed(PlaybackError::MissingEndRepeat(0)));
}

#[test]
fn break_skips_rest_of_repeat() {
    let actions = vec![
        Action::Repeat(5),
        key(KEY_A),
        Action::Break,
        key(KEY_B),
        Action::EndRepeat,
        key(KEY_C),
    ];
    let (performed, end) = run(actions, &Settings::default(), &[]);
    assert_eq!(performed, vec![1, 5]);
    assert_eq!(end, Step::Finished);
}

#[test]
fn break_jumps_past_nested_repeats() {
    let actions = vec![
        Action::Repeat(2),
        Action::Break,
        Action::Repeat(3),
        key(KEY_A),
        Action::EndRepeat,
        key(KEY_B),
        Action::EndRepeat,
        key(KEY_C),
    ];
    let (performed, end) = run(actions, &Settings::default(), &[]);
    assert_eq!(performed, vec![7]);
    assert_eq!(end, Step::Finished);
}

#[test]
fn nested_repeats_multiply() {
    let actions = vec![
        Action::Repeat(2),
        Action::Repeat(3),
        key(KEY_A),
        Action::EndRepeat,
        key(KEY_B),
        Action::EndRepeat,
    ];
    let (performed, _) = run(actions, &Settings::default(), &[]);
    assert_eq!(performed, vec![2, 2, 2, 4, 2, 2, 2, 4]);
}

#[test]
fn settings_repeat_the_whole_macro() {
    let mut settings = Settings::default();
    settings.repeat_times = 3;
    let (performed, end) = run(vec![key(KEY_A)], &settings, &[]);
    assert_eq!(performed, vec![0, 0, 0]);
    assert_eq!(end, Step::Finished);
}

#[test]
fn empty_macro_finishes_at_once() {
    let (performed, end) = run(vec![], &Settings::default(), &[]);
    assert!(performed.is_empty());
    assert_eq!(end, Step::Finished);
}

#[test]
fn else_without_if_fails() {
    let (performed, end) = run(vec![key(KEY_A), Action::Else], &Settings::default(), &[]);
    assert_eq!(performed, vec![0]);
    assert_eq!(end, Step::Failed(PlaybackError::ElseWithoutIf(1)));
}

#[test]
fn endif_without_if_fails() {
    let (_, end) = run(vec![Action::EndIf], &Settings::default(), &[]);
    assert_eq!(end, Step::Failed(PlaybackError::EndIfWithoutIf(0)));
}

#[test]
fn break_outside_repeat_fails() {
    let (_, end) = run(vec![Action::Break, key(KEY_A)], &Settings::default(), &[]);
    assert_eq!(end, Step::Failed(PlaybackError::BreakOutsideRepeat(0)));
}

#[test]
fn repeat_without_end_fails() {
    let actions = vec![key(KEY_A), Action::Repeat(2), key(KEY_B)];
    let (performed, end) = run(actions, &Settings::default(), &[]);
    assert_eq!(performed, vec![0, 2]);
    assert_eq!(end, Step::Failed(PlaybackError::MissingEndRepeat(1)));
}

#[test]
fn false_condition_skips_delays_and_waits() {
    let wait = Action::WaitForPixel(PixelInfo {
        color: (0, 0, 0),
        search_location_left_top: (0, 0),
        search_location_width_height: (1, 1),
        check_if_not_found: false,
        move_mouse_if_found: false,
    });
    let actions = vec![pixel_query(), Action::Delay(100), wait, Action::EndIf];
    let mut player = Player::new(actions, &Settings::default());
    assert_eq!(player.step(false), Step::Evaluate(0));
    player.resolve(false);
    assert_eq!(player.step(false), Step::Continue);
    assert_eq!(player.step(false), Step::Continue);
    assert_eq!(player.step(false), Step::Continue);
    assert_eq!(player.step(false), Step::Finished);
}

#[test]
fn wait_repeats_until_found() {
    let wait = Action::WaitForPixel(PixelInfo {
        color: (0, 0, 0),
        search_location_left_top: (0, 0),
        search_location_width_height: (1, 1),
        check_if_not_found: false,
        move_mouse_if_found: false,
    });
    let mut player = Player::new(vec![wait, key(KEY_A)], &Settings::default());
    assert_eq!(player.step(false), Step::Evaluate(0));
    player.resolve(false);
    assert_eq!(player.step(false), Step::Evaluate(0));
    player.resolve(true);
    assert_eq!(player.step(false), Step::Perform(1));
}

#[test]
fn delays_scale_with_speed_and_can_be_ignored() {
    let mut settings = Settings::default();
    settings.playback_speed_permille = 2000;
    let mut player = Player::new(vec![Action::Delay(500)], &settings);
    assert_eq!(player.step(false), Step::Wait(250));
    settings.ignore_delays = true;
    let mut player = Player::new(vec![Action::Delay(500)], &settings);
    assert_eq!(player.step(false), Step::Continue);
    assert_eq!(scale_delay(500, 500), 1000);
    assert_eq!(scale_delay(500, 0), u64::MAX);
}

#[test]
fn cancellation_stops_at_next_step() {
    let mut player = Player::new(vec![Action::Delay(10_000), key(KEY_A)], &Settings::default());
    assert_eq!(player.step(false), Step::Wait(10_000));
    assert_eq!(player.step(true), Step::Cancelled);
    assert_eq!(player.step(false), Step::Cancelled);
    assert_eq!(player.status(), Status::Cancelled);
}

#[test]
fn cancellation_during_long_delay_returns_quickly() {
    let mut player = Player::new(vec![Action::Delay(10_000)], &Settings::default());
    let duration = match player.step(false) {
        Step::Wait(ms) => ms,
        other => panic!("unexpected step {:?}", other),
    };
    let began = Instant::now();
    let cancel_at = Duration::from_millis(20);
    loop {
        let elapsed = began.elapsed();
        let cancelled = elapsed >= cancel_at;
        match delay_poll(elapsed.as_millis() as u64, duration, cancelled) {
            DelayPoll::Waiting => {}
            DelayPoll::Elapsed => panic!("the delay ran out"),
            DelayPoll::Cancelled => break,
        }
    }
    assert_eq!(player.step(true), Step::Cancelled);
    assert!(began.elapsed() < cancel_at + Duration::from_millis(50));
}

#[test]
fn delay_poll_outcomes() {
    assert_eq!(delay_poll(5, 10_000, true), DelayPoll::Cancelled);
    assert_eq!(delay_poll(10_000, 10_000, false), DelayPoll::Elapsed);
    assert_eq!(delay_poll(9_999, 10_000, false), DelayPoll::Waiting);
}

#[test]
fn sub_macro_plays_once_with_same_timing() {
    let mut settings = Settings::default();
    settings.repeat_times = 0;
    settings.playback_speed_permille = 500;
    let outer = Player::new(vec![Action::Play("inner.json".to_string())], &settings);
    let mut inner = outer.new_sub(vec![Action::Delay(10), key(KEY_A)]);
    assert_eq!(inner.step(false), Step::Wait(20));
    assert_eq!(inner.step(false), Step::Perform(1));
    assert_eq!(inner.step(false), Step::Finished);
}
