use time_rs::clock::{minutes_seconds, NANOS_PER_SEC};
use time_rs::session::{Key, Mode, TimerSession, POMODORO};

const S: u128 = NANOS_PER_SEC;

fn press_all(s: &mut TimerSession, keys: &[Key], now: u128) {
    for k in keys {
        assert!(!s.handle_key(*k, now));
    }
}

#[test]
fn completion_fires_once_after_expiry() {
    let mut s = TimerSession::from_seconds(5, 0);
    // Frames every 200 ms up to the first one where the countdown is at zero.
    let mut t: u128 = 0;
    while s.clock().remaining(t) > 0 {
        assert!(!s.check_completion(t));
        t += S / 5;
    }
    assert!(t <= 6 * S);
    assert!(s.check_completion(t));
    for i in 1..=10u128 {
        assert!(!s.check_completion(t + i * S / 5));
    }
    assert!(s.already_notified());
}

#[test]
fn manual_input_with_backspace_sets_minutes() {
    let mut s = TimerSession::from_seconds(120, 0);
    press_all(&mut s, &[Key::Char('m')], S);
    assert_eq!(s.mode(), Mode::ManualInput);
    assert!(s.input().is_empty());
    press_all(&mut s, &[Key::Char('1')], S);
    assert_eq!(s.input(), &vec!['1']);
    press_all(&mut s, &[Key::Char('2')], S);
    assert_eq!(s.input(), &vec!['1', '2']);
    press_all(&mut s, &[Key::Backspace], S);
    assert_eq!(s.input(), &vec!['1']);
    press_all(&mut s, &[Key::Char('5')], S);
    assert_eq!(s.input(), &vec!['1', '5']);
    press_all(&mut s, &[Key::Enter], 3 * S);
    assert_eq!(s.mode(), Mode::Normal);
    assert!(s.input().is_empty());
    assert_eq!(s.clock().target_duration(), 900 * S);
    assert_eq!(s.clock().elapsed(3 * S), 0);
    assert!(!s.already_notified());
}

#[test]
fn manual_input_empty_enter_changes_nothing() {
    let mut s = TimerSession::from_seconds(1, 0);
    assert!(s.check_completion(2 * S));
    press_all(&mut s, &[Key::Char('m'), Key::Enter], 3 * S);
    assert_eq!(s.mode(), Mode::Normal);
    assert!(s.input().is_empty());
    assert_eq!(s.clock().target_duration(), S);
    assert_eq!(s.clock().elapsed(3 * S), 3 * S);
    assert!(s.already_notified());
}

#[test]
fn pomodoro_resets_everything() {
    let mut s = TimerSession::from_seconds(30, 0);
    press_all(&mut s, &[Key::Char('j'), Key::Char(' ')], 40 * S);
    assert!(s.check_completion(40 * S));
    assert!(s.clock().is_paused());
    press_all(&mut s, &[Key::Char('p')], 50 * S);
    assert_eq!(s.clock().target_duration(), POMODORO);
    assert_eq!(s.clock().target_duration(), 1500 * S);
    assert!(!s.clock().is_paused());
    assert_eq!(s.clock().elapsed(50 * S), 0);
    assert!(!s.already_notified());
}

#[test]
fn quit_only_in_normal_mode() {
    let mut s = TimerSession::from_seconds(10, 0);
    press_all(&mut s, &[Key::Char('h')], 0);
    assert_eq!(s.mode(), Mode::Help);
    // In help, q goes back to normal mode instead of quitting.
    press_all(&mut s, &[Key::Char('q')], 0);
    assert_eq!(s.mode(), Mode::Normal);
    press_all(&mut s, &[Key::Char('m'), Key::Char('7'), Key::Char('q')], 0);
    assert_eq!(s.mode(), Mode::Normal);
    assert!(s.input().is_empty());
    assert_eq!(s.clock().target_duration(), 10 * S);
    assert!(s.handle_key(Key::Char('q'), 0));
}

#[test]
fn help_ignores_other_keys() {
    let mut s = TimerSession::from_seconds(10, 0);
    press_all(&mut s, &[Key::Char('h'), Key::Char('j'), Key::Char('p'), Key::Enter], 0);
    assert_eq!(s.mode(), Mode::Help);
    assert_eq!(s.clock().target_duration(), 10 * S);
    press_all(&mut s, &[Key::Esc], 0);
    assert_eq!(s.mode(), Mode::Normal);
    press_all(&mut s, &[Key::Esc], 0);
    assert_eq!(s.mode(), Mode::Normal);
}

#[test]
fn manual_input_ignores_letters_and_escape_discards() {
    let mut s = TimerSession::from_seconds(10, 0);
    press_all(&mut s, &[Key::Char('m'), Key::Char('x'), Key::Char('3'), Key::Other], 0);
    assert_eq!(s.input(), &vec!['3']);
    press_all(&mut s, &[Key::Backspace, Key::Backspace], 0);
    assert!(s.input().is_empty());
    press_all(&mut s, &[Key::Char('4'), Key::Esc], 0);
    assert_eq!(s.mode(), Mode::Normal);
    assert!(s.input().is_empty());
    assert_eq!(s.clock().target_duration(), 10 * S);
}

#[test]
fn adjust_keys_move_target_by_ten_seconds() {
    let mut s = TimerSession::from_seconds(15, 0);
    press_all(&mut s, &[Key::Char('j')], 0);
    assert_eq!(s.clock().target_duration(), 25 * S);
    press_all(&mut s, &[Key::Char('k'), Key::Char('k')], 0);
    assert_eq!(s.clock().target_duration(), 5 * S);
    // At or below ten seconds the decrease is refused.
    press_all(&mut s, &[Key::Char('k')], 0);
    assert_eq!(s.clock().target_duration(), 5 * S);
    let mut t = TimerSession::from_seconds(10, 0);
    press_all(&mut t, &[Key::Char('k')], 0);
    assert_eq!(t.clock().target_duration(), 10 * S);
}

#[test]
fn adding_time_after_completion_does_not_refire() {
    let mut s = TimerSession::from_seconds(2, 0);
    assert!(s.check_completion(3 * S));
    press_all(&mut s, &[Key::Char('j')], 3 * S);
    assert_eq!(s.clock().remaining(3 * S), 9 * S);
    assert!(!s.check_completion(3 * S));
    assert!(!s.check_completion(20 * S));
    press_all(&mut s, &[Key::Char('r')], 20 * S);
    assert!(!s.already_notified());
    assert!(s.check_completion(32 * S));
}

#[test]
fn restart_keeps_target_and_unpauses() {
    let mut s = TimerSession::from_seconds(60, 0);
    press_all(&mut s, &[Key::Char(' ')], 10 * S);
    press_all(&mut s, &[Key::Char('r')], 30 * S);
    assert!(!s.clock().is_paused());
    assert_eq!(s.clock().target_duration(), 60 * S);
    assert_eq!(s.clock().elapsed(30 * S), 0);
    assert_eq!(s.clock().remaining(35 * S), 55 * S);
}

#[test]
fn zero_minutes_entered_completes_at_once() {
    let mut s = TimerSession::from_seconds(60, 0);
    press_all(&mut s, &[Key::Char('m'), Key::Char('0'), Key::Enter], S);
    assert_eq!(s.clock().target_duration(), 0);
    assert!(s.clock().is_done(S));
    assert!(s.check_completion(S));
    assert!(!s.check_completion(2 * S));
}

#[test]
fn huge_minutes_entry_is_ignored() {
    let mut s = TimerSession::from_seconds(60, 0);
    press_all(&mut s, &[Key::Char('m')], 0);
    for _ in 0..25 {
        press_all(&mut s, &[Key::Char('9')], 0);
    }
    press_all(&mut s, &[Key::Enter], 0);
    assert_eq!(s.mode(), Mode::Normal);
    assert_eq!(s.clock().target_duration(), 60 * S);
}

#[test]
fn tagline_rotates_every_five_seconds() {
    let mut s = TimerSession::from_seconds(60, 0);
    s.tick_tagline(4 * S);
    assert_eq!(s.tagline_index(), 0);
    s.tick_tagline(5 * S);
    assert_eq!(s.tagline_index(), 1);
    s.tick_tagline(9 * S);
    assert_eq!(s.tagline_index(), 1);
    s.tick_tagline(10 * S);
    s.tick_tagline(15 * S);
    s.tick_tagline(20 * S);
    assert_eq!(s.tagline_index(), 0);
}

#[test]
fn clock_face_splits_minutes_and_seconds() {
    assert_eq!(minutes_seconds(125 * S + S / 2), (2, 5));
    assert_eq!(minutes_seconds(0), (0, 0));
    assert_eq!(minutes_seconds(6000 * S), (100, 0));
}
