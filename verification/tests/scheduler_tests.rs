use alarm_clock::config::{build_config, Config, RawAlarm};
use alarm_clock::display::calculate_seconds_y;
use alarm_clock::scheduler::{check_alarm, ClockSample, PlayState, Scheduler};
use alarm_clock::weekday::Weekday;

fn config(alarms: &[(u32, u32, &[&str])], audio_path: &str) -> Config {
    let raws = alarms
        .iter()
        .map(|&(hour, minute, days)| RawAlarm {
            hour,
            minute,
            weekdays: days.iter().map(|d| d.to_string()).collect(),
        })
        .collect();
    build_config(raws, audio_path.to_string()).unwrap()
}

fn sample(hour: u8, minute: u8, second: u8, weekday: Weekday) -> ClockSample {
    ClockSample::new(hour, minute, second, weekday).unwrap()
}

#[test]
fn sample_fields_out_of_range_rejected() {
    assert!(ClockSample::new(24, 0, 0, Weekday::Mon).is_none());
    assert!(ClockSample::new(0, 60, 0, Weekday::Mon).is_none());
    assert!(ClockSample::new(0, 0, 60, Weekday::Mon).is_none());
    assert!(ClockSample::new(23, 59, 59, Weekday::Mon).is_some());
}

#[test]
fn match_correctness() {
    // Alarm at 07:30 on Mon/Wed/Fri. 2024-06-03 is a Monday, 2024-06-04 a
    // Tuesday.
    let c = config(&[(7, 30, &["Monday", "Wednesday", "Friday"])], "beep.wav");

    // Monday 07:30, entering a new minute: fires.
    let mut s = Scheduler::new(sample(7, 29, 59, Weekday::Mon), c);
    assert!(s.on_sample(sample(7, 30, 0, Weekday::Mon)));
    assert_eq!(s.state, PlayState::Sounding);

    // Tuesday 07:30: weekday not in the recurrence set, no fire.
    let c = config(&[(7, 30, &["Monday", "Wednesday", "Friday"])], "beep.wav");
    let mut s = Scheduler::new(sample(7, 29, 59, Weekday::Tue), c);
    assert!(!s.on_sample(sample(7, 30, 0, Weekday::Tue)));
    assert_eq!(s.state, PlayState::Idle);

    // Monday 07:31: minute mismatch, no fire.
    let c = config(&[(7, 30, &["Monday", "Wednesday", "Friday"])], "beep.wav");
    let mut s = Scheduler::new(sample(7, 30, 59, Weekday::Mon), c);
    assert!(!s.on_sample(sample(7, 31, 0, Weekday::Mon)));
    assert_eq!(s.state, PlayState::Idle);
}

#[test]
fn minute_debounce() {
    // Several samples within the same minute: only the first to introduce
    // the new (hour, minute) pair can start playback.
    let c = config(&[(7, 30, &["Monday"])], "beep.wav");
    let mut s = Scheduler::new(sample(7, 29, 59, Weekday::Mon), c);
    let mut starts = 0;
    for second in 0..60 {
        if s.on_sample(sample(7, 30, second, Weekday::Mon)) {
            starts += 1;
        }
    }
    assert_eq!(starts, 1);
}

#[test]
fn debounce_holds_even_after_stop() {
    // Stopping within the matching minute does not re-trigger the alarm on
    // later samples of the same minute: the match ran once, at the boundary.
    let c = config(&[(7, 30, &["Monday"])], "beep.wav");
    let mut s = Scheduler::new(sample(7, 29, 59, Weekday::Mon), c);
    assert!(s.on_sample(sample(7, 30, 0, Weekday::Mon)));
    s.stop();
    assert!(!s.on_sample(sample(7, 30, 1, Weekday::Mon)));
    assert!(!s.on_sample(sample(7, 30, 2, Weekday::Mon)));
    assert_eq!(s.state, PlayState::Idle);
}

#[test]
fn at_most_one_session() {
    // A second alarm matching while one already sounds starts nothing new.
    let c = config(&[(7, 30, &["Monday"]), (7, 31, &["Monday"])], "beep.wav");
    let mut s = Scheduler::new(sample(7, 29, 59, Weekday::Mon), c);
    assert!(s.on_sample(sample(7, 30, 0, Weekday::Mon)));
    assert_eq!(s.state, PlayState::Sounding);
    assert!(!s.on_sample(sample(7, 31, 0, Weekday::Mon)));
    assert_eq!(s.state, PlayState::Sounding);
}

#[test]
fn stop_while_idle_is_noop() {
    let c = config(&[(7, 30, &["Monday"])], "beep.wav");
    let mut s = Scheduler::new(sample(12, 0, 0, Weekday::Tue), c);
    assert_eq!(s.state, PlayState::Idle);
    s.stop();
    assert_eq!(s.state, PlayState::Idle);
    assert_eq!(s.prev_hour, 12);
    assert_eq!(s.prev_minute, 0);
}

#[test]
fn stop_is_idempotent() {
    let c = config(&[(7, 30, &["Monday"])], "beep.wav");
    let mut s = Scheduler::new(sample(7, 29, 59, Weekday::Mon), c);
    assert!(s.on_sample(sample(7, 30, 0, Weekday::Mon)));
    s.stop();
    assert_eq!(s.state, PlayState::Idle);
    s.stop();
    assert_eq!(s.state, PlayState::Idle);
    assert_eq!(s.prev_hour, 7);
    assert_eq!(s.prev_minute, 30);
}

#[test]
fn playback_failure_returns_to_idle() {
    let c = config(&[(7, 30, &["Monday"])], "beep.wav");
    let mut s = Scheduler::new(sample(7, 29, 59, Weekday::Mon), c);
    assert!(s.on_sample(sample(7, 30, 0, Weekday::Mon)));
    s.playback_failed();
    assert_eq!(s.state, PlayState::Idle);
}

#[test]
fn reload_swaps_config_atomically() {
    let c = config(&[(7, 30, &["Monday"])], "beep.wav");
    let mut s = Scheduler::new(sample(8, 0, 30, Weekday::Mon), c);

    // Reload to an alarm at 08:01; state and observed time are untouched.
    let fresh = config(&[(8, 1, &["Monday"])], "chime.wav");
    s.on_reload(fresh);
    assert_eq!(s.state, PlayState::Idle);
    assert_eq!(s.prev_hour, 8);
    assert_eq!(s.prev_minute, 0);
    assert_eq!(s.config.audio_path, "chime.wav");

    // The next evaluation sees exactly the new alarm list: the old 07:30
    // alarm is gone, the new 08:01 alarm fires.
    assert!(s.on_sample(sample(8, 1, 0, Weekday::Mon)));
    assert_eq!(s.state, PlayState::Sounding);
}

#[test]
fn reload_does_not_silence_a_sounding_alarm() {
    let c = config(&[(7, 30, &["Monday"])], "beep.wav");
    let mut s = Scheduler::new(sample(7, 29, 59, Weekday::Mon), c);
    assert!(s.on_sample(sample(7, 30, 0, Weekday::Mon)));
    let fresh = config(&[], "beep.wav");
    s.on_reload(fresh);
    assert_eq!(s.state, PlayState::Sounding);
}

#[test]
fn empty_weekday_set_never_fires() {
    let c = config(&[(7, 30, &[])], "beep.wav");
    let mut s = Scheduler::new(sample(7, 29, 59, Weekday::Mon), c);
    assert!(!s.on_sample(sample(7, 30, 0, Weekday::Mon)));
    assert_eq!(s.state, PlayState::Idle);
}

#[test]
fn hour_rollover_detected() {
    // 12:59 -> 13:00: the minute value alone wraps to the same digit class;
    // the full (hour, minute) pair still registers the change.
    let c = config(&[(13, 0, &["Monday"])], "beep.wav");
    let mut s = Scheduler::new(sample(12, 59, 59, Weekday::Mon), c);
    assert!(s.on_sample(sample(13, 0, 0, Weekday::Mon)));
}

#[test]
fn check_alarm_first_match_short_circuits() {
    let c = config(
        &[(7, 30, &["Monday"]), (7, 30, &["Monday", "Tuesday"])],
        "beep.wav",
    );
    // Two simultaneous matches are equivalent to one.
    let s = sample(7, 30, 0, Weekday::Mon);
    assert!(check_alarm(&s, &c.alarms));
    let t = sample(7, 30, 0, Weekday::Wed);
    assert!(!check_alarm(&t, &c.alarms));
}

#[test]
fn end_to_end_scenario() {
    // Config: one alarm at 06:00 on Mondays, audio asset "beep.wav".
    let c = config(&[(6, 0, &["Monday"])], "beep.wav");
    assert_eq!(c.audio_path, "beep.wav");
    let mut s = Scheduler::new(sample(5, 59, 58, Weekday::Mon), c);

    // 05:59:59 Mon — still the old minute: idle.
    assert!(!s.on_sample(sample(5, 59, 59, Weekday::Mon)));
    assert_eq!(s.state, PlayState::Idle);

    // 06:00:00 Mon — minute boundary and match: Idle -> Sounding.
    assert!(s.on_sample(sample(6, 0, 0, Weekday::Mon)));
    assert_eq!(s.state, PlayState::Sounding);

    // 06:00:01 Mon — same minute: no second start.
    assert!(!s.on_sample(sample(6, 0, 1, Weekday::Mon)));
    assert_eq!(s.state, PlayState::Sounding);

    // User stop: back to Idle (the caller drops its audio resources).
    s.stop();
    assert_eq!(s.state, PlayState::Idle);
}

#[test]
fn seconds_label_position() {
    // Clock label at y = 100 with height 180: the seconds label sits
    // 180 * 10 / 18 = 100 pixels lower.
    assert_eq!(calculate_seconds_y(100, 180), 200);
    assert_eq!(calculate_seconds_y(0, 0), 0);
    assert_eq!(calculate_seconds_y(250, 35), 250 + 350 / 18);
}
