use clock_panel::alarm::{
    handle_alarm_every_minute, AlarmError, AlarmPattern, AlarmPhase, AlarmScheduler, Recurrence,
    RtcCommand,
};
use clock_panel::clock::ClockTime;

fn at(day: u32, hour: u32, minute: u32, second: u32) -> ClockTime {
    ClockTime { year: 2024, month: 3, day, hour, minute, second }
}

fn pattern(recurrence: Recurrence, day: u8, hour: u8, minute: u8) -> AlarmPattern {
    AlarmPattern { recurrence, day, hour, minute }
}

fn every_minute() -> AlarmPattern {
    pattern(Recurrence::OncePerMinute, 1, 0, 0)
}

#[test]
fn once_per_minute_pattern() {
    assert_eq!(AlarmPattern::once_per_minute(), every_minute());
    assert!(AlarmPattern::once_per_minute().check());
}

#[test]
fn pattern_check_looks_at_compared_fields_only() {
    assert!(pattern(Recurrence::OncePerMinute, 0, 99, 99).check());
    assert!(pattern(Recurrence::MinutesMatch, 0, 99, 59).check());
    assert!(!pattern(Recurrence::MinutesMatch, 1, 0, 60).check());
    assert!(pattern(Recurrence::HoursAndMinutesMatch, 0, 23, 59).check());
    assert!(!pattern(Recurrence::HoursAndMinutesMatch, 1, 24, 0).check());
    assert!(!pattern(Recurrence::HoursAndMinutesMatch, 1, 0, 60).check());
    assert!(pattern(Recurrence::AllMatch, 1, 0, 0).check());
    assert!(pattern(Recurrence::AllMatch, 31, 23, 59).check());
    assert!(!pattern(Recurrence::AllMatch, 0, 0, 0).check());
    assert!(!pattern(Recurrence::AllMatch, 32, 0, 0).check());
    assert!(!pattern(Recurrence::AllMatch, 1, 24, 0).check());
    assert!(!pattern(Recurrence::AllMatch, 1, 0, 60).check());
}

#[test]
fn patterns_match_at_second_zero_only() {
    let patterns = [
        every_minute(),
        pattern(Recurrence::MinutesMatch, 1, 0, 30),
        pattern(Recurrence::HoursAndMinutesMatch, 1, 12, 30),
        pattern(Recurrence::AllMatch, 5, 12, 30),
    ];
    for pattern in patterns {
        assert!(pattern.matches(&at(5, 12, 30, 0)));
        assert!(!pattern.matches(&at(5, 12, 30, 1)));
        assert!(!pattern.matches(&at(5, 12, 30, 59)));
    }
}

#[test]
fn patterns_compare_their_fields() {
    assert!(every_minute().matches(&at(9, 3, 17, 0)));
    let minutes = pattern(Recurrence::MinutesMatch, 1, 0, 30);
    assert!(minutes.matches(&at(9, 3, 30, 0)));
    assert!(!minutes.matches(&at(9, 3, 31, 0)));
    let hours = pattern(Recurrence::HoursAndMinutesMatch, 1, 12, 30);
    assert!(hours.matches(&at(9, 12, 30, 0)));
    assert!(!hours.matches(&at(9, 13, 30, 0)));
    assert!(!hours.matches(&at(9, 12, 29, 0)));
    let all = pattern(Recurrence::AllMatch, 5, 12, 30);
    assert!(all.matches(&at(5, 12, 30, 0)));
    assert!(!all.matches(&at(6, 12, 30, 0)));
    assert!(!all.matches(&at(5, 11, 30, 0)));
    assert!(!all.matches(&at(5, 12, 31, 0)));
}

#[test]
fn new_scheduler_takes_a_stale_match_for_set() {
    let alarm = AlarmScheduler::new();
    assert_eq!(alarm.pattern, every_minute());
    assert_eq!(alarm.phase, AlarmPhase::Matched);
    assert!(alarm.has_matched());
}

#[test]
fn arming_clears_then_programs() {
    let mut alarm = AlarmScheduler::new();
    let wanted = pattern(Recurrence::HoursAndMinutesMatch, 1, 6, 45);
    assert_eq!(
        alarm.arm_recurring(wanted),
        Ok(vec![RtcCommand::ClearMatch, RtcCommand::SetAlarm(wanted)])
    );
    assert_eq!(alarm, AlarmScheduler { pattern: wanted, phase: AlarmPhase::Armed });
    assert!(!alarm.has_matched());
}

#[test]
fn arming_refuses_a_pattern_out_of_range() {
    let mut alarm = AlarmScheduler::new();
    let before = alarm;
    assert_eq!(
        alarm.arm_recurring(pattern(Recurrence::MinutesMatch, 1, 0, 60)),
        Err(AlarmError::InvalidPattern)
    );
    assert_eq!(alarm, before);
}

#[test]
fn handle_alarm_every_minute_rearms() {
    let mut alarm = AlarmScheduler {
        pattern: pattern(Recurrence::AllMatch, 5, 12, 30),
        phase: AlarmPhase::Matched,
    };
    assert_eq!(
        handle_alarm_every_minute(&mut alarm),
        vec![RtcCommand::ClearMatch, RtcCommand::SetAlarm(every_minute())]
    );
    assert_eq!(alarm, AlarmScheduler { pattern: every_minute(), phase: AlarmPhase::Armed });
}

#[test]
fn has_matched_does_not_clear() {
    let mut alarm = AlarmScheduler::new();
    alarm.arm_recurring(every_minute()).unwrap();
    assert!(alarm.tick(&at(5, 12, 30, 0)));
    assert!(alarm.has_matched());
    assert!(alarm.has_matched());
    assert_eq!(alarm.clear_matched(), RtcCommand::ClearMatch);
    assert!(!alarm.has_matched());
}

#[test]
fn observe_follows_the_clock() {
    let mut alarm = AlarmScheduler::new();
    alarm.observe(false);
    assert_eq!(alarm.phase, AlarmPhase::Armed);
    alarm.observe(true);
    assert_eq!(alarm.phase, AlarmPhase::Matched);
    assert_eq!(alarm.pattern, every_minute());
}

#[test]
fn match_rises_once_until_it_is_cleared() {
    let mut alarm = AlarmScheduler::new();
    alarm.arm_recurring(every_minute()).unwrap();
    let mut rises = 0;
    for minute in 0..10 {
        for second in 0..60 {
            if alarm.tick(&at(5, 12, minute, second)) {
                rises += 1;
            }
        }
    }
    assert_eq!(rises, 1);
    assert!(alarm.has_matched());
}

#[test]
fn serviced_alarm_matches_once_per_minute_boundary() {
    let mut alarm = AlarmScheduler::new();
    alarm.arm_recurring(every_minute()).unwrap();
    let mut rises = 0;
    // From 12:00:30 to 12:10:29: ten minute boundaries.
    for step in 30..630u32 {
        let rose = alarm.tick(&at(5, 12, step / 60, step % 60));
        assert_eq!(rose, step % 60 == 0);
        if rose {
            rises += 1;
        }
        let commands = alarm.service(alarm.has_matched());
        assert_eq!(commands.len(), if rose { 2 } else { 0 });
    }
    assert_eq!(rises, 10);
}

#[test]
fn service_without_a_match_asks_for_nothing() {
    let mut alarm = AlarmScheduler::new();
    alarm.arm_recurring(every_minute()).unwrap();
    assert_eq!(alarm.service(false), vec![]);
    assert_eq!(alarm.phase, AlarmPhase::Armed);
}

#[test]
fn service_rearms_with_the_pattern_it_had() {
    let wanted = pattern(Recurrence::MinutesMatch, 1, 0, 15);
    let mut alarm = AlarmScheduler::new();
    alarm.arm_recurring(wanted).unwrap();
    assert!(alarm.tick(&at(5, 12, 15, 0)));
    assert_eq!(
        alarm.service(true),
        vec![RtcCommand::ClearMatch, RtcCommand::SetAlarm(wanted)]
    );
    assert_eq!(alarm, AlarmScheduler { pattern: wanted, phase: AlarmPhase::Armed });
}
