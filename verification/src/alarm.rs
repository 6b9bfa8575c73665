//! The alarm scheduler: it keeps the alarm of the real-time clock armed, so
//! that redraws follow the minute boundaries of the wall clock.

use crate::clock::ClockTime;
use vstd::prelude::*;

verus! {

/// Which fields of the time the alarm compares. It always fires at second 0.
#[derive(Clone, Copy, Debug, PartialEq, Eq, Structural)]
pub enum Recurrence {
    /// At second 0 of every minute.
    OncePerMinute,
    /// Once per hour, when the minutes match.
    MinutesMatch,
    /// Once per day, when hours and minutes match.
    HoursAndMinutesMatch,
    /// Once per month, when day of month, hours and minutes match.
    AllMatch,
}

/// A recurring alarm condition. Fields that the recurrence does not compare
/// are ignored.
#[derive(Clone, Copy, Debug, PartialEq, Eq, Structural)]
pub struct AlarmPattern {
    pub recurrence: Recurrence,
    /// Day of the month, 1 to 31.
    pub day: u8,
    /// Hour of the day, 0 to 23.
    pub hour: u8,
    /// Minute of the hour, 0 to 59.
    pub minute: u8,
}

/// Why a pattern was not accepted.
#[derive(Clone, Copy, Debug, PartialEq, Eq, Structural)]
pub enum AlarmError {
    /// A field that the recurrence compares is out of its range.
    InvalidPattern,
}

/// The two states of the alarm.
#[derive(Clone, Copy, Debug, PartialEq, Eq, Structural)]
pub enum AlarmPhase {
    /// Armed: the clock is comparing, no match is indicated.
    Armed,
    /// A match is indicated and the interrupt line is asserted. The clock
    /// does not trigger again before the indication is cleared.
    Matched,
}

/// One request to the real-time clock.
#[derive(Clone, Copy, Debug, PartialEq, Eq, Structural)]
pub enum RtcCommand {
    /// Clear the match indication.
    ClearMatch,
    /// Program the alarm-compare registers.
    SetAlarm(AlarmPattern),
}

/// The scheduler's picture of the alarm: the programmed pattern and the phase.
#[derive(Clone, Copy, Debug, PartialEq, Eq, Structural)]
pub struct AlarmScheduler {
    pub pattern: AlarmPattern,
    pub phase: AlarmPhase,
}

/// The pattern that matches at second 0 of every minute.
pub open spec fn every_minute() -> AlarmPattern {
    AlarmPattern { recurrence: Recurrence::OncePerMinute, day: 1, hour: 0, minute: 0 }
}

/// The requests that re-arm the alarm with `pattern`: the indication is
/// cleared first, then the registers are programmed.
pub open spec fn rearm_commands(pattern: AlarmPattern) -> Seq<RtcCommand> {
    seq![RtcCommand::ClearMatch, RtcCommand::SetAlarm(pattern)]
}

impl AlarmPattern {
    /// Every field that the recurrence compares is in its range.
    pub open spec fn is_programmable(&self) -> bool {
        match self.recurrence {
            Recurrence::OncePerMinute => true,
            Recurrence::MinutesMatch => self.minute <= 59,
            Recurrence::HoursAndMinutesMatch => self.minute <= 59 && self.hour <= 23,
            Recurrence::AllMatch => self.minute <= 59 && self.hour <= 23 && 1 <= self.day <= 31,
        }
    }

    /// Whether the alarm condition holds at `time`.
    pub open spec fn matches_at(&self, time: ClockTime) -> bool {
        time.second == 0 && match self.recurrence {
            Recurrence::OncePerMinute => true,
            Recurrence::MinutesMatch => time.minute == self.minute,
            Recurrence::HoursAndMinutesMatch => time.minute == self.minute && time.hour
                == self.hour,
            Recurrence::AllMatch => time.minute == self.minute && time.hour == self.hour
                && time.day == self.day,
        }
    }

    /// The pattern that matches at second 0 of every minute.
    pub fn once_per_minute() -> (pattern: AlarmPattern)
        ensures
            pattern == every_minute(),
            pattern.is_programmable(),
    {
        AlarmPattern { recurrence: Recurrence::OncePerMinute, day: 1, hour: 0, minute: 0 }
    }

    /// Checks that every field that the recurrence compares is in its range.
    pub fn check(&self) -> (ok: bool)
        ensures
            ok == self.is_programmable(),
    {
        match self.recurrence {
            Recurrence::OncePerMinute => true,
            Recurrence::MinutesMatch => self.minute <= 59,
            Recurrence::HoursAndMinutesMatch => self.minute <= 59 && self.hour <= 23,
            Recurrence::AllMatch => self.minute <= 59 && self.hour <= 23 && 1 <= self.day
                && self.day <= 31,
        }
    }

    /// Decides whether the alarm condition holds at `time`.
    pub fn matches(&self, time: &ClockTime) -> (hit: bool)
        ensures
            hit == self.matches_at(*time),
    {
        time.second == 0 && match self.recurrence {
            Recurrence::OncePerMinute => true,
            Recurrence::MinutesMatch => time.minute == self.minute as u32,
            Recurrence::HoursAndMinutesMatch => time.minute == self.minute as u32 && time.hour
                == self.hour as u32,
            Recurrence::AllMatch => time.minute == self.minute as u32 && time.hour
                == self.hour as u32 && time.day == self.day as u32,
        }
    }
}

/// What one comparison of the clock at `time` leaves of the alarm: an armed
/// alarm whose pattern matches becomes matched; a matched one stays so.
pub open spec fn ticked(alarm: AlarmScheduler, time: ClockTime) -> AlarmScheduler {
    if alarm.phase == AlarmPhase::Armed && alarm.pattern.matches_at(time) {
        AlarmScheduler { pattern: alarm.pattern, phase: AlarmPhase::Matched }
    } else {
        alarm
    }
}

/// Whether the comparison at `time` raises the match indication, and with it
/// pulses the interrupt line.
pub open spec fn rises(alarm: AlarmScheduler, time: ClockTime) -> bool {
    alarm.phase == AlarmPhase::Armed && alarm.pattern.matches_at(time)
}

/// The alarm once a match, if one is indicated, has been handled: cleared and
/// armed again with the same pattern.
pub open spec fn serviced(alarm: AlarmScheduler) -> AlarmScheduler {
    AlarmScheduler { pattern: alarm.pattern, phase: AlarmPhase::Armed }
}

impl AlarmScheduler {
    /// The scheduler before the alarm has been armed. Whatever indication the
    /// clock still holds from earlier is taken to be set, so that the first
    /// arming clears it.
    pub fn new() -> (alarm: AlarmScheduler)
        ensures
            alarm.pattern == every_minute(),
            alarm.phase == AlarmPhase::Matched,
    {
        AlarmScheduler { pattern: AlarmPattern::once_per_minute(), phase: AlarmPhase::Matched }
    }

    /// Arms the alarm with `pattern`: returns the requests that clear a stale
    /// match indication and program the compare registers. A pattern with a
    /// compared field out of range is refused and changes nothing.
    pub fn arm_recurring(&mut self, pattern: AlarmPattern) -> (result: Result<
        Vec<RtcCommand>,
        AlarmError,
    >)
        ensures
            pattern.is_programmable() ==> result is Ok && result->Ok_0@ == rearm_commands(pattern)
                && *final(self) == (AlarmScheduler { pattern, phase: AlarmPhase::Armed }),
            !pattern.is_programmable() ==> result == Err::<Vec<RtcCommand>, AlarmError>(
                AlarmError::InvalidPattern,
            ) && *final(self) == *old(self),
    {
        if !pattern.check() {
            return Err(AlarmError::InvalidPattern);
        }
        self.pattern = pattern;
        self.phase = AlarmPhase::Armed;
        let mut commands: Vec<RtcCommand> = Vec::new();
        commands.push(RtcCommand::ClearMatch);
        commands.push(RtcCommand::SetAlarm(pattern));
        assert(commands@ =~= rearm_commands(pattern));
        Ok(commands)
    }

    /// Whether a match is indicated. Reading does not clear it.
    pub fn has_matched(&self) -> (matched: bool)
        ensures
            matched == (self.phase == AlarmPhase::Matched),
    {
        match self.phase {
            AlarmPhase::Matched => true,
            AlarmPhase::Armed => false,
        }
    }

    /// Clears the match indication: returns the request for the clock.
    pub fn clear_matched(&mut self) -> (command: RtcCommand)
        ensures
            command == RtcCommand::ClearMatch,
            *final(self) == serviced(*old(self)),
    {
        self.phase = AlarmPhase::Armed;
        RtcCommand::ClearMatch
    }

    /// Takes over the match indication that was just read from the clock.
    pub fn observe(&mut self, indication: bool)
        ensures
            final(self).pattern == old(self).pattern,
            final(self).phase == if indication {
                AlarmPhase::Matched
            } else {
                AlarmPhase::Armed
            },
    {
        self.phase = if indication {
            AlarmPhase::Matched
        } else {
            AlarmPhase::Armed
        };
    }

    /// What the clock does once per second: it compares `time` with the
    /// pattern. Tells whether the match indication rose, which pulses the
    /// interrupt line.
    pub fn tick(&mut self, time: &ClockTime) -> (rose: bool)
        ensures
            rose == rises(*old(self), *time),
            *final(self) == ticked(*old(self), *time),
    {
        let armed: bool = !self.has_matched();
        if armed && self.pattern.matches(time) {
            self.phase = AlarmPhase::Matched;
            true
        } else {
            false
        }
    }

    /// Handles one wake of the control loop: if the clock indicates a match,
    /// the indication is cleared and the alarm armed again with the pattern
    /// it had; without a match nothing is requested.
    pub fn service(&mut self, matched: bool) -> (commands: Vec<RtcCommand>)
        ensures
            commands@ == if matched {
                rearm_commands(old(self).pattern)
            } else {
                Seq::<RtcCommand>::empty()
            },
            final(self).pattern == old(self).pattern,
            final(self).phase == AlarmPhase::Armed,
    {
        let mut commands: Vec<RtcCommand> = Vec::new();
        self.observe(matched);
        if matched {
            commands.push(self.clear_matched());
            commands.push(RtcCommand::SetAlarm(self.pattern));
            assert(commands@ =~= rearm_commands(old(self).pattern));
        }
        commands
    }
}

/// Clears the match indication and arms the alarm for second 0 of every
/// minute: returns the two requests for the clock.
pub fn handle_alarm_every_minute(alarm: &mut AlarmScheduler) -> (commands: Vec<RtcCommand>)
    ensures
        commands@ == rearm_commands(every_minute()),
        *final(alarm) == (AlarmScheduler { pattern: every_minute(), phase: AlarmPhase::Armed }),
{
    match alarm.arm_recurring(AlarmPattern::once_per_minute()) {
        Ok(commands) => commands,
        Err(_) => Vec::new(),
    }
}

/// The alarm after the clock has compared the times of `times` one by one,
/// with nobody clearing the indication in between.
pub open spec fn after_ticks(alarm: AlarmScheduler, times: Seq<ClockTime>) -> AlarmScheduler
    decreases times.len(),
{
    if times.len() == 0 {
        alarm
    } else {
        ticked(after_ticks(alarm, times.drop_last()), times.last())
    }
}

/// How often the match indication rises while the clock compares the times
/// of `times` one by one, with nobody clearing it in between.
pub open spec fn rise_count(alarm: AlarmScheduler, times: Seq<ClockTime>) -> nat
    decreases times.len(),
{
    if times.len() == 0 {
        0
    } else {
        rise_count(alarm, times.drop_last()) + if rises(
            after_ticks(alarm, times.drop_last()),
            times.last(),
        ) {
            1nat
        } else {
            0nat
        }
    }
}

/// How often the match indication rises while the clock compares the times
/// of `times` one by one and the control loop handles every match before the
/// next comparison.
pub open spec fn serviced_rise_count(alarm: AlarmScheduler, times: Seq<ClockTime>) -> nat
    decreases times.len(),
{
    if times.len() == 0 {
        0
    } else {
        serviced_rise_count(alarm, times.drop_last()) + if rises(serviced(alarm), times.last()) {
            1nat
        } else {
            0nat
        }
    }
}

/// How many of the times of `times` stand on a minute boundary.
pub open spec fn minute_boundaries(times: Seq<ClockTime>) -> nat
    decreases times.len(),
{
    if times.len() == 0 {
        0
    } else {
        minute_boundaries(times.drop_last()) + if times.last().second == 0 {
            1nat
        } else {
            0nat
        }
    }
}

/// Between two clears the match indication rises at most once: once it is
/// set, no later comparison raises it again, whatever the pattern.
pub proof fn lemma_one_match_between_clears(alarm: AlarmScheduler, times: Seq<ClockTime>)
    ensures
        rise_count(alarm, times) <= 1,
        alarm.phase == AlarmPhase::Matched ==> rise_count(alarm, times) == 0 && after_ticks(
            alarm,
            times,
        ).phase == AlarmPhase::Matched,
        rise_count(alarm, times) == 1 ==> after_ticks(alarm, times).phase == AlarmPhase::Matched,
        after_ticks(alarm, times).phase == AlarmPhase::Armed ==> rise_count(alarm, times) == 0,
        after_ticks(alarm, times).pattern == alarm.pattern,
    decreases times.len(),
{
    if times.len() > 0 {
        lemma_one_match_between_clears(alarm, times.drop_last());
    }
}

/// With the once-per-minute pattern, and the loop clearing and re-arming
/// after every match, the indication rises exactly once for every minute
/// boundary that the clock passes.
pub proof fn lemma_once_per_minute_boundary(alarm: AlarmScheduler, times: Seq<ClockTime>)
    requires
        alarm.pattern == every_minute(),
    ensures
        serviced_rise_count(alarm, times) == minute_boundaries(times),
    decreases times.len(),
{
    if times.len() > 0 {
        lemma_once_per_minute_boundary(alarm, times.drop_last());
    }
}

} // verus!
