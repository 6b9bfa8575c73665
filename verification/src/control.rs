//! The control loop: what one iteration asks of the hardware, and what a
//! wake-up leads to.
//!
//! The loop itself runs outside this crate. It carries out the actions that
//! these functions return, in order, and feeds back what it observed.

use crate::alarm::{
    every_minute, handle_alarm_every_minute, rearm_commands, serviced, AlarmPhase,
    AlarmScheduler, RtcCommand,
};
use crate::bridge::{NotificationBridge, WaitLimit};
use crate::display::{
    command_views, display_message, lemma_toggles_add_modulo, message_commands, CommandView,
    DisplayCommand, DisplayMode, MODE_COUNT,
};
use crate::edges::{
    accepted, after_edge, after_edges, any_fires, deliver_edge, deliver_edges, drained,
    lemma_edges_coalesce, lemma_silent_source_is_not_delivered, occurrences, rearmed, source_at,
    EdgeFlagTable, EdgeSource, LineLevels, TableView, SOURCE_COUNT,
};
use vstd::prelude::*;

verus! {

/// How long the loop lets the lines settle after a wake, in milliseconds.
pub const SETTLE_MS: u32 = 100;

/// How long a message overlay stays on the display, in milliseconds.
pub const MESSAGE_HOLD_MS: u32 = 1000;

/// The source whose events step through the display modes.
pub open spec fn mode_toggle() -> EdgeSource {
    EdgeSource::ButtonA
}

/// One thing that the control loop asks of the world around it.
#[derive(Clone, Copy, Debug, PartialEq, Eq, Structural)]
pub enum Action {
    /// Arm the interrupt of a line.
    Arm(EdgeSource),
    /// Read the clock and the cells, and redraw the view of this mode.
    Redraw(DisplayMode),
    /// Suspend on the notification bridge.
    Wait(WaitLimit),
    /// Do nothing for this many milliseconds.
    Pause(u32),
    /// Send a request to the real-time clock.
    Rtc(RtcCommand),
    /// Blank the display.
    ClearDisplay,
    /// Show the message overlay of a source.
    ShowMessage(EdgeSource),
    /// Send the command with this code to the network, without waiting for
    /// the outcome.
    SendCommand(char),
}

/// The state that the control loop carries from one iteration to the next.
#[derive(Clone, Copy, Debug, PartialEq, Eq)]
pub struct ControlLoop {
    pub sources: EdgeFlagTable,
    pub bridge: NotificationBridge,
    pub alarm: AlarmScheduler,
    pub mode: DisplayMode,
}

/// The state of the control loop as a plain value.
pub struct LoopView {
    pub sources: TableView,
    pub bridge: NotificationBridge,
    pub alarm: AlarmScheduler,
    pub mode: DisplayMode,
}

impl View for ControlLoop {
    type V = LoopView;

    open spec fn view(&self) -> LoopView {
        LoopView {
            sources: self.sources@,
            bridge: self.bridge,
            alarm: self.alarm,
            mode: self.mode,
        }
    }
}

/// The requests that arm the first `count` lines of the scan order.
pub open spec fn arm_actions(count: int) -> Seq<Action>
    decreases count,
{
    if count <= 0 {
        Seq::empty()
    } else {
        match source_at(count - 1) {
            Some(source) => arm_actions(count - 1).push(Action::Arm(source)),
            None => arm_actions(count - 1),
        }
    }
}

/// What an iteration asks for before it looks at any flag: every line is
/// armed, whether or not it fired; the loop suspends until a signal arrives
/// and then lets the lines settle. Nothing is drawn before the wake.
pub open spec fn iteration_actions() -> Seq<Action> {
    arm_actions(SOURCE_COUNT as int) + seq![
        Action::Wait(WaitLimit::Forever),
        Action::Pause(SETTLE_MS),
    ]
}

/// The state after the first half of an iteration.
pub open spec fn begun(state: LoopView) -> LoopView {
    LoopView {
        sources: rearmed(state.sources),
        bridge: state.bridge,
        alarm: state.alarm,
        mode: state.mode,
    }
}

/// What the loop does for one delivered event. The mode toggle blanks the
/// display, so that the next redraw starts from an empty one. The other
/// buttons show their message, send their command and hold the message. The
/// alarm pulse asks for nothing here: the alarm is handled by its match
/// indication.
pub open spec fn event_actions(source: EdgeSource) -> Seq<Action> {
    if source == EdgeSource::AlarmPulse {
        Seq::empty()
    } else if source == mode_toggle() {
        seq![Action::ClearDisplay]
    } else {
        seq![
            Action::ShowMessage(source),
            Action::SendCommand(source.spec_label()),
            Action::Pause(MESSAGE_HOLD_MS),
        ]
    }
}

/// What the loop does for the delivered events, one after another.
pub open spec fn events_actions(events: Seq<EdgeSource>) -> Seq<Action>
    decreases events.len(),
{
    if events.len() == 0 {
        Seq::empty()
    } else {
        events_actions(events.drop_last()) + event_actions(events.last())
    }
}

/// The requests to the clock, as actions of the loop.
pub open spec fn rtc_actions(commands: Seq<RtcCommand>) -> Seq<Action> {
    Seq::new(commands.len(), |i: int| Action::Rtc(commands[i]))
}

/// What the loop does about the alarm after a wake: a match is cleared and
/// the alarm armed again with its pattern.
pub open spec fn alarm_actions(alarm: AlarmScheduler, matched: bool) -> Seq<Action> {
    if matched {
        rtc_actions(rearm_commands(alarm.pattern))
    } else {
        Seq::empty()
    }
}

/// Everything that one wake leads to: the alarm first, then the delivered
/// events in scan order, and at the end one redraw of the mode that is
/// selected once the events are handled. Every wake ends in exactly one
/// redraw, whether or not anything changed.
pub open spec fn dispatch_actions(state: LoopView, matched: bool, steady: Set<EdgeSource>) -> Seq<
    Action,
> {
    alarm_actions(state.alarm, matched) + events_actions(accepted(state.sources, steady)) + seq![
        Action::Redraw(dispatched(state, matched, steady).mode),
    ]
}

/// The state after a wake has been dispatched: the wake is consumed, the
/// alarm is armed, the flags of the delivered events are cleared, and the
/// mode has moved on once for every event of the mode toggle.
pub open spec fn dispatched(state: LoopView, matched: bool, steady: Set<EdgeSource>) -> LoopView {
    LoopView {
        sources: drained(state.sources, steady),
        bridge: NotificationBridge { pending: false },
        alarm: serviced(state.alarm),
        mode: state.mode.after_toggles(
            occurrences(accepted(state.sources, steady), mode_toggle()),
        ),
    }
}

fn push_event_actions(actions: &mut Vec<Action>, source: EdgeSource)
    ensures
        final(actions)@ == old(actions)@ + event_actions(source),
{
    match source {
        EdgeSource::AlarmPulse => {},
        EdgeSource::ButtonA => {
            actions.push(Action::ClearDisplay);
        },
        _ => {
            actions.push(Action::ShowMessage(source));
            actions.push(Action::SendCommand(source.label()));
            actions.push(Action::Pause(MESSAGE_HOLD_MS));
        },
    }
    assert(actions@ =~= old(actions)@ + event_actions(source));
}

fn push_rtc_actions(actions: &mut Vec<Action>, commands: &Vec<RtcCommand>)
    ensures
        final(actions)@ == old(actions)@ + rtc_actions(commands@),
{
    let mut done: usize = 0;
    while done < commands.len()
        invariant
            done <= commands.len(),
            actions@ == old(actions)@ + rtc_actions(commands@.take(done as int)),
        decreases commands.len() - done,
    {
        actions.push(Action::Rtc(commands[done]));
        assert(actions@ =~= old(actions)@ + rtc_actions(commands@.take(done + 1)));
        done = done + 1;
    }
    assert(commands@.take(done as int) =~= commands@);
}

impl ControlLoop {
    /// The state before start-up: nothing armed, nothing pending, the clock
    /// view selected.
    pub fn new() -> (state: ControlLoop)
        ensures
            state@.sources.armed == Set::<EdgeSource>::empty(),
            state@.sources.pending == Set::<EdgeSource>::empty(),
            !state.bridge.pending,
            state.alarm == (AlarmScheduler {
                pattern: every_minute(),
                phase: AlarmPhase::Matched,
            }),
            state.mode == DisplayMode::Clock,
    {
        ControlLoop {
            sources: EdgeFlagTable::new(),
            bridge: NotificationBridge::new(),
            alarm: AlarmScheduler::new(),
            mode: DisplayMode::Clock,
        }
    }

    /// Start-up, once, before the first iteration: the alarm is armed for
    /// every minute, which also clears a match left over from earlier.
    pub fn start(&mut self) -> (actions: Vec<Action>)
        ensures
            actions@ == rtc_actions(rearm_commands(every_minute())),
            final(self).alarm == (AlarmScheduler {
                pattern: every_minute(),
                phase: AlarmPhase::Armed,
            }),
            final(self).sources == old(self).sources,
            final(self).bridge == old(self).bridge,
            final(self).mode == old(self).mode,
    {
        let commands: Vec<RtcCommand> = handle_alarm_every_minute(&mut self.alarm);
        let mut actions: Vec<Action> = Vec::new();
        push_rtc_actions(&mut actions, &commands);
        assert(actions@ =~= rtc_actions(rearm_commands(every_minute())));
        actions
    }

    /// The first half of an iteration: arm every line, suspend, settle. Of
    /// the state only the arming changes, so that a second call in a row
    /// asks for the same and leaves the same.
    pub fn begin_iteration(&mut self) -> (actions: Vec<Action>)
        ensures
            actions@ == iteration_actions(),
            final(self)@ == begun(old(self)@),
    {
        let mut actions: Vec<Action> = Vec::new();
        let mut index: usize = 0;
        while index < SOURCE_COUNT
            invariant
                index <= SOURCE_COUNT,
                actions@ == arm_actions(index as int),
            decreases SOURCE_COUNT - index,
        {
            match EdgeSource::from_index(index) {
                Some(source) => {
                    actions.push(Action::Arm(source));
                },
                None => {},
            }
            index = index + 1;
        }
        self.sources.arm_all();
        actions.push(Action::Wait(WaitLimit::Forever));
        actions.push(Action::Pause(SETTLE_MS));
        assert(actions@ =~= iteration_actions());
        actions
    }

    /// Arming the line of `source` has failed: the line stays un-armed for
    /// this iteration, and the loop goes on.
    pub fn arm_failed(&mut self, source: EdgeSource)
        ensures
            final(self)@.sources.armed == old(self)@.sources.armed.remove(source),
            final(self)@.sources.pending == old(self)@.sources.pending,
            final(self).bridge == old(self).bridge,
            final(self).alarm == old(self).alarm,
            final(self).mode == old(self).mode,
    {
        self.sources.disarm(source);
    }

    /// One hardware edge on the line of `source`, as the interrupt controller
    /// and the handler treat it. Tells whether the handler ran.
    pub fn on_edge(&mut self, source: EdgeSource) -> (fired: bool)
        ensures
            fired == old(self)@.sources.armed.contains(source),
            final(self)@.sources == after_edge(old(self)@.sources, source),
            final(self).bridge.pending == (old(self).bridge.pending || fired),
            final(self).alarm == old(self).alarm,
            final(self).mode == old(self).mode,
    {
        deliver_edge(&mut self.sources, &mut self.bridge, source)
    }

    /// The edges that arrived while the loop was suspended, in the order of
    /// their arrival, each as `on_edge` treats it. Tells whether any handler
    /// ran, which is when the bridge wakes the loop.
    pub fn on_edges(&mut self, edges: &Vec<EdgeSource>) -> (fired: bool)
        ensures
            fired == any_fires(old(self)@.sources, edges@),
            final(self)@ == interrupted(old(self)@, edges@),
    {
        deliver_edges(&mut self.sources, &mut self.bridge, edges)
    }

    /// The second half of an iteration, after the wake and the settle time.
    /// `matched` is the match indication just read from the clock, `levels`
    /// what the lines read now. Returns what to do, in order; the last is
    /// the redraw.
    pub fn dispatch(&mut self, matched: bool, levels: &LineLevels) -> (actions: Vec<Action>)
        ensures
            actions@ == dispatch_actions(old(self)@, matched, levels@),
            final(self)@ == dispatched(old(self)@, matched, levels@),
    {
        let mut actions: Vec<Action> = Vec::new();
        self.bridge.pending = false;
        let commands: Vec<RtcCommand> = self.alarm.service(matched);
        push_rtc_actions(&mut actions, &commands);
        assert(actions@ =~= alarm_actions(old(self).alarm, matched));

        let events: Vec<EdgeSource> = self.sources.drain(levels);
        let mut done: usize = 0;
        while done < events.len()
            invariant
                done <= events.len(),
                actions@ == alarm_actions(old(self).alarm, matched) + events_actions(
                    events@.take(done as int),
                ),
                self.mode == old(self).mode.after_toggles(
                    occurrences(events@.take(done as int), mode_toggle()),
                ),
                self@.sources == drained(old(self)@.sources, levels@),
                self.bridge == (NotificationBridge { pending: false }),
                self.alarm == serviced(old(self).alarm),
            decreases events.len() - done,
        {
            assert(events@.take(done + 1).drop_last() =~= events@.take(done as int));
            let source: EdgeSource = events[done];
            push_event_actions(&mut actions, source);
            match source {
                EdgeSource::ButtonA => {
                    self.mode = self.mode.next();
                },
                _ => {},
            }
            done = done + 1;
        }
        assert(events@.take(done as int) =~= events@);
        actions.push(Action::Redraw(self.mode));
        assert(actions@ =~= dispatch_actions(old(self)@, matched, levels@));
        actions
    }
}

/// The state after the edges of `edges` have arrived while the loop was
/// suspended.
pub open spec fn interrupted(state: LoopView, edges: Seq<EdgeSource>) -> LoopView {
    LoopView {
        sources: after_edges(state.sources, edges),
        bridge: NotificationBridge {
            pending: state.bridge.pending || any_fires(state.sources, edges),
        },
        alarm: state.alarm,
        mode: state.mode,
    }
}

/// The state after one whole iteration in which the edges of `edges` arrived
/// during the wait.
pub open spec fn iterated(
    state: LoopView,
    edges: Seq<EdgeSource>,
    matched: bool,
    steady: Set<EdgeSource>,
) -> LoopView {
    dispatched(interrupted(begun(state), edges), matched, steady)
}

/// Beginning an iteration twice in a row is the same as beginning it once:
/// the requests do not depend on the state, and the state is the same.
pub proof fn lemma_begin_is_idempotent(state: LoopView)
    ensures
        begun(begun(state)) == begun(state),
        begun(state).mode == state.mode,
        begun(state).alarm == state.alarm,
        begun(state).sources.pending == state.sources.pending,
{
}

/// Every iteration arms every line, whether or not it fired before. So the
/// loop delivers exactly one event for a source of which one or more edges
/// arrived during the wait, however they were mixed with the edges of other
/// sources, provided the line is steady when the loop looks; and it leaves
/// the flag clear.
pub proof fn lemma_iteration_coalesces(
    state: LoopView,
    edges: Seq<EdgeSource>,
    matched: bool,
    steady: Set<EdgeSource>,
    source: EdgeSource,
)
    requires
        edges.contains(source),
        steady.contains(source),
    ensures
        occurrences(accepted(interrupted(begun(state), edges).sources, steady), source) == 1,
        !iterated(state, edges, matched, steady).sources.pending.contains(source),
        interrupted(begun(state), edges).bridge.pending,
{
    lemma_edges_coalesce(begun(state).sources, edges, steady, source);
    let at = choose|i: int| 0 <= i < edges.len() && edges[i] == source;
    assert(begun(state).sources.armed.contains(edges[at]));
}

/// One or more edges of the mode toggle during one wait move the display one
/// mode on, not more; an iteration without any, and with no flag of the
/// toggle left from earlier, leaves the mode as it is.
pub proof fn lemma_toggle_steps_once(
    state: LoopView,
    edges: Seq<EdgeSource>,
    matched: bool,
    steady: Set<EdgeSource>,
)
    ensures
        edges.contains(mode_toggle()) && steady.contains(mode_toggle()) ==> iterated(
            state,
            edges,
            matched,
            steady,
        ).mode == state.mode.spec_next(),
        !edges.contains(mode_toggle()) && !state.sources.pending.contains(mode_toggle())
            ==> iterated(state, edges, matched, steady).mode == state.mode,
{
    reveal_with_fuel(DisplayMode::after_toggles, 2);
    if edges.contains(mode_toggle()) && steady.contains(mode_toggle()) {
        lemma_edges_coalesce(begun(state).sources, edges, steady, mode_toggle());
    }
    if !edges.contains(mode_toggle()) && !state.sources.pending.contains(mode_toggle()) {
        lemma_silent_source_is_not_delivered(begun(state).sources, edges, steady, mode_toggle());
    }
}

/// How many of `actions` are redraws.
pub open spec fn redraw_count(actions: Seq<Action>) -> nat
    decreases actions.len(),
{
    if actions.len() == 0 {
        0
    } else {
        redraw_count(actions.drop_last()) + if actions.last() is Redraw {
            1nat
        } else {
            0nat
        }
    }
}

/// The redraws of two lists of actions in a row are those of the one and
/// those of the other.
pub proof fn lemma_redraw_count_adds(first: Seq<Action>, second: Seq<Action>)
    ensures
        redraw_count(first + second) == redraw_count(first) + redraw_count(second),
    decreases second.len(),
{
    if second.len() == 0 {
        assert(first + second =~= first);
    } else {
        assert((first + second).drop_last() =~= first + second.drop_last());
        assert((first + second).last() == second.last());
        lemma_redraw_count_adds(first, second.drop_last());
    }
}

proof fn lemma_arming_draws_nothing(count: int)
    ensures
        redraw_count(arm_actions(count)) == 0,
    decreases count,
{
    if count > 0 {
        lemma_arming_draws_nothing(count - 1);
        match source_at(count - 1) {
            Some(source) => {
                let earlier = arm_actions(count - 1);
                assert(earlier.push(Action::Arm(source)).drop_last() =~= earlier);
            },
            None => {},
        }
    }
}

proof fn lemma_events_draw_nothing(events: Seq<EdgeSource>)
    ensures
        redraw_count(events_actions(events)) == 0,
    decreases events.len(),
{
    if events.len() > 0 {
        lemma_events_draw_nothing(events.drop_last());
        lemma_redraw_count_adds(events_actions(events.drop_last()), event_actions(events.last()));
        reveal_with_fuel(redraw_count, 4);
    }
}

proof fn lemma_clock_requests_draw_nothing(commands: Seq<RtcCommand>)
    ensures
        redraw_count(rtc_actions(commands)) == 0,
    decreases commands.len(),
{
    if commands.len() > 0 {
        assert(rtc_actions(commands).drop_last() =~= rtc_actions(commands.drop_last()));
        lemma_clock_requests_draw_nothing(commands.drop_last());
    }
}

/// One redraw per wake. Nothing is drawn while the loop arms and waits; what
/// a wake leads to holds exactly one redraw, which comes last and draws the
/// mode that is selected once the events of the wake are handled.
pub proof fn lemma_one_redraw_per_wake(state: LoopView, matched: bool, steady: Set<EdgeSource>)
    ensures
        redraw_count(iteration_actions()) == 0,
        redraw_count(dispatch_actions(state, matched, steady)) == 1,
        dispatch_actions(state, matched, steady).last() == Action::Redraw(
            dispatched(state, matched, steady).mode,
        ),
{
    let waiting = seq![Action::Wait(WaitLimit::Forever), Action::Pause(SETTLE_MS)];
    lemma_arming_draws_nothing(SOURCE_COUNT as int);
    lemma_redraw_count_adds(arm_actions(SOURCE_COUNT as int), waiting);
    assert(redraw_count(waiting) == 0) by {
        reveal_with_fuel(redraw_count, 3);
    }

    let alarm = alarm_actions(state.alarm, matched);
    let events = events_actions(accepted(state.sources, steady));
    let drawing = seq![Action::Redraw(dispatched(state, matched, steady).mode)];
    if matched {
        lemma_clock_requests_draw_nothing(rearm_commands(state.alarm.pattern));
    }
    lemma_events_draw_nothing(accepted(state.sources, steady));
    lemma_redraw_count_adds(alarm, events);
    lemma_redraw_count_adds(alarm + events, drawing);
    assert(redraw_count(drawing) == 1) by {
        reveal_with_fuel(redraw_count, 2);
    }
}

/// The state after `presses` iterations, in each of which the mode toggle
/// was pressed once, or bounced any number of times, during the wait.
pub open spec fn after_presses(state: LoopView, presses: nat, steady: Set<EdgeSource>) -> LoopView
    decreases presses,
{
    if presses == 0 {
        state
    } else {
        iterated(
            after_presses(state, (presses - 1) as nat, steady),
            seq![mode_toggle()],
            false,
            steady,
        )
    }
}

/// Mode cycling. Starting in the first mode, the events of `presses` presses
/// of the mode toggle land in the mode whose position is `presses` modulo
/// the number of modes, provided the line is steady whenever the loop looks.
pub proof fn lemma_presses_cycle_modes(state: LoopView, presses: nat, steady: Set<EdgeSource>)
    requires
        state.mode == DisplayMode::Clock,
        steady.contains(mode_toggle()),
    ensures
        after_presses(state, presses, steady).mode == state.mode.after_toggles(presses),
        after_presses(state, presses, steady).mode.spec_index() == presses % (MODE_COUNT as nat),
    decreases presses,
{
    if presses > 0 {
        let before = after_presses(state, (presses - 1) as nat, steady);
        lemma_presses_cycle_modes(state, (presses - 1) as nat, steady);
        assert(seq![mode_toggle()][0] == mode_toggle());
        lemma_toggle_steps_once(before, seq![mode_toggle()], false, steady);
    }
    lemma_toggles_add_modulo(state.mode, presses);
}

/// The two lines of the message overlay of `source`. The mode toggle and the
/// alarm pulse have none.
pub open spec fn overlay_lines(source: EdgeSource) -> Option<(Seq<char>, Seq<char>)> {
    match source {
        EdgeSource::AlarmPulse => None,
        EdgeSource::ButtonA => None,
        EdgeSource::ButtonB => Some(("TURN ON/OFF AC"@, ""@)),
        EdgeSource::ButtonC => Some(("TURN ON/OFF"@, "   AIR FILTER"@)),
        EdgeSource::ButtonD => Some(("LIGHT MODE"@, "   DAY"@)),
        EdgeSource::ButtonE => Some(("LIGHT MODE"@, "  NIGHT"@)),
        EdgeSource::ButtonF => Some(("TURN ON/OFF LIGHT"@, ""@)),
        EdgeSource::ButtonG => Some(("EMPTY FUNCTION"@, ""@)),
        EdgeSource::ButtonH => Some(("EMPTY FUNCTION"@, ""@)),
    }
}

/// The display requests of the message overlay of `source`: none where the
/// source has no overlay.
pub open spec fn overlay_commands(source: EdgeSource) -> Seq<CommandView> {
    match overlay_lines(source) {
        Some(lines) => message_commands(lines.0, lines.1),
        None => Seq::empty(),
    }
}

/// The two lines of the message overlay of `source`, if it has one.
pub fn overlay_text(source: EdgeSource) -> (lines: Option<(&'static str, &'static str)>)
    ensures
        lines is Some <==> overlay_lines(source) is Some,
        lines matches Some(text) ==> overlay_lines(source) == Some((text.0@, text.1@)),
{
    match source {
        EdgeSource::AlarmPulse => None,
        EdgeSource::ButtonA => None,
        EdgeSource::ButtonB => Some(("TURN ON/OFF AC", "")),
        EdgeSource::ButtonC => Some(("TURN ON/OFF", "   AIR FILTER")),
        EdgeSource::ButtonD => Some(("LIGHT MODE", "   DAY")),
        EdgeSource::ButtonE => Some(("LIGHT MODE", "  NIGHT")),
        EdgeSource::ButtonF => Some(("TURN ON/OFF LIGHT", "")),
        EdgeSource::ButtonG => Some(("EMPTY FUNCTION", "")),
        EdgeSource::ButtonH => Some(("EMPTY FUNCTION", "")),
    }
}

/// The display requests that carry out `Action::ShowMessage(source)`.
pub fn show_message(source: EdgeSource) -> (commands: Vec<DisplayCommand>)
    ensures
        command_views(commands@) == overlay_commands(source),
{
    match overlay_text(source) {
        Some(lines) => display_message(lines.0, lines.1),
        None => {
            let commands: Vec<DisplayCommand> = Vec::new();
            assert(command_views(commands@) =~= overlay_commands(source));
            commands
        },
    }
}

} // verus!
