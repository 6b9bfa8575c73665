//! Edge sources and the edge flag table: which line fired since the control
//! loop last looked, and which lines may interrupt at all.

use crate::bridge::NotificationBridge;
use vstd::prelude::*;

verus! {

/// How many edge sources there are.
pub const SOURCE_COUNT: usize = 9;

/// The transition of a line on which its source fires.
#[derive(Clone, Copy, Debug, PartialEq, Eq, Structural)]
pub enum TriggerEdge {
    Rising,
    Falling,
}

/// The level of a digital input line.
#[derive(Clone, Copy, Debug, PartialEq, Eq, Structural)]
pub enum Level {
    Low,
    High,
}

/// The external signal lines, in the order in which the control loop scans
/// them: the alarm pulse of the real-time clock, then eight push-buttons.
#[derive(Clone, Copy, Debug, PartialEq, Eq, Structural)]
pub enum EdgeSource {
    AlarmPulse,
    ButtonA,
    ButtonB,
    ButtonC,
    ButtonD,
    ButtonE,
    ButtonF,
    ButtonG,
    ButtonH,
}

/// The source at position `index` of the fixed scan order, if there is one.
pub open spec fn source_at(index: int) -> Option<EdgeSource> {
    if index == 0 {
        Some(EdgeSource::AlarmPulse)
    } else if index == 1 {
        Some(EdgeSource::ButtonA)
    } else if index == 2 {
        Some(EdgeSource::ButtonB)
    } else if index == 3 {
        Some(EdgeSource::ButtonC)
    } else if index == 4 {
        Some(EdgeSource::ButtonD)
    } else if index == 5 {
        Some(EdgeSource::ButtonE)
    } else if index == 6 {
        Some(EdgeSource::ButtonF)
    } else if index == 7 {
        Some(EdgeSource::ButtonG)
    } else if index == 8 {
        Some(EdgeSource::ButtonH)
    } else {
        None
    }
}

/// The source that the label names: `a` to `h` for the buttons, `q` for the
/// alarm pulse.
pub open spec fn source_of_label(label: char) -> Option<EdgeSource> {
    if label == 'a' {
        Some(EdgeSource::ButtonA)
    } else if label == 'b' {
        Some(EdgeSource::ButtonB)
    } else if label == 'c' {
        Some(EdgeSource::ButtonC)
    } else if label == 'd' {
        Some(EdgeSource::ButtonD)
    } else if label == 'e' {
        Some(EdgeSource::ButtonE)
    } else if label == 'f' {
        Some(EdgeSource::ButtonF)
    } else if label == 'g' {
        Some(EdgeSource::ButtonG)
    } else if label == 'h' {
        Some(EdgeSource::ButtonH)
    } else if label == 'q' {
        Some(EdgeSource::AlarmPulse)
    } else {
        None
    }
}

/// The button that the label names: `a` to `h`. No other label names a
/// button, the label of the alarm pulse included.
pub open spec fn button_of_label(label: char) -> Option<EdgeSource> {
    match source_of_label(label) {
        Some(EdgeSource::AlarmPulse) => None,
        named => named,
    }
}

impl EdgeSource {
    /// The position of the source in the fixed scan order.
    pub open spec fn spec_index(self) -> int {
        match self {
            EdgeSource::AlarmPulse => 0,
            EdgeSource::ButtonA => 1,
            EdgeSource::ButtonB => 2,
            EdgeSource::ButtonC => 3,
            EdgeSource::ButtonD => 4,
            EdgeSource::ButtonE => 5,
            EdgeSource::ButtonF => 6,
            EdgeSource::ButtonG => 7,
            EdgeSource::ButtonH => 8,
        }
    }

    /// The stable one-character label of the source.
    pub open spec fn spec_label(self) -> char {
        match self {
            EdgeSource::ButtonA => 'a',
            EdgeSource::ButtonB => 'b',
            EdgeSource::ButtonC => 'c',
            EdgeSource::ButtonD => 'd',
            EdgeSource::ButtonE => 'e',
            EdgeSource::ButtonF => 'f',
            EdgeSource::ButtonG => 'g',
            EdgeSource::ButtonH => 'h',
            EdgeSource::AlarmPulse => 'q',
        }
    }

    /// The edge on which the source fires: the buttons on the rising edge,
    /// the alarm pulse, which is active low, on the falling one.
    pub open spec fn spec_trigger(self) -> TriggerEdge {
        if self == EdgeSource::AlarmPulse {
            TriggerEdge::Falling
        } else {
            TriggerEdge::Rising
        }
    }

    /// The level that the line of the source reads once a real event has
    /// settled: low, for every source.
    pub open spec fn spec_steady_level(self) -> Level {
        Level::Low
    }

    /// The position of the source in the fixed scan order.
    pub fn index(self) -> (index: usize)
        ensures
            index == self.spec_index(),
            index < SOURCE_COUNT,
            source_at(index as int) == Some(self),
    {
        match self {
            EdgeSource::AlarmPulse => 0,
            EdgeSource::ButtonA => 1,
            EdgeSource::ButtonB => 2,
            EdgeSource::ButtonC => 3,
            EdgeSource::ButtonD => 4,
            EdgeSource::ButtonE => 5,
            EdgeSource::ButtonF => 6,
            EdgeSource::ButtonG => 7,
            EdgeSource::ButtonH => 8,
        }
    }

    /// The source at position `index` of the scan order; `None` past the last.
    pub fn from_index(index: usize) -> (source: Option<EdgeSource>)
        ensures
            source == source_at(index as int),
            source is Some <==> index < SOURCE_COUNT,
            source matches Some(s) ==> s.spec_index() == index,
    {
        match index {
            0 => Some(EdgeSource::AlarmPulse),
            1 => Some(EdgeSource::ButtonA),
            2 => Some(EdgeSource::ButtonB),
            3 => Some(EdgeSource::ButtonC),
            4 => Some(EdgeSource::ButtonD),
            5 => Some(EdgeSource::ButtonE),
            6 => Some(EdgeSource::ButtonF),
            7 => Some(EdgeSource::ButtonG),
            8 => Some(EdgeSource::ButtonH),
            _ => None,
        }
    }

    /// The stable one-character label of the source.
    pub fn label(self) -> (label: char)
        ensures
            label == self.spec_label(),
            source_of_label(label) == Some(self),
    {
        match self {
            EdgeSource::ButtonA => 'a',
            EdgeSource::ButtonB => 'b',
            EdgeSource::ButtonC => 'c',
            EdgeSource::ButtonD => 'd',
            EdgeSource::ButtonE => 'e',
            EdgeSource::ButtonF => 'f',
            EdgeSource::ButtonG => 'g',
            EdgeSource::ButtonH => 'h',
            EdgeSource::AlarmPulse => 'q',
        }
    }

    /// The source that `label` names, if it names one.
    pub fn from_label(label: char) -> (source: Option<EdgeSource>)
        ensures
            source == source_of_label(label),
            source matches Some(s) ==> s.spec_label() == label,
    {
        match label {
            'a' => Some(EdgeSource::ButtonA),
            'b' => Some(EdgeSource::ButtonB),
            'c' => Some(EdgeSource::ButtonC),
            'd' => Some(EdgeSource::ButtonD),
            'e' => Some(EdgeSource::ButtonE),
            'f' => Some(EdgeSource::ButtonF),
            'g' => Some(EdgeSource::ButtonG),
            'h' => Some(EdgeSource::ButtonH),
            'q' => Some(EdgeSource::AlarmPulse),
            _ => None,
        }
    }

    /// The button that `label` names, if it names one.
    pub fn button_from_label(label: char) -> (button: Option<EdgeSource>)
        ensures
            button == button_of_label(label),
    {
        match Self::from_label(label) {
            Some(EdgeSource::AlarmPulse) => None,
            named => named,
        }
    }

    /// The level that the line of the source reads once a real event has
    /// settled. A flag whose line reads the other level was set by a
    /// transient and is not acted on.
    pub fn steady_level(self) -> (level: Level)
        ensures
            level == self.spec_steady_level(),
    {
        Level::Low
    }

    /// The edge on which the source fires.
    pub fn trigger(self) -> (edge: TriggerEdge)
        ensures
            edge == self.spec_trigger(),
    {
        match self {
            EdgeSource::AlarmPulse => TriggerEdge::Falling,
            _ => TriggerEdge::Rising,
        }
    }
}

/// The flag table as a plain value: the sources that may interrupt, and the
/// sources whose edge is recorded and not yet acted on.
pub struct TableView {
    pub armed: Set<EdgeSource>,
    pub pending: Set<EdgeSource>,
}

/// One flag per edge source, set in interrupt context and cleared by the
/// control loop, beside the arming of each line. A line that fires is
/// un-armed until the loop arms it again, so that bounces after the first
/// edge never reach the table.
#[derive(Clone, Copy, Debug, PartialEq, Eq)]
pub struct EdgeFlagTable {
    pub armed: [bool; SOURCE_COUNT],
    pub pending: [bool; SOURCE_COUNT],
}

impl View for EdgeFlagTable {
    type V = TableView;

    open spec fn view(&self) -> TableView {
        TableView {
            armed: Set::new(|s: EdgeSource| self.armed@[s.spec_index()]),
            pending: Set::new(|s: EdgeSource| self.pending@[s.spec_index()]),
        }
    }
}

/// What the handler of `source` does to the table: it records the edge.
pub open spec fn raised(table: TableView, source: EdgeSource) -> TableView {
    TableView { armed: table.armed, pending: table.pending.insert(source) }
}

/// What one hardware edge on the line of `source` does: an armed line fires,
/// is un-armed and has its edge recorded; an un-armed line ignores the edge.
pub open spec fn after_edge(table: TableView, source: EdgeSource) -> TableView {
    if table.armed.contains(source) {
        TableView { armed: table.armed.remove(source), pending: table.pending.insert(source) }
    } else {
        table
    }
}

/// The table after the edges of `edges` have arrived one by one, first first.
pub open spec fn after_edges(table: TableView, edges: Seq<EdgeSource>) -> TableView
    decreases edges.len(),
{
    if edges.len() == 0 {
        table
    } else {
        after_edge(after_edges(table, edges.drop_last()), edges.last())
    }
}

/// The table once the control loop has armed every line again.
pub open spec fn rearmed(table: TableView) -> TableView {
    TableView { armed: Set::full(), pending: table.pending }
}

impl EdgeFlagTable {
    /// A table with no line armed and no edge recorded.
    pub fn new() -> (table: EdgeFlagTable)
        ensures
            table@.armed == Set::<EdgeSource>::empty(),
            table@.pending == Set::<EdgeSource>::empty(),
    {
        let table = EdgeFlagTable { armed: [false; SOURCE_COUNT], pending: [false; SOURCE_COUNT] };
        assert(table@.armed =~= Set::<EdgeSource>::empty());
        assert(table@.pending =~= Set::<EdgeSource>::empty());
        table
    }

    /// Whether an edge of `source` is recorded and not yet acted on.
    pub fn is_pending(&self, source: EdgeSource) -> (pending: bool)
        ensures
            pending == self@.pending.contains(source),
    {
        self.pending[source.index()]
    }

    /// Whether the line of `source` may interrupt.
    pub fn is_armed(&self, source: EdgeSource) -> (armed: bool)
        ensures
            armed == self@.armed.contains(source),
    {
        self.armed[source.index()]
    }

    /// Arms the line of `source`.
    pub fn arm(&mut self, source: EdgeSource)
        ensures
            final(self)@.armed == old(self)@.armed.insert(source),
            final(self)@.pending == old(self)@.pending,
    {
        let index: usize = source.index();
        self.armed[index] = true;
        assert(self@.armed =~= old(self)@.armed.insert(source));
        assert(self@.pending =~= old(self)@.pending);
    }

    /// Un-arms the line of `source`, as when arming it has failed.
    pub fn disarm(&mut self, source: EdgeSource)
        ensures
            final(self)@.armed == old(self)@.armed.remove(source),
            final(self)@.pending == old(self)@.pending,
    {
        let index: usize = source.index();
        self.armed[index] = false;
        assert(self@.armed =~= old(self)@.armed.remove(source));
        assert(self@.pending =~= old(self)@.pending);
    }

    /// Arms every line, whether or not it fired since it was last armed.
    pub fn arm_all(&mut self)
        ensures
            final(self)@ == rearmed(old(self)@),
    {
        self.armed = [true; SOURCE_COUNT];
        assert(self@.armed =~= Set::<EdgeSource>::full());
        assert(self@.pending =~= old(self)@.pending);
    }

    /// Records an edge of `source`. Recording a second one before the first
    /// is cleared changes nothing.
    pub fn raise(&mut self, source: EdgeSource)
        ensures
            final(self)@ == raised(old(self)@, source),
    {
        let index: usize = source.index();
        self.pending[index] = true;
        assert(self@.pending =~= old(self)@.pending.insert(source));
        assert(self@.armed =~= old(self)@.armed);
    }

    /// Clears the flag of `source` once its event has been acted on.
    pub fn clear(&mut self, source: EdgeSource)
        ensures
            final(self)@.pending == old(self)@.pending.remove(source),
            final(self)@.armed == old(self)@.armed,
    {
        let index: usize = source.index();
        self.pending[index] = false;
        assert(self@.pending =~= old(self)@.pending.remove(source));
        assert(self@.armed =~= old(self)@.armed);
    }

    /// A hardware edge on the line of `source`. Tells whether the line fired,
    /// which it does only while armed; firing un-arms it.
    pub fn fire(&mut self, source: EdgeSource) -> (fired: bool)
        ensures
            fired == old(self)@.armed.contains(source),
            final(self)@.armed == old(self)@.armed.remove(source),
            final(self)@.pending == old(self)@.pending,
    {
        let index: usize = source.index();
        let fired: bool = self.armed[index];
        self.armed[index] = false;
        assert(self@.armed =~= old(self)@.armed.remove(source));
        assert(self@.pending =~= old(self)@.pending);
        fired
    }
}

/// What the lines read when the control loop looks at them: for each source,
/// whether its line is at the level expected once a real event has settled.
#[derive(Clone, Copy, Debug, PartialEq, Eq)]
pub struct LineLevels {
    pub steady: [bool; SOURCE_COUNT],
}

impl View for LineLevels {
    type V = Set<EdgeSource>;

    open spec fn view(&self) -> Set<EdgeSource> {
        Set::new(|s: EdgeSource| self.steady@[s.spec_index()])
    }
}

impl LineLevels {
    /// The levels for which no line is steady.
    pub fn none() -> (levels: LineLevels)
        ensures
            levels@ == Set::<EdgeSource>::empty(),
    {
        let levels = LineLevels { steady: [false; SOURCE_COUNT] };
        assert(levels@ =~= Set::<EdgeSource>::empty());
        levels
    }

    /// Takes down what the line of `source` reads.
    pub fn record(&mut self, source: EdgeSource, level: Level)
        ensures
            final(self)@ == if level == source.spec_steady_level() {
                old(self)@.insert(source)
            } else {
                old(self)@.remove(source)
            },
    {
        let index: usize = source.index();
        let steady: bool = match level {
            Level::Low => true,
            Level::High => false,
        };
        self.steady[index] = steady;
        assert(self@ =~= if level == source.spec_steady_level() {
            old(self)@.insert(source)
        } else {
            old(self)@.remove(source)
        });
    }

    /// Whether the line of `source` reads its expected steady level.
    pub fn is_steady(&self, source: EdgeSource) -> (steady: bool)
        ensures
            steady == self@.contains(source),
    {
        self.steady[source.index()]
    }
}

/// The control loop acts on a source when its flag is set and its line reads
/// the expected steady level.
pub open spec fn accepts(table: TableView, steady: Set<EdgeSource>, source: EdgeSource) -> bool {
    table.pending.contains(source) && steady.contains(source)
}

/// The sources among the first `count` of the scan order that the loop acts
/// on, in scan order.
pub open spec fn accepted_before(table: TableView, steady: Set<EdgeSource>, count: int) -> Seq<
    EdgeSource,
>
    decreases count,
{
    if count <= 0 {
        Seq::empty()
    } else {
        let earlier = accepted_before(table, steady, count - 1);
        match source_at(count - 1) {
            Some(source) => if accepts(table, steady, source) {
                earlier.push(source)
            } else {
                earlier
            },
            None => earlier,
        }
    }
}

/// The events that one scan of the table delivers, in scan order.
pub open spec fn accepted(table: TableView, steady: Set<EdgeSource>) -> Seq<EdgeSource> {
    accepted_before(table, steady, SOURCE_COUNT as int)
}

/// The table after a scan: the flags of the delivered events are cleared, a
/// flag whose line was not steady stays set for a later scan.
pub open spec fn drained(table: TableView, steady: Set<EdgeSource>) -> TableView {
    TableView { armed: table.armed, pending: table.pending.difference(steady) }
}

/// How often `source` stands in `events`.
pub open spec fn occurrences(events: Seq<EdgeSource>, source: EdgeSource) -> nat
    decreases events.len(),
{
    if events.len() == 0 {
        0
    } else {
        occurrences(events.drop_last(), source) + if events.last() == source {
            1nat
        } else {
            0nat
        }
    }
}

impl EdgeFlagTable {
    /// One scan by the control loop: every source whose flag is set and
    /// whose line is steady is delivered once, in scan order, and its flag
    /// is cleared.
    pub fn drain(&mut self, levels: &LineLevels) -> (events: Vec<EdgeSource>)
        ensures
            events@ == accepted(old(self)@, levels@),
            final(self)@ == drained(old(self)@, levels@),
    {
        let mut events: Vec<EdgeSource> = Vec::new();
        let mut index: usize = 0;
        while index < SOURCE_COUNT
            invariant
                index <= SOURCE_COUNT,
                events@ == accepted_before(old(self)@, levels@, index as int),
                self.armed == old(self).armed,
                forall|i: int|
                    0 <= i < SOURCE_COUNT ==> #[trigger] self.pending@[i] == (old(
                        self,
                    ).pending@[i] && !(i < index && levels.steady@[i])),
            decreases SOURCE_COUNT - index,
        {
            match EdgeSource::from_index(index) {
                Some(source) => {
                    if self.is_pending(source) && levels.is_steady(source) {
                        self.pending[index] = false;
                        events.push(source);
                    }
                },
                None => {},
            }
            index = index + 1;
        }
        assert forall|s: EdgeSource|
            self@.pending.contains(s) == old(self)@.pending.difference(levels@).contains(
                s,
            ) by {
            let i = s.spec_index();
            assert(0 <= i < SOURCE_COUNT);
            assert(self.pending@[i] == (old(self).pending@[i] && !levels.steady@[i]));
        }
        assert(self@.pending =~= old(self)@.pending.difference(levels@));
        assert(self@.armed =~= old(self)@.armed);
        events
    }
}

/// The interrupt handler of a button: it records the edge of the button that
/// `button` names and signals the bridge. Any label but `a` to `h` names no
/// button and sets no flag; the bridge is signalled all the same.
pub fn handle_button_default(
    table: &mut EdgeFlagTable,
    bridge: &mut NotificationBridge,
    button: char,
)
    ensures
        final(table)@ == match button_of_label(button) {
            Some(source) => raised(old(table)@, source),
            None => old(table)@,
        },
        final(bridge).pending,
{
    match EdgeSource::button_from_label(button) {
        Some(source) => {
            table.raise(source);
        },
        None => {},
    }
    bridge.signal();
}

/// The interrupt handler of the alarm pulse: it records the edge and signals
/// the bridge.
pub fn handle_sqw_notice(table: &mut EdgeFlagTable, bridge: &mut NotificationBridge)
    ensures
        final(table)@ == raised(old(table)@, EdgeSource::AlarmPulse),
        final(bridge).pending,
{
    table.raise(EdgeSource::AlarmPulse);
    bridge.signal();
}

/// One hardware edge on the line of `source`, from the interrupt controller
/// to the bridge: an armed line is un-armed and its handler runs; an un-armed
/// line ignores the edge. Tells whether the handler ran.
pub fn deliver_edge(
    table: &mut EdgeFlagTable,
    bridge: &mut NotificationBridge,
    source: EdgeSource,
) -> (fired: bool)
    ensures
        fired == old(table)@.armed.contains(source),
        final(table)@ == after_edge(old(table)@, source),
        final(bridge).pending == (old(bridge).pending || fired),
{
    let fired: bool = table.fire(source);
    if fired {
        match source {
            EdgeSource::AlarmPulse => handle_sqw_notice(table, bridge),
            _ => handle_button_default(table, bridge, source.label()),
        }
    } else {
        assert(table@.armed =~= old(table)@.armed);
    }
    fired
}

/// Whether any edge of `edges` meets a line that `table` has armed.
pub open spec fn any_fires(table: TableView, edges: Seq<EdgeSource>) -> bool {
    exists|i: int| 0 <= i < edges.len() && table.armed.contains(#[trigger] edges[i])
}

/// The edges of `edges`, one after another, each through `deliver_edge`.
/// Tells whether any handler ran.
pub fn deliver_edges(
    table: &mut EdgeFlagTable,
    bridge: &mut NotificationBridge,
    edges: &Vec<EdgeSource>,
) -> (fired: bool)
    ensures
        final(table)@ == after_edges(old(table)@, edges@),
        fired == any_fires(old(table)@, edges@),
        final(bridge).pending == (old(bridge).pending || fired),
{
    let mut fired: bool = false;
    let mut done: usize = 0;
    while done < edges.len()
        invariant
            done <= edges.len(),
            table@ == after_edges(old(table)@, edges@.take(done as int)),
            fired == any_fires(old(table)@, edges@.take(done as int)),
            bridge.pending == (old(bridge).pending || fired),
        decreases edges.len() - done,
    {
        let ghost earlier = edges@.take(done as int);
        let ghost longer = edges@.take(done + 1);
        let edge: EdgeSource = edges[done];
        proof {
            assert(longer.drop_last() =~= earlier);
            lemma_burst_sets_one_flag(old(table)@, earlier, edge);
            if any_fires(old(table)@, earlier) {
                let i = choose|i: int|
                    0 <= i < earlier.len() && old(table)@.armed.contains(#[trigger] earlier[i]);
                assert(longer[i] == earlier[i]);
            }
            if old(table)@.armed.contains(edge) {
                assert(longer[done as int] == edge);
                if earlier.contains(edge) {
                    let i = choose|i: int| 0 <= i < earlier.len() && earlier[i] == edge;
                    assert(old(table)@.armed.contains(earlier[i]));
                }
            }
            if any_fires(old(table)@, longer) {
                let i = choose|i: int|
                    0 <= i < longer.len() && old(table)@.armed.contains(#[trigger] longer[i]);
                if i < done {
                    assert(earlier[i] == longer[i]);
                }
            }
        }
        if deliver_edge(table, bridge, edge) {
            fired = true;
        }
        done = done + 1;
    }
    assert(edges@.take(done as int) =~= edges@);
    fired
}

/// A source stands in the delivered events of a scan once if the scan accepts
/// it, and not at all if it does not: no event is delivered twice.
pub proof fn lemma_scan_delivers_once(
    table: TableView,
    steady: Set<EdgeSource>,
    source: EdgeSource,
)
    ensures
        occurrences(accepted(table, steady), source) == if accepts(table, steady, source) {
            1nat
        } else {
            0nat
        },
{
    lemma_scan_prefix(table, steady, source, SOURCE_COUNT as int);
}

proof fn lemma_scan_prefix(
    table: TableView,
    steady: Set<EdgeSource>,
    source: EdgeSource,
    count: int,
)
    requires
        0 <= count <= SOURCE_COUNT,
    ensures
        occurrences(accepted_before(table, steady, count), source) == if source.spec_index()
            < count && accepts(table, steady, source) {
            1nat
        } else {
            0nat
        },
    decreases count,
{
    if count > 0 {
        lemma_scan_prefix(table, steady, source, count - 1);
        let earlier = accepted_before(table, steady, count - 1);
        let scanned = source_at(count - 1)->0;
        assert(source_at(count - 1) == Some(scanned));
        assert(scanned.spec_index() == count - 1);
        if accepts(table, steady, scanned) {
            assert(earlier.push(scanned).drop_last() =~= earlier);
            assert(earlier.push(scanned).last() == scanned);
        }
    }
}

/// What a burst of edges leaves of one source: an armed line is un-armed by
/// its first edge, which sets the flag; every later edge of the burst is
/// ignored. A line that was not armed keeps its flag as it was.
pub proof fn lemma_burst_sets_one_flag(table: TableView, edges: Seq<EdgeSource>, source: EdgeSource)
    ensures
        after_edges(table, edges).pending.contains(source) == (table.pending.contains(source) || (
        table.armed.contains(source) && edges.contains(source))),
        after_edges(table, edges).armed.contains(source) == (table.armed.contains(source)
            && !edges.contains(source)),
    decreases edges.len(),
{
    if edges.len() > 0 {
        let earlier = edges.drop_last();
        lemma_burst_sets_one_flag(table, earlier, source);
        if edges.contains(source) {
            let at = choose|i: int| 0 <= i < edges.len() && edges[i] == source;
            if at < edges.len() - 1 {
                assert(earlier[at] == source);
            }
        }
        if earlier.contains(source) {
            let at = choose|i: int| 0 <= i < earlier.len() && earlier[i] == source;
            assert(edges[at] == source);
        }
        assert(edges[edges.len() - 1] == edges.last());
    }
}

/// Coalescing. The loop has armed the line of `source`. Then however many
/// edges of `source` arrive before the next scan, mixed with edges of other
/// sources in any order, the scan delivers exactly one event of `source`,
/// provided its line is steady when the loop looks; and the flag is clear
/// after the scan.
pub proof fn lemma_edges_coalesce(
    table: TableView,
    edges: Seq<EdgeSource>,
    steady: Set<EdgeSource>,
    source: EdgeSource,
)
    requires
        table.armed.contains(source),
        edges.contains(source),
        steady.contains(source),
    ensures
        occurrences(accepted(after_edges(table, edges), steady), source) == 1,
        !drained(after_edges(table, edges), steady).pending.contains(source),
{
    lemma_burst_sets_one_flag(table, edges, source);
    lemma_scan_delivers_once(after_edges(table, edges), steady, source);
}

/// A source of which no edge arrived, and whose flag was clear, is not
/// delivered.
pub proof fn lemma_silent_source_is_not_delivered(
    table: TableView,
    edges: Seq<EdgeSource>,
    steady: Set<EdgeSource>,
    source: EdgeSource,
)
    requires
        !table.pending.contains(source),
        !edges.contains(source),
    ensures
        occurrences(accepted(after_edges(table, edges), steady), source) == 0,
{
    lemma_burst_sets_one_flag(table, edges, source);
    lemma_scan_delivers_once(after_edges(table, edges), steady, source);
}

} // verus!
