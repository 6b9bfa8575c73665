//! The display state machine: which view is selected, and what a redraw of it
//! writes to the two lines of the display module.

use crate::clock::ClockTime;
use crate::text::{
    decimal, lemma_decimal_shape, lemma_month_shape, lemma_two_digits_shape, month_abbreviation,
    month_to_abbreviation, pad_single_digit, push_decimal, two_digits,
};
use vstd::prelude::*;
use vstd::string::*;
use vstd::utf8::is_ascii_chars;

verus! {

/// Where the first display line starts in the module's memory.
pub const LINE_ONE_ADDRESS: u8 = 0;

/// Where the second display line starts in the module's memory.
pub const LINE_TWO_ADDRESS: u8 = 40;

/// How many display modes there are.
pub const MODE_COUNT: u32 = 2;

/// The view that a redraw renders. Exactly one is selected at any time.
#[derive(Clone, Copy, Debug, PartialEq, Eq, Structural)]
pub enum DisplayMode {
    /// Time and date above, temperature and humidity below.
    Clock,
    /// Fine and coarse particulate readings.
    AirQuality,
}

impl DisplayMode {
    /// The position of the mode in the cycle, counted from zero.
    pub open spec fn spec_index(self) -> nat {
        match self {
            DisplayMode::Clock => 0,
            DisplayMode::AirQuality => 1,
        }
    }

    /// The mode at position `index % MODE_COUNT` of the cycle.
    pub open spec fn spec_from_index(index: nat) -> DisplayMode {
        if index % (MODE_COUNT as nat) == 0 {
            DisplayMode::Clock
        } else {
            DisplayMode::AirQuality
        }
    }

    /// The mode that follows this one in the cycle.
    pub open spec fn spec_next(self) -> DisplayMode {
        Self::spec_from_index(self.spec_index() + 1)
    }

    /// The mode reached from this one by `presses` toggles.
    pub open spec fn after_toggles(self, presses: nat) -> DisplayMode
        decreases presses,
    {
        if presses == 0 {
            self
        } else {
            self.after_toggles((presses - 1) as nat).spec_next()
        }
    }

    /// The position of the mode in the cycle, counted from zero.
    pub fn index(self) -> (index: u32)
        ensures
            index == self.spec_index(),
            index < MODE_COUNT,
    {
        match self {
            DisplayMode::Clock => 0,
            DisplayMode::AirQuality => 1,
        }
    }

    /// The mode at position `index % MODE_COUNT` of the cycle.
    pub fn from_index(index: u32) -> (mode: DisplayMode)
        ensures
            mode == Self::spec_from_index(index as nat),
            mode.spec_index() == index % MODE_COUNT,
    {
        if index % MODE_COUNT == 0 {
            DisplayMode::Clock
        } else {
            DisplayMode::AirQuality
        }
    }

    /// The mode that follows this one in the cycle; the last is followed by
    /// the first.
    pub fn next(self) -> (mode: DisplayMode)
        ensures
            mode == self.spec_next(),
            mode.spec_index() == (self.spec_index() + 1) % (MODE_COUNT as nat),
    {
        Self::from_index(self.index() + 1)
    }

    /// Applies `presses` toggles one after another.
    pub fn toggled(self, presses: u32) -> (mode: DisplayMode)
        ensures
            mode == self.after_toggles(presses as nat),
    {
        let mut mode: DisplayMode = self;
        let mut done: u32 = 0;
        while done < presses
            invariant
                done <= presses,
                mode == self.after_toggles(done as nat),
            decreases presses - done,
        {
            mode = mode.next();
            done = done + 1;
        }
        mode
    }
}

/// Toggling `presses` times moves the position in the cycle forward by
/// `presses`, wrapping round at the number of modes.
pub proof fn lemma_toggles_add_modulo(start: DisplayMode, presses: nat)
    ensures
        start.after_toggles(presses).spec_index() == (start.spec_index() + presses) % (
        MODE_COUNT as nat),
    decreases presses,
{
    if presses > 0 {
        lemma_toggles_add_modulo(start, (presses - 1) as nat);
    }
}

/// Starting in the first mode, `presses` toggles land in the mode whose
/// position is `presses` modulo the number of modes.
pub proof fn lemma_mode_cycling(presses: nat)
    ensures
        DisplayMode::Clock.after_toggles(presses).spec_index() == presses % (MODE_COUNT as nat),
        DisplayMode::Clock.after_toggles(presses) == DisplayMode::spec_from_index(presses),
{
    lemma_toggles_add_modulo(DisplayMode::Clock, presses);
}

/// The latest known sensor values, as a redraw reads them.
#[derive(Clone, Copy, Debug, PartialEq, Eq, Structural)]
pub struct Readings {
    pub temperature: u32,
    pub humidity: u32,
    pub pm2_5: u32,
    pub pm10: u32,
}

/// The two lines of text that one redraw shows.
#[derive(Clone, Debug, PartialEq, Eq)]
pub struct Frame {
    pub line_one: String,
    pub line_two: String,
}

impl View for Frame {
    type V = (Seq<char>, Seq<char>);

    open spec fn view(&self) -> (Seq<char>, Seq<char>) {
        (self.line_one@, self.line_two@)
    }
}

/// The years that have passed of the century of `year`, 0 to 99: 2005 gives
/// 5, and so does 1905. A year before the era is counted within its century
/// in the same way.
pub open spec fn year_in_century(year: int) -> nat {
    (year % 100) as nat
}

/// Line one of the clock view: `HH:MM`, two blanks, `DD MON`, one blank and
/// the year within its century as two digits.
pub open spec fn clock_line_one(time: ClockTime) -> Seq<char> {
    two_digits(time.hour as nat) + seq![':'] + two_digits(time.minute as nat) + seq![' ', ' ']
        + two_digits(time.day as nat) + seq![' '] + month_abbreviation(time.month as int) + seq![
        ' ',
    ] + two_digits(year_in_century(time.year as int))
}

/// Line two of the clock view: temperature in degrees and relative humidity
/// in percent.
pub open spec fn clock_line_two(temperature: nat, humidity: nat) -> Seq<char> {
    seq!['T', ' '] + two_digits(temperature) + seq!['C', ' ', ' ', ' ', 'H', ' '] + two_digits(
        humidity,
    ) + seq!['%']
}

/// Line one of the air-quality view: the fine particulate reading.
pub open spec fn aqi_line_one(pm2_5: nat) -> Seq<char> {
    seq!['P', 'M', '2', '.', '5', ':', ' '] + decimal(pm2_5)
}

/// Line two of the air-quality view: the coarse particulate reading.
pub open spec fn aqi_line_two(pm10: nat) -> Seq<char> {
    seq!['P', 'M', '1', '0', ':', ' '] + decimal(pm10)
}

/// The frame that a redraw of `mode` shows for the given time and readings.
pub open spec fn frame_of(mode: DisplayMode, time: ClockTime, readings: Readings) -> (
    Seq<char>,
    Seq<char>,
) {
    match mode {
        DisplayMode::Clock => (
            clock_line_one(time),
            clock_line_two(readings.temperature as nat, readings.humidity as nat),
        ),
        DisplayMode::AirQuality => (
            aqi_line_one(readings.pm2_5 as nat),
            aqi_line_two(readings.pm10 as nat),
        ),
    }
}

fn century_year(year: i32) -> (rest: u32)
    ensures
        rest == year_in_century(year as int),
        rest < 100,
{
    // A whole number of centuries lifts every year above zero and leaves
    // its place within the century as it was.
    let lifted: i64 = year as i64 + 2_147_483_700;
    assert(lifted % 100 == (year as int) % 100);
    (lifted % 100) as u32
}

/// Formats the clock view.
pub fn display_clock(date_time: &ClockTime, temp: u32, humid: u32) -> (frame: Frame)
    ensures
        frame.line_one@ == clock_line_one(*date_time),
        frame.line_two@ == clock_line_two(temp as nat, humid as nat),
{
    proof {
        reveal_strlit(":");
        reveal_strlit("  ");
        reveal_strlit(" ");
        reveal_strlit("T ");
        reveal_strlit("C   H ");
        reveal_strlit("%");
    }
    let mut line_one: String = pad_single_digit(date_time.hour);
    line_one.append(":");
    line_one.append(pad_single_digit(date_time.minute).as_str());
    line_one.append("  ");
    line_one.append(pad_single_digit(date_time.day).as_str());
    line_one.append(" ");
    line_one.append(month_to_abbreviation(date_time.month));
    line_one.append(" ");
    line_one.append(pad_single_digit(century_year(date_time.year)).as_str());
    assert(line_one@ =~= clock_line_one(*date_time));

    let mut line_two: String = String::from_str("T ");
    line_two.append(pad_single_digit(temp).as_str());
    line_two.append("C   H ");
    line_two.append(pad_single_digit(humid).as_str());
    line_two.append("%");
    assert(line_two@ =~= clock_line_two(temp as nat, humid as nat));
    Frame { line_one, line_two }
}

/// Formats the air-quality view.
pub fn display_aqi(pm2_5: u32, pm10: u32) -> (frame: Frame)
    ensures
        frame.line_one@ == aqi_line_one(pm2_5 as nat),
        frame.line_two@ == aqi_line_two(pm10 as nat),
{
    proof {
        reveal_strlit("PM2.5: ");
        reveal_strlit("PM10: ");
    }
    let mut line_one: String = String::from_str("PM2.5: ");
    push_decimal(&mut line_one, pm2_5);
    assert(line_one@ =~= aqi_line_one(pm2_5 as nat));
    let mut line_two: String = String::from_str("PM10: ");
    push_decimal(&mut line_two, pm10);
    assert(line_two@ =~= aqi_line_two(pm10 as nat));
    Frame { line_one, line_two }
}

/// Formats the view that `mode` selects. The inputs are only read: drawing
/// again from the same inputs gives the same frame.
pub fn render(mode: DisplayMode, time: &ClockTime, readings: &Readings) -> (frame: Frame)
    ensures
        frame@ == frame_of(mode, *time, *readings),
{
    match mode {
        DisplayMode::Clock => display_clock(time, readings.temperature, readings.humidity),
        DisplayMode::AirQuality => display_aqi(readings.pm2_5, readings.pm10),
    }
}

/// One request to the display module. These three are all the redraw needs.
#[derive(Clone, Debug, PartialEq, Eq)]
pub enum DisplayCommand {
    /// Blank both lines.
    Clear,
    /// Move the cursor to an address of the module's memory.
    SetCursor(u8),
    /// Write text at the cursor.
    WriteText(String),
}

/// A display request as a plain value.
pub enum CommandView {
    Clear,
    SetCursor(u8),
    WriteText(Seq<char>),
}

impl View for DisplayCommand {
    type V = CommandView;

    open spec fn view(&self) -> CommandView {
        match self {
            DisplayCommand::Clear => CommandView::Clear,
            DisplayCommand::SetCursor(address) => CommandView::SetCursor(*address),
            DisplayCommand::WriteText(text) => CommandView::WriteText(text@),
        }
    }
}

/// The requests as plain values, in order.
pub open spec fn command_views(commands: Seq<DisplayCommand>) -> Seq<CommandView> {
    Seq::new(commands.len(), |i: int| commands[i]@)
}

/// The requests that put `line_one` and `line_two` at the two line starts.
pub open spec fn write_lines(line_one: Seq<char>, line_two: Seq<char>) -> Seq<CommandView> {
    seq![
        CommandView::SetCursor(LINE_ONE_ADDRESS),
        CommandView::WriteText(line_one),
        CommandView::SetCursor(LINE_TWO_ADDRESS),
        CommandView::WriteText(line_two),
    ]
}

/// The requests of a message overlay: blank the display, then write both lines.
pub open spec fn message_commands(line_one: Seq<char>, line_two: Seq<char>) -> Seq<CommandView> {
    seq![CommandView::Clear] + write_lines(line_one, line_two)
}

/// Turns a frame into the requests that write it, line one first.
pub fn frame_commands(frame: Frame) -> (commands: Vec<DisplayCommand>)
    ensures
        command_views(commands@) == write_lines(frame.line_one@, frame.line_two@),
{
    let mut commands: Vec<DisplayCommand> = Vec::new();
    commands.push(DisplayCommand::SetCursor(LINE_ONE_ADDRESS));
    commands.push(DisplayCommand::WriteText(frame.line_one));
    commands.push(DisplayCommand::SetCursor(LINE_TWO_ADDRESS));
    commands.push(DisplayCommand::WriteText(frame.line_two));
    assert(command_views(commands@) =~= write_lines(frame.line_one@, frame.line_two@));
    commands
}

/// The requests that show a two-line message on a blank display.
pub fn display_message(line_1: &str, line_2: &str) -> (commands: Vec<DisplayCommand>)
    ensures
        command_views(commands@) == message_commands(line_1@, line_2@),
{
    let mut commands: Vec<DisplayCommand> = Vec::new();
    commands.push(DisplayCommand::Clear);
    commands.push(DisplayCommand::SetCursor(LINE_ONE_ADDRESS));
    commands.push(DisplayCommand::WriteText(String::from_str(line_1)));
    commands.push(DisplayCommand::SetCursor(LINE_TWO_ADDRESS));
    commands.push(DisplayCommand::WriteText(String::from_str(line_2)));
    assert(command_views(commands@) =~= message_commands(line_1@, line_2@));
    commands
}

/// The redraw action: the requests that write the view of `mode` for the
/// time just read from the clock and the latest readings.
pub fn redraw(mode: DisplayMode, time: &ClockTime, readings: &Readings) -> (commands: Vec<
    DisplayCommand,
>)
    ensures
        command_views(commands@) == write_lines(
            frame_of(mode, *time, *readings).0,
            frame_of(mode, *time, *readings).1,
        ),
{
    frame_commands(render(mode, time, readings))
}

/// How many characters one line of the display shows.
pub const LINE_WIDTH: u32 = 16;

/// Both lines of every view hold ASCII characters only.
pub proof fn lemma_frames_are_ascii(mode: DisplayMode, time: ClockTime, readings: Readings)
    ensures
        is_ascii_chars(frame_of(mode, time, readings).0),
        is_ascii_chars(frame_of(mode, time, readings).1),
{
    lemma_two_digits_shape(time.hour as nat);
    lemma_two_digits_shape(time.minute as nat);
    lemma_two_digits_shape(time.day as nat);
    lemma_month_shape(time.month as int);
    lemma_two_digits_shape(year_in_century(time.year as int));
    lemma_two_digits_shape(readings.temperature as nat);
    lemma_two_digits_shape(readings.humidity as nat);
    lemma_decimal_shape(readings.pm2_5 as nat);
    lemma_decimal_shape(readings.pm10 as nat);
}

/// The clock view has a fixed width. At every time of the calendar, in
/// whatever year, line one fills the display line exactly; with temperature
/// and humidity below a hundred, line two has thirteen characters.
pub proof fn lemma_clock_view_is_fixed_width(time: ClockTime, temperature: nat, humidity: nat)
    ensures
        time.is_valid() ==> clock_line_one(time).len() == LINE_WIDTH,
        temperature < 100 && humidity < 100 ==> clock_line_two(temperature, humidity).len() == 13,
{
    lemma_two_digits_shape(time.hour as nat);
    lemma_two_digits_shape(time.minute as nat);
    lemma_two_digits_shape(time.day as nat);
    lemma_month_shape(time.month as int);
    lemma_two_digits_shape(year_in_century(time.year as int));
    lemma_two_digits_shape(temperature);
    lemma_two_digits_shape(humidity);
}

/// Redrawing is repeatable: two redraws from the same mode, time and
/// readings send the same requests with the same text, character for
/// character.
pub proof fn lemma_redraw_is_repeatable(
    mode: DisplayMode,
    time: ClockTime,
    readings: Readings,
    first: Seq<DisplayCommand>,
    second: Seq<DisplayCommand>,
)
    requires
        command_views(first) == write_lines(
            frame_of(mode, time, readings).0,
            frame_of(mode, time, readings).1,
        ),
        command_views(second) == write_lines(
            frame_of(mode, time, readings).0,
            frame_of(mode, time, readings).1,
        ),
    ensures
        first.len() == second.len(),
        forall|i: int| 0 <= i < first.len() ==> first[i]@ == second[i]@,
{
    assert(command_views(first).len() == first.len());
    assert(command_views(second).len() == second.len());
    assert forall|i: int| 0 <= i < first.len() implies first[i]@ == second[i]@ by {
        assert(command_views(first)[i] == first[i]@);
        assert(command_views(second)[i] == second[i]@);
    }
}

} // verus!
