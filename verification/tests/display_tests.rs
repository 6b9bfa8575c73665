use clock_panel::clock::ClockTime;
use clock_panel::display::{
    display_aqi, display_clock, display_message, frame_commands, redraw, render, DisplayCommand,
    DisplayMode, Frame, Readings, LINE_ONE_ADDRESS, LINE_TWO_ADDRESS, MODE_COUNT,
};
use clock_panel::text::{month_to_abbreviation, pad_single_digit};

fn time(year: i32, month: u32, day: u32, hour: u32, minute: u32, second: u32) -> ClockTime {
    ClockTime { year, month, day, hour, minute, second }
}

#[test]
fn pad_single_digit_pads_below_ten() {
    assert_eq!(pad_single_digit(0), "00");
    assert_eq!(pad_single_digit(7), "07");
    assert_eq!(pad_single_digit(9), "09");
}

#[test]
fn pad_single_digit_leaves_larger_numbers() {
    assert_eq!(pad_single_digit(10), "10");
    assert_eq!(pad_single_digit(59), "59");
    assert_eq!(pad_single_digit(100), "100");
    assert_eq!(pad_single_digit(4_294_967_295), "4294967295");
}

#[test]
fn month_to_abbreviation_names_all_months() {
    let expected = [
        "JAN", "FEB", "MAR", "APR", "MAY", "JUN", "JUL", "AUG", "SEP", "OCT", "NOV", "DEC",
    ];
    for (index, name) in expected.iter().enumerate() {
        assert_eq!(month_to_abbreviation(index as u32 + 1), *name);
    }
}

#[test]
fn month_to_abbreviation_rejects_other_numbers() {
    assert_eq!(month_to_abbreviation(0), "Invalid");
    assert_eq!(month_to_abbreviation(13), "Invalid");
    assert_eq!(month_to_abbreviation(u32::MAX), "Invalid");
}

#[test]
fn clock_view_first_line() {
    let frame = display_clock(&time(2024, 3, 5, 9, 7, 0), 23, 61);
    assert_eq!(frame.line_one, "09:07  05 MAR 24");
    let frame = display_clock(&time(2031, 12, 31, 23, 59, 59), 0, 0);
    assert_eq!(frame.line_one, "23:59  31 DEC 31");
}

#[test]
fn clock_view_year_has_two_digits() {
    let frame = display_clock(&time(2005, 3, 7, 8, 4, 0), 0, 0);
    assert_eq!(frame.line_one, "08:04  07 MAR 05");
    let frame = display_clock(&time(2005, 1, 1, 0, 0, 0), 0, 0);
    assert_eq!(frame.line_one, "00:00  01 JAN 05");
    let frame = display_clock(&time(2100, 1, 1, 0, 0, 0), 0, 0);
    assert_eq!(frame.line_one, "00:00  01 JAN 00");
    let frame = display_clock(&time(2099, 12, 31, 23, 59, 59), 0, 0);
    assert_eq!(frame.line_one, "23:59  31 DEC 99");
}

#[test]
fn clock_view_first_line_fills_the_display_line() {
    for year in 2000..=2100 {
        for month in 1..=12 {
            let frame = display_clock(&time(year, month, 1, 0, 0, 0), 0, 0);
            assert_eq!(frame.line_one.len(), 16);
            assert!(frame.line_one.is_ascii());
        }
    }
}

#[test]
fn clock_view_year_before_the_era_is_counted_within_its_century() {
    let frame = display_clock(&time(-5, 1, 1, 0, 0, 0), 0, 0);
    assert_eq!(frame.line_one, "00:00  01 JAN 95");
    let frame = display_clock(&time(-2024, 1, 1, 0, 0, 0), 0, 0);
    assert_eq!(frame.line_one, "00:00  01 JAN 76");
    let frame = display_clock(&time(i32::MIN, 1, 1, 0, 0, 0), 0, 0);
    assert_eq!(frame.line_one, "00:00  01 JAN 52");
    let frame = display_clock(&time(i32::MAX, 1, 1, 0, 0, 0), 0, 0);
    assert_eq!(frame.line_one, "00:00  01 JAN 47");
}

#[test]
fn clock_view_names_an_impossible_month() {
    let frame = display_clock(&time(2024, 13, 5, 9, 7, 0), 1, 2);
    assert_eq!(frame.line_one, "09:07  05 Invalid 24");
}

#[test]
fn clock_view_second_line_temperature_then_humidity() {
    let frame = display_clock(&time(2024, 3, 5, 9, 7, 0), 23, 61);
    assert_eq!(frame.line_two, "T 23C   H 61%");
}

#[test]
fn clock_view_second_line_pads_below_ten() {
    let frame = display_clock(&time(2024, 3, 5, 9, 7, 0), 5, 9);
    assert_eq!(frame.line_two, "T 05C   H 09%");
    let frame = display_clock(&time(2024, 3, 5, 9, 7, 0), 0, 100);
    assert_eq!(frame.line_two, "T 00C   H 100%");
}

#[test]
fn air_quality_view() {
    let frame = display_aqi(12, 48);
    assert_eq!(frame.line_one, "PM2.5: 12");
    assert_eq!(frame.line_two, "PM10: 48");
    let frame = display_aqi(0, 4_294_967_295);
    assert_eq!(frame.line_one, "PM2.5: 0");
    assert_eq!(frame.line_two, "PM10: 4294967295");
}

#[test]
fn render_follows_the_mode() {
    let now = time(2024, 3, 5, 9, 7, 0);
    let readings = Readings { temperature: 23, humidity: 61, pm2_5: 12, pm10: 48 };
    let clock = render(DisplayMode::Clock, &now, &readings);
    assert_eq!(clock, display_clock(&now, 23, 61));
    let air = render(DisplayMode::AirQuality, &now, &readings);
    assert_eq!(air, display_aqi(12, 48));
    assert_ne!(clock, air);
}

#[test]
fn frame_is_written_at_the_two_line_starts() {
    let frame = Frame { line_one: "first".to_string(), line_two: "second".to_string() };
    assert_eq!(LINE_ONE_ADDRESS, 0);
    assert_eq!(LINE_TWO_ADDRESS, 40);
    assert_eq!(
        frame_commands(frame),
        vec![
            DisplayCommand::SetCursor(0),
            DisplayCommand::WriteText("first".to_string()),
            DisplayCommand::SetCursor(40),
            DisplayCommand::WriteText("second".to_string()),
        ]
    );
}

#[test]
fn message_clears_before_it_writes() {
    assert_eq!(
        display_message("LIGHT MODE", "   DAY"),
        vec![
            DisplayCommand::Clear,
            DisplayCommand::SetCursor(0),
            DisplayCommand::WriteText("LIGHT MODE".to_string()),
            DisplayCommand::SetCursor(40),
            DisplayCommand::WriteText("   DAY".to_string()),
        ]
    );
}

#[test]
fn redraw_twice_gives_identical_output() {
    let now = time(2024, 3, 5, 9, 7, 0);
    let readings = Readings { temperature: 23, humidity: 61, pm2_5: 12, pm10: 48 };
    for mode in [DisplayMode::Clock, DisplayMode::AirQuality] {
        let first = redraw(mode, &now, &readings);
        let second = redraw(mode, &now, &readings);
        assert_eq!(first, second);
        assert_eq!(first.len(), 4);
    }
}

#[test]
fn redraw_of_the_clock_view() {
    let now = time(2024, 3, 5, 9, 7, 0);
    let readings = Readings { temperature: 23, humidity: 61, pm2_5: 12, pm10: 48 };
    assert_eq!(
        redraw(DisplayMode::Clock, &now, &readings),
        vec![
            DisplayCommand::SetCursor(0),
            DisplayCommand::WriteText("09:07  05 MAR 24".to_string()),
            DisplayCommand::SetCursor(40),
            DisplayCommand::WriteText("T 23C   H 61%".to_string()),
        ]
    );
}

#[test]
fn modes_cycle() {
    assert_eq!(MODE_COUNT, 2);
    assert_eq!(DisplayMode::Clock.index(), 0);
    assert_eq!(DisplayMode::AirQuality.index(), 1);
    assert_eq!(DisplayMode::Clock.next(), DisplayMode::AirQuality);
    assert_eq!(DisplayMode::AirQuality.next(), DisplayMode::Clock);
    assert_eq!(DisplayMode::from_index(0), DisplayMode::Clock);
    assert_eq!(DisplayMode::from_index(1), DisplayMode::AirQuality);
    assert_eq!(DisplayMode::from_index(7), DisplayMode::AirQuality);
}

#[test]
fn toggles_land_in_the_count_modulo_the_modes() {
    for presses in 0..50u32 {
        let mode = DisplayMode::Clock.toggled(presses);
        assert_eq!(mode.index(), presses % MODE_COUNT);
    }
    assert_eq!(DisplayMode::AirQuality.toggled(3), DisplayMode::Clock);
}
