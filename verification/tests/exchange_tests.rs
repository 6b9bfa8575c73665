use clock_panel::display::Readings;
use clock_panel::exchange::{
    cell_updates, CellOp, CellUpdates, EnvironmentalInfo, ExchangeCell, ExchangeCells, Sample,
    SENTINEL,
};

fn sample(value: f32) -> Sample {
    Sample { bits: value.to_bits() }
}

fn info(temp: f32, humid: f32, pm2_5: f32, pm10: f32) -> EnvironmentalInfo {
    EnvironmentalInfo {
        temp: sample(temp),
        humid: sample(humid),
        pm2_5: sample(pm2_5),
        pm10: sample(pm10),
    }
}

#[test]
fn cell_starts_with_the_sentinel() {
    assert_eq!(SENTINEL, 0);
    assert_eq!(ExchangeCell::new().load(), SENTINEL);
}

#[test]
fn load_returns_the_latest_store() {
    let mut cell = ExchangeCell::new();
    cell.store(23);
    assert_eq!(cell.load(), 23);
    assert_eq!(cell.load(), 23);
    cell.store(u32::MAX);
    cell.store(7);
    assert_eq!(cell.load(), 7);
}

#[test]
fn replay_of_interleaved_stores_and_loads() {
    let mut cell = ExchangeCell::new();
    let ops = vec![
        CellOp::Load,
        CellOp::Store(5),
        CellOp::Load,
        CellOp::Load,
        CellOp::Store(6),
        CellOp::Store(7),
        CellOp::Load,
        CellOp::Store(8),
    ];
    assert_eq!(cell.replay(&ops), vec![0, 5, 5, 7]);
    assert_eq!(cell.load(), 8);
    assert_eq!(cell.replay(&vec![]), vec![]);
    assert_eq!(cell.load(), 8);
}

#[test]
fn every_load_reads_a_value_that_was_stored() {
    // Every way of putting three stores and three loads in a row.
    for order in 0u32..64 {
        if order.count_ones() != 3 {
            continue;
        }
        let mut ops = Vec::new();
        let mut stored = vec![SENTINEL];
        let mut next = 100;
        for position in 0..6 {
            if order & (1 << position) != 0 {
                ops.push(CellOp::Store(next));
                stored.push(next);
                next += 1;
            } else {
                ops.push(CellOp::Load);
            }
        }
        let mut cell = ExchangeCell::new();
        for value in cell.replay(&ops) {
            assert!(stored.contains(&value));
        }
    }
}

#[test]
fn whole_part_agrees_with_the_machine() {
    let values = [
        0.0f32, -0.0, 0.4, 0.99999994, 1.0, 1.5, 2.0, 23.0, 23.9, 61.5, 99.99, 100.0, 255.0,
        8388607.5, 8388608.0, 16777215.0, 16777216.0, 33554432.0, 4294967040.0, 4294967296.0,
        1.0e20, -1.0, -23.5, -1.0e20, 1.0e-40, f32::MIN_POSITIVE, f32::MAX, f32::MIN,
        f32::INFINITY, f32::NEG_INFINITY, f32::NAN, f32::EPSILON,
    ];
    for value in values {
        assert_eq!(sample(value).to_whole(), value as u32);
        assert_eq!(sample(value).zero(), value == 0.0);
    }
}

#[test]
fn whole_part_agrees_with_the_machine_across_the_bits() {
    let mut bits: u32 = 0;
    loop {
        let value = f32::from_bits(bits);
        assert_eq!(Sample { bits }.to_whole(), value as u32);
        assert_eq!(Sample { bits }.zero(), value == 0.0);
        match bits.checked_add(0x0003_fffd) {
            Some(next) => bits = next,
            None => break,
        }
    }
}

#[test]
fn whole_part_of_some_readings() {
    assert_eq!(sample(23.0).to_whole(), 23);
    assert_eq!(sample(61.7).to_whole(), 61);
    assert_eq!(sample(0.4).to_whole(), 0);
    assert_eq!(sample(-3.0).to_whole(), 0);
    assert_eq!(sample(5.0e9).to_whole(), u32::MAX);
    assert_eq!(Sample { bits: 0x41b8_0000 }.to_whole(), 23);
}

#[test]
fn message_stores_all_four_values() {
    assert_eq!(
        cell_updates(Some(info(23.4, 61.0, 12.9, 48.0))),
        CellUpdates { temperature: Some(23), humidity: Some(61), pm2_5: Some(12), pm10: Some(48) }
    );
}

#[test]
fn zero_temperature_or_humidity_suppresses_the_update() {
    assert_eq!(
        cell_updates(Some(info(0.0, 61.0, 12.0, 48.0))),
        CellUpdates { temperature: None, humidity: Some(61), pm2_5: Some(12), pm10: Some(48) }
    );
    assert_eq!(
        cell_updates(Some(info(23.0, -0.0, 12.0, 48.0))),
        CellUpdates { temperature: Some(23), humidity: None, pm2_5: Some(12), pm10: Some(48) }
    );
}

#[test]
fn small_reading_that_is_not_zero_is_stored_as_zero() {
    assert_eq!(
        cell_updates(Some(info(0.4, 0.9, 0.2, 0.1))),
        CellUpdates { temperature: Some(0), humidity: Some(0), pm2_5: Some(0), pm10: Some(0) }
    );
}

#[test]
fn zero_particulate_reading_is_stored() {
    assert_eq!(
        cell_updates(Some(info(23.0, 61.0, 0.0, 0.0))),
        CellUpdates { temperature: Some(23), humidity: Some(61), pm2_5: Some(0), pm10: Some(0) }
    );
}

#[test]
fn undecodable_payload_stores_nothing() {
    assert_eq!(
        cell_updates(None),
        CellUpdates { temperature: None, humidity: None, pm2_5: None, pm10: None }
    );
    let mut cells = ExchangeCells::new();
    cells.publish(Some(info(23.0, 61.0, 12.0, 48.0)));
    let before = cells;
    cells.publish(None);
    assert_eq!(cells, before);
}

#[test]
fn cells_start_with_the_sentinel() {
    let cells = ExchangeCells::new();
    assert_eq!(
        cells.snapshot(),
        Readings { temperature: 0, humidity: 0, pm2_5: 0, pm10: 0 }
    );
}

#[test]
fn publish_then_snapshot() {
    let mut cells = ExchangeCells::new();
    cells.publish(Some(info(23.0, 61.0, 12.0, 48.0)));
    assert_eq!(
        cells.snapshot(),
        Readings { temperature: 23, humidity: 61, pm2_5: 12, pm10: 48 }
    );
    cells.publish(Some(info(0.0, 0.0, 0.0, 0.0)));
    assert_eq!(
        cells.snapshot(),
        Readings { temperature: 23, humidity: 61, pm2_5: 0, pm10: 0 }
    );
}

#[test]
fn update_keeps_or_replaces() {
    let mut cell = ExchangeCell::new();
    cell.update(Some(9));
    assert_eq!(cell.load(), 9);
    cell.update(None);
    assert_eq!(cell.load(), 9);
}
