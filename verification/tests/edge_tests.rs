use clock_panel::bridge::{NotificationBridge, WaitLimit, WaitOutcome};
use clock_panel::edges::{
    deliver_edge, deliver_edges, handle_button_default, handle_sqw_notice, EdgeFlagTable,
    EdgeSource, Level, LineLevels, TriggerEdge, SOURCE_COUNT,
};

const ALL: [EdgeSource; 9] = [
    EdgeSource::AlarmPulse,
    EdgeSource::ButtonA,
    EdgeSource::ButtonB,
    EdgeSource::ButtonC,
    EdgeSource::ButtonD,
    EdgeSource::ButtonE,
    EdgeSource::ButtonF,
    EdgeSource::ButtonG,
    EdgeSource::ButtonH,
];

fn all_steady() -> LineLevels {
    LineLevels { steady: [true; 9] }
}

fn armed_table() -> EdgeFlagTable {
    let mut table = EdgeFlagTable::new();
    table.arm_all();
    table
}

#[test]
fn bridge_starts_without_a_wake() {
    let mut bridge = NotificationBridge::new();
    assert!(!bridge.has_pending());
    assert_eq!(bridge.wait(WaitLimit::Forever, 0), WaitOutcome::Suspended);
    assert_eq!(bridge.wait(WaitLimit::Forever, u32::MAX), WaitOutcome::Suspended);
}

#[test]
fn bridge_signals_collapse_to_one_wake() {
    let mut bridge = NotificationBridge::new();
    bridge.signal();
    bridge.signal();
    bridge.signal();
    assert!(bridge.has_pending());
    assert_eq!(bridge.wait(WaitLimit::Forever, 0), WaitOutcome::Woken);
    assert!(!bridge.has_pending());
    assert_eq!(bridge.wait(WaitLimit::Forever, 0), WaitOutcome::Suspended);
}

#[test]
fn bridge_wait_times_out_at_the_limit() {
    let mut bridge = NotificationBridge::new();
    assert_eq!(bridge.wait(WaitLimit::Ticks(10), 9), WaitOutcome::Suspended);
    assert_eq!(bridge.wait(WaitLimit::Ticks(10), 10), WaitOutcome::TimedOut);
    assert_eq!(bridge.wait(WaitLimit::Ticks(10), 11), WaitOutcome::TimedOut);
    assert_eq!(bridge.wait(WaitLimit::Ticks(0), 0), WaitOutcome::TimedOut);
}

#[test]
fn bridge_wake_wins_over_a_timeout() {
    let mut bridge = NotificationBridge::new();
    bridge.signal();
    assert_eq!(bridge.wait(WaitLimit::Ticks(10), 50), WaitOutcome::Woken);
    assert_eq!(bridge.wait(WaitLimit::Ticks(10), 50), WaitOutcome::TimedOut);
}

#[test]
fn sources_have_stable_positions_and_labels() {
    assert_eq!(SOURCE_COUNT, 9);
    let labels = ['q', 'a', 'b', 'c', 'd', 'e', 'f', 'g', 'h'];
    for (index, source) in ALL.iter().enumerate() {
        assert_eq!(source.index(), index);
        assert_eq!(EdgeSource::from_index(index), Some(*source));
        assert_eq!(source.label(), labels[index]);
        assert_eq!(EdgeSource::from_label(labels[index]), Some(*source));
    }
    assert_eq!(EdgeSource::from_index(9), None);
    assert_eq!(EdgeSource::from_index(usize::MAX), None);
    assert_eq!(EdgeSource::from_label('i'), None);
    assert_eq!(EdgeSource::from_label('A'), None);
}

#[test]
fn buttons_fire_on_the_rising_edge_and_the_alarm_on_the_falling() {
    assert_eq!(EdgeSource::AlarmPulse.trigger(), TriggerEdge::Falling);
    for source in &ALL[1..] {
        assert_eq!(source.trigger(), TriggerEdge::Rising);
    }
}

#[test]
fn new_table_is_unarmed_and_clear() {
    let table = EdgeFlagTable::new();
    for source in ALL {
        assert!(!table.is_armed(source));
        assert!(!table.is_pending(source));
    }
}

#[test]
fn raise_and_clear_touch_one_flag() {
    let mut table = EdgeFlagTable::new();
    table.raise(EdgeSource::ButtonC);
    table.raise(EdgeSource::ButtonC);
    for source in ALL {
        assert_eq!(table.is_pending(source), source == EdgeSource::ButtonC);
        assert!(!table.is_armed(source));
    }
    table.clear(EdgeSource::ButtonC);
    assert_eq!(table, EdgeFlagTable::new());
}

#[test]
fn arm_touches_one_line_and_arm_all_every_line() {
    let mut table = EdgeFlagTable::new();
    table.arm(EdgeSource::ButtonH);
    for source in ALL {
        assert_eq!(table.is_armed(source), source == EdgeSource::ButtonH);
    }
    table.arm_all();
    for source in ALL {
        assert!(table.is_armed(source));
        assert!(!table.is_pending(source));
    }
}

#[test]
fn fire_disarms_and_reports_an_armed_line_only() {
    let mut table = EdgeFlagTable::new();
    assert!(!table.fire(EdgeSource::ButtonB));
    table.arm(EdgeSource::ButtonB);
    assert!(table.fire(EdgeSource::ButtonB));
    assert!(!table.is_armed(EdgeSource::ButtonB));
    assert!(!table.fire(EdgeSource::ButtonB));
    assert!(!table.is_pending(EdgeSource::ButtonB));
}

#[test]
fn button_handler_sets_the_named_flag_and_signals() {
    let labels = ['a', 'b', 'c', 'd', 'e', 'f', 'g', 'h'];
    for (index, label) in labels.iter().enumerate() {
        let mut table = EdgeFlagTable::new();
        let mut bridge = NotificationBridge::new();
        handle_button_default(&mut table, &mut bridge, *label);
        assert!(bridge.has_pending());
        for source in ALL {
            assert_eq!(table.is_pending(source), source == ALL[index + 1]);
        }
    }
}

#[test]
fn button_handler_with_an_unknown_label_only_signals() {
    let mut table = EdgeFlagTable::new();
    let mut bridge = NotificationBridge::new();
    handle_button_default(&mut table, &mut bridge, 'z');
    assert!(bridge.has_pending());
    assert_eq!(table, EdgeFlagTable::new());
}

#[test]
fn button_handler_takes_the_labels_of_buttons_only() {
    for label in ['q', 'i', 'A', '0', ' '] {
        let mut table = EdgeFlagTable::new();
        let mut bridge = NotificationBridge::new();
        handle_button_default(&mut table, &mut bridge, label);
        assert!(bridge.has_pending());
        assert_eq!(table, EdgeFlagTable::new());
        assert_eq!(EdgeSource::button_from_label(label), None);
    }
    assert_eq!(EdgeSource::from_label('q'), Some(EdgeSource::AlarmPulse));
    assert_eq!(EdgeSource::button_from_label('a'), Some(EdgeSource::ButtonA));
    assert_eq!(EdgeSource::button_from_label('h'), Some(EdgeSource::ButtonH));
}

#[test]
fn alarm_handler_sets_its_flag_and_signals() {
    let mut table = EdgeFlagTable::new();
    let mut bridge = NotificationBridge::new();
    handle_sqw_notice(&mut table, &mut bridge);
    assert!(bridge.has_pending());
    for source in ALL {
        assert_eq!(table.is_pending(source), source == EdgeSource::AlarmPulse);
    }
}

#[test]
fn edge_on_an_unarmed_line_is_ignored() {
    let mut table = EdgeFlagTable::new();
    let mut bridge = NotificationBridge::new();
    assert!(!deliver_edge(&mut table, &mut bridge, EdgeSource::ButtonD));
    assert!(!bridge.has_pending());
    assert_eq!(table, EdgeFlagTable::new());
}

#[test]
fn burst_on_one_source_delivers_one_event() {
    for source in ALL {
        for burst in 1..6usize {
            let mut table = armed_table();
            let mut bridge = NotificationBridge::new();
            let edges = vec![source; burst];
            assert!(deliver_edges(&mut table, &mut bridge, &edges));
            assert!(bridge.has_pending());
            assert!(!table.is_armed(source));
            assert_eq!(table.drain(&all_steady()), vec![source]);
            assert!(!table.is_pending(source));
            assert_eq!(table.drain(&all_steady()), vec![]);
        }
    }
}

#[test]
fn no_edges_deliver_no_event_and_no_wake() {
    let mut table = armed_table();
    let mut bridge = NotificationBridge::new();
    assert!(!deliver_edges(&mut table, &mut bridge, &vec![]));
    assert!(!bridge.has_pending());
    assert_eq!(table.drain(&all_steady()), vec![]);
}

#[test]
fn mixed_bursts_are_delivered_once_each_in_scan_order() {
    let mut table = armed_table();
    let mut bridge = NotificationBridge::new();
    let edges = vec![
        EdgeSource::ButtonH,
        EdgeSource::ButtonB,
        EdgeSource::ButtonH,
        EdgeSource::AlarmPulse,
        EdgeSource::ButtonB,
        EdgeSource::ButtonB,
        EdgeSource::ButtonA,
        EdgeSource::ButtonH,
    ];
    assert!(deliver_edges(&mut table, &mut bridge, &edges));
    assert_eq!(
        table.drain(&all_steady()),
        vec![
            EdgeSource::AlarmPulse,
            EdgeSource::ButtonA,
            EdgeSource::ButtonB,
            EdgeSource::ButtonH,
        ]
    );
    assert_eq!(bridge.wait(WaitLimit::Forever, 0), WaitOutcome::Woken);
    assert_eq!(bridge.wait(WaitLimit::Forever, 0), WaitOutcome::Suspended);
}

#[test]
fn flag_of_an_unsteady_line_waits_for_a_later_scan() {
    let mut table = armed_table();
    let mut bridge = NotificationBridge::new();
    deliver_edges(&mut table, &mut bridge, &vec![EdgeSource::ButtonB, EdgeSource::ButtonE]);
    let mut levels = all_steady();
    levels.steady[EdgeSource::ButtonB.index()] = false;
    assert!(!levels.is_steady(EdgeSource::ButtonB));
    assert!(levels.is_steady(EdgeSource::ButtonE));
    assert_eq!(table.drain(&levels), vec![EdgeSource::ButtonE]);
    assert!(table.is_pending(EdgeSource::ButtonB));
    assert!(!table.is_pending(EdgeSource::ButtonE));
    assert_eq!(table.drain(&all_steady()), vec![EdgeSource::ButtonB]);
    assert!(!table.is_pending(EdgeSource::ButtonB));
}

#[test]
fn source_that_is_not_armed_again_never_fires_again() {
    let mut table = armed_table();
    let mut bridge = NotificationBridge::new();
    deliver_edges(&mut table, &mut bridge, &vec![EdgeSource::ButtonF]);
    assert_eq!(table.drain(&all_steady()), vec![EdgeSource::ButtonF]);
    bridge.wait(WaitLimit::Forever, 0);
    assert!(!deliver_edges(&mut table, &mut bridge, &vec![EdgeSource::ButtonF; 3]));
    assert!(!bridge.has_pending());
    assert_eq!(table.drain(&all_steady()), vec![]);
    table.arm_all();
    assert!(deliver_edges(&mut table, &mut bridge, &vec![EdgeSource::ButtonF; 3]));
    assert_eq!(table.drain(&all_steady()), vec![EdgeSource::ButtonF]);
}

#[test]
fn every_line_is_steady_when_low() {
    for source in ALL {
        assert_eq!(source.steady_level(), Level::Low);
    }
}

#[test]
fn levels_are_taken_down_line_by_line() {
    let mut levels = LineLevels::none();
    for source in ALL {
        assert!(!levels.is_steady(source));
    }
    levels.record(EdgeSource::ButtonC, Level::Low);
    levels.record(EdgeSource::ButtonD, Level::High);
    for source in ALL {
        assert_eq!(levels.is_steady(source), source == EdgeSource::ButtonC);
    }
    levels.record(EdgeSource::ButtonC, Level::High);
    assert_eq!(levels, LineLevels::none());
}

#[test]
fn disarm_touches_one_line() {
    let mut table = armed_table();
    table.disarm(EdgeSource::ButtonG);
    for source in ALL {
        assert_eq!(table.is_armed(source), source != EdgeSource::ButtonG);
        assert!(!table.is_pending(source));
    }
}
