use tweakpoint::config::{
    lookup_gesture, Action, AxisMap, AxisMapDef, Config, MetaConfig, BTN_MIDDLE, BTN_TASK,
};
use tweakpoint::gesture::GestureDir;
use tweakpoint::scroll::Factor;

#[test]
fn default_configuration() {
    let c = Config::new();
    assert!(c.btn_map.is_empty());
    assert_eq!(c.min_gesture_movement, 5);
    assert!(!c.move_during_gesture);
    assert!(c.axis_map.regular.is_empty());
    assert!(c.axis_map.scroll.is_empty());
    assert_eq!(c.meta.key, BTN_MIDDLE);
    assert_eq!(BTN_MIDDLE, 0x112);
    assert_eq!(BTN_TASK, 0x117);
    let m = MetaConfig::new();
    assert_eq!(m.key, 0x112);
    assert_eq!(m.hold_time, 250);
    assert!(matches!(m.hold, Action::Button(0x117)));
    assert!(matches!(m.motion, Action::Button(0x117)));
    assert!(matches!(m.click, Action::ToggleScroll));
    assert!(m.chord.is_empty());
}

#[test]
fn unmapped_axis_maps_to_itself_at_factor_one() {
    let m = AxisMap::new();
    assert_eq!(m.get(0, false), AxisMapDef { axis: 0, factor: Factor::one() });
    assert_eq!(m.get(8, true), AxisMapDef { axis: 8, factor: Factor::one() });
}

#[test]
fn scroll_table_wins_only_in_scroll_mode() {
    let mut m = AxisMap::new();
    let regular = AxisMapDef { axis: 1, factor: Factor { millionths: 2_000_000 } };
    let scroll = AxisMapDef { axis: 8, factor: Factor { millionths: 100_000 } };
    m.regular.insert(0, regular);
    m.scroll.insert(0, scroll);
    m.scroll.insert(1, scroll);
    m.regular.insert(2, regular);
    assert_eq!(m.get(0, false), regular);
    assert_eq!(m.get(0, true), scroll);
    assert_eq!(m.get(1, false), AxisMapDef { axis: 1, factor: Factor::one() });
    assert_eq!(m.get(1, true), scroll);
    assert_eq!(m.get(2, true), regular);
    assert_eq!(m.get(2, false), regular);
}

#[test]
fn button_table_maps_or_leaves() {
    let mut c = Config::new();
    c.btn_map.insert(272, 273);
    assert_eq!(c.map_button(272), 273);
    assert_eq!(c.map_button(273), 273);
    assert_eq!(c.map_button(0), 0);
}

#[test]
fn gesture_lookup_goes_by_the_letters() {
    let table = vec![
        ("RUD".to_string(), Action::Button(1)),
        ("".to_string(), Action::Button(2)),
        ("R".to_string(), Action::Button(3)),
        ("R".to_string(), Action::Button(4)),
        ("r\u{e9}".to_string(), Action::Button(5)),
    ];
    let found = lookup_gesture(&table, &vec![GestureDir::R, GestureDir::U, GestureDir::D]);
    assert!(matches!(found, Some(Action::Button(1))));
    assert!(matches!(lookup_gesture(&table, &vec![]), Some(Action::Button(2))));
    assert!(matches!(lookup_gesture(&table, &vec![GestureDir::R]), Some(Action::Button(3))));
    assert!(lookup_gesture(&table, &vec![GestureDir::L]).is_none());
    assert!(lookup_gesture(&table, &vec![GestureDir::R, GestureDir::U]).is_none());
    assert!(lookup_gesture(&vec![], &vec![]).is_none());
}
