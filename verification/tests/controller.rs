use tweakpoint::config::{Action, AxisMapDef, Config};
use tweakpoint::event::{Event, EV_ABS, EV_KEY, EV_REL, EV_SYN, REL_X, REL_Y, SYN_REPORT};
use tweakpoint::gesture::GestureDir;
use tweakpoint::lock::LockStep;
use tweakpoint::logic::Controller;
use tweakpoint::meta::{ActionType, MetaPhase};
use tweakpoint::scroll::Factor;
use tweakpoint::snapshot::Snapshot;

const META: u16 = 0x112;
const CLICK: u16 = 30;
const HOLD: u16 = 31;
const MOVE: u16 = 32;

fn config() -> Config {
    let mut c = Config::new();
    c.meta.click = Action::Button(CLICK);
    c.meta.hold = Action::Button(HOLD);
    c.meta.motion = Action::Button(MOVE);
    c
}

fn drain(ctl: &mut Controller, now: u64) -> Vec<Event> {
    let mut buf = Vec::new();
    let n = ctl.next_events(now, &mut buf);
    assert_eq!(n, buf.len());
    assert_eq!(ctl.pending(), 0);
    buf
}

fn key(ctl: &mut Controller, now: u64, code: u16, value: i32) {
    let tx = ctl.start_transaction();
    tx.button(ctl, now, code, value);
    tx.finish(ctl);
}

fn frame(ctl: &mut Controller, dx: i32, dy: i32) {
    let mut tx = ctl.start_transaction();
    if dx != 0 {
        assert!(tx.can_take(ctl, REL_X, dx));
        tx.relative(ctl, REL_X, dx);
    }
    if dy != 0 {
        assert!(tx.can_take(ctl, REL_Y, dy));
        tx.relative(ctl, REL_Y, dy);
    }
    assert_eq!(tx.movement(), (dx, dy));
    tx.finish(ctl);
}

#[test]
fn a_new_controller_is_at_rest() {
    let mut ctl = Controller::new(config());
    assert_eq!(ctl.state().meta_down.phase(), MetaPhase::Inactive);
    assert!(!ctl.state().scroll.is_active());
    assert!(ctl.state().lock.state_vec().is_empty());
    assert!(ctl.state().gesture_dir.is_none());
    assert_eq!(ctl.deadline(), None);
    assert_eq!(ctl.pending(), 0);
    assert_eq!(ctl.config().meta.key, META);
    assert!(drain(&mut ctl, 0).is_empty());
}

#[test]
fn a_short_press_is_a_click() {
    let mut ctl = Controller::new(config());
    key(&mut ctl, 1000, META, 1);
    assert_eq!(ctl.deadline(), Some(1250));
    assert!(drain(&mut ctl, 1100).is_empty());
    key(&mut ctl, 1100, META, 0);
    assert_eq!(ctl.pending(), 2);
    assert_eq!(
        drain(&mut ctl, 1100),
        vec![Event::key(CLICK, 1), Event::key(CLICK, 0)]
    );
    assert_eq!(ctl.state().meta_down.phase(), MetaPhase::Inactive);
    assert!(drain(&mut ctl, 5000).is_empty());
}

#[test]
fn a_long_press_is_a_hold() {
    let mut ctl = Controller::new(config());
    key(&mut ctl, 1000, META, 1);
    assert!(drain(&mut ctl, 1249).is_empty());
    assert_eq!(drain(&mut ctl, 1250), vec![Event::key(HOLD, 1)]);
    assert_eq!(ctl.state().meta_down.phase(), MetaPhase::Active(ActionType::Hold));
    assert_eq!(ctl.deadline(), None);
    assert!(drain(&mut ctl, 1300).is_empty());
    key(&mut ctl, 2000, META, 0);
    assert_eq!(drain(&mut ctl, 2000), vec![Event::key(HOLD, 0)]);
    assert_eq!(ctl.state().meta_down.phase(), MetaPhase::Inactive);
}

#[test]
fn a_release_without_a_press_is_a_click() {
    let mut ctl = Controller::new(config());
    key(&mut ctl, 10, META, 0);
    assert_eq!(
        drain(&mut ctl, 10),
        vec![Event::key(CLICK, 1), Event::key(CLICK, 0)]
    );
}

#[test]
fn the_meta_key_is_never_forwarded() {
    let mut ctl = Controller::new(config());
    key(&mut ctl, 0, META, 1);
    assert_eq!(ctl.pending(), 0);
    key(&mut ctl, 10, META, 2);
    assert_eq!(ctl.pending(), 0);
    assert_eq!(ctl.state().meta_down.phase(), MetaPhase::Waiting(250));
    key(&mut ctl, 20, META, -1);
    assert_eq!(ctl.pending(), 0);
    assert_eq!(ctl.state().meta_down.phase(), MetaPhase::Waiting(250));
}

#[test]
fn the_meta_key_is_matched_before_the_button_table() {
    let mut c = config();
    c.btn_map.insert(META, 272);
    c.btn_map.insert(273, META);
    let mut ctl = Controller::new(c);
    key(&mut ctl, 0, META, 1);
    assert_eq!(ctl.state().meta_down.phase(), MetaPhase::Waiting(250));
    assert_eq!(ctl.pending(), 0);
    key(&mut ctl, 10, META, 0);
    drain(&mut ctl, 10);
    key(&mut ctl, 20, 273, 1);
    assert_eq!(drain(&mut ctl, 20), vec![Event::key(META, 1)]);
    assert_eq!(ctl.state().meta_down.phase(), MetaPhase::Inactive);
}

#[test]
fn another_button_turns_a_waiting_press_into_a_hold() {
    let mut ctl = Controller::new(config());
    key(&mut ctl, 0, META, 1);
    key(&mut ctl, 10, 272, 1);
    assert_eq!(ctl.state().meta_down.phase(), MetaPhase::Active(ActionType::Hold));
    assert_eq!(
        drain(&mut ctl, 10),
        vec![Event::key(HOLD, 1), Event::key(272, 1)]
    );
    key(&mut ctl, 20, 272, 0);
    assert_eq!(drain(&mut ctl, 300), vec![Event::key(272, 0)]);
    key(&mut ctl, 400, META, 0);
    assert_eq!(drain(&mut ctl, 400), vec![Event::key(HOLD, 0)]);
}

#[test]
fn buttons_are_remapped_and_forwarded() {
    let mut c = config();
    c.btn_map.insert(272, 273);
    let mut ctl = Controller::new(c);
    key(&mut ctl, 0, 272, 1);
    key(&mut ctl, 0, 272, 0);
    key(&mut ctl, 0, 277, 2);
    assert_eq!(
        drain(&mut ctl, 0),
        vec![Event::key(273, 1), Event::key(273, 0), Event::key(277, 2)]
    );
}

#[test]
fn a_chord_fires_its_action_and_swallows_the_button() {
    let mut c = config();
    c.meta.chord.insert(273, Action::Button(40));
    let mut ctl = Controller::new(c);
    key(&mut ctl, 0, META, 1);
    key(&mut ctl, 10, 273, 1);
    assert_eq!(
        ctl.state().meta_down.phase(),
        MetaPhase::Active(ActionType::Chord(273))
    );
    assert_eq!(drain(&mut ctl, 10), vec![Event::key(40, 1)]);
    key(&mut ctl, 20, 273, 0);
    assert_eq!(drain(&mut ctl, 20), vec![Event::key(40, 0)]);
    assert_eq!(
        ctl.state().meta_down.phase(),
        MetaPhase::Active(ActionType::Chord(273))
    );
    key(&mut ctl, 30, META, 0);
    assert!(drain(&mut ctl, 30).is_empty());
    assert_eq!(ctl.state().meta_down.phase(), MetaPhase::Inactive);
}

#[test]
fn the_edge_of_a_chord_goes_by_the_state_not_by_the_value() {
    let mut c = config();
    c.meta.chord.insert(273, Action::Button(40));
    let mut ctl = Controller::new(c);
    key(&mut ctl, 0, META, 1);
    key(&mut ctl, 10, 273, 0);
    assert_eq!(drain(&mut ctl, 10), vec![Event::key(40, 1)]);
    key(&mut ctl, 20, 273, 1);
    assert_eq!(drain(&mut ctl, 20), vec![Event::key(40, 0)]);
    key(&mut ctl, 30, 273, 2);
    assert_eq!(drain(&mut ctl, 30), vec![Event::key(40, 0)]);
}

#[test]
fn a_chord_goes_by_the_mapped_button() {
    let mut c = config();
    c.btn_map.insert(272, 273);
    c.meta.chord.insert(273, Action::Button(40));
    c.meta.chord.insert(272, Action::Button(41));
    let mut ctl = Controller::new(c);
    key(&mut ctl, 0, META, 1);
    key(&mut ctl, 10, 272, 1);
    assert_eq!(drain(&mut ctl, 10), vec![Event::key(40, 1)]);
    key(&mut ctl, 20, 273, 0);
    assert_eq!(drain(&mut ctl, 20), vec![Event::key(40, 0)]);
}

#[test]
fn a_chord_button_is_an_ordinary_button_while_the_meta_key_is_up() {
    let mut c = config();
    c.meta.chord.insert(273, Action::Button(40));
    let mut ctl = Controller::new(c);
    key(&mut ctl, 0, 273, 1);
    key(&mut ctl, 0, 273, 0);
    assert_eq!(
        drain(&mut ctl, 0),
        vec![Event::key(273, 1), Event::key(273, 0)]
    );
}

#[test]
fn another_chord_button_during_a_chord_is_forwarded() {
    let mut c = config();
    c.meta.chord.insert(273, Action::Button(40));
    c.meta.chord.insert(277, Action::Button(41));
    let mut ctl = Controller::new(c);
    key(&mut ctl, 0, META, 1);
    key(&mut ctl, 10, 273, 1);
    drain(&mut ctl, 10);
    key(&mut ctl, 20, 277, 1);
    assert_eq!(drain(&mut ctl, 20), vec![Event::key(277, 1)]);
    key(&mut ctl, 30, 275, 1);
    assert_eq!(drain(&mut ctl, 30), vec![Event::key(275, 1)]);
}

#[test]
fn the_timer_is_stale_after_a_chord() {
    let mut c = config();
    c.meta.chord.insert(273, Action::Button(40));
    let mut ctl = Controller::new(c);
    key(&mut ctl, 0, META, 1);
    key(&mut ctl, 10, 273, 1);
    assert_eq!(drain(&mut ctl, 1000), vec![Event::key(40, 1)]);
}

#[test]
fn movement_turns_a_waiting_press_into_a_move() {
    let mut ctl = Controller::new(config());
    key(&mut ctl, 0, META, 1);
    frame(&mut ctl, 3, 0);
    assert_eq!(ctl.state().meta_down.phase(), MetaPhase::Active(ActionType::Move));
    assert_eq!(
        drain(&mut ctl, 500),
        vec![Event::key(MOVE, 1), Event::relative(REL_X, 3)]
    );
    frame(&mut ctl, 0, -2);
    assert_eq!(drain(&mut ctl, 500), vec![Event::relative(REL_Y, -2)]);
    key(&mut ctl, 600, META, 0);
    assert_eq!(drain(&mut ctl, 600), vec![Event::key(MOVE, 0)]);
}

#[test]
fn movement_is_mapped_and_scaled() {
    let mut c = config();
    c.axis_map.regular.insert(
        REL_X,
        AxisMapDef { axis: REL_Y, factor: Factor { millionths: 500_000 } },
    );
    let mut ctl = Controller::new(c);
    let mut tx = ctl.start_transaction();
    tx.relative(&mut ctl, REL_X, 3);
    tx.relative(&mut ctl, REL_X, 3);
    tx.relative(&mut ctl, REL_Y, 4);
    assert_eq!(tx.movement(), (0, 10));
    tx.finish(&mut ctl);
    assert_eq!(
        drain(&mut ctl, 0),
        vec![
            Event { kind: EV_REL, code: REL_Y, value: 1 },
            Event { kind: EV_REL, code: REL_Y, value: 2 },
            Event { kind: EV_REL, code: REL_Y, value: 4 },
        ]
    );
}

#[test]
fn scroll_mode_uses_the_scroll_table() {
    let mut c = Config::new();
    c.axis_map.scroll.insert(
        REL_Y,
        AxisMapDef { axis: 8, factor: Factor { millionths: 100_000 } },
    );
    let mut ctl = Controller::new(c);
    frame(&mut ctl, 0, 10);
    assert_eq!(drain(&mut ctl, 0), vec![Event::relative(REL_Y, 10)]);
    key(&mut ctl, 0, META, 1);
    key(&mut ctl, 10, META, 0);
    assert!(ctl.state().scroll.is_active());
    frame(&mut ctl, 4, 15);
    assert_eq!(
        drain(&mut ctl, 20),
        vec![Event::relative(REL_X, 4), Event::relative(8, 1)]
    );
    frame(&mut ctl, 0, 5);
    assert_eq!(drain(&mut ctl, 20), vec![Event::relative(8, 1)]);
    key(&mut ctl, 30, META, 1);
    key(&mut ctl, 40, META, 0);
    assert!(!ctl.state().scroll.is_active());
    frame(&mut ctl, 0, 5);
    assert_eq!(drain(&mut ctl, 50), vec![Event::relative(REL_Y, 5)]);
}

fn gesture_config() -> Config {
    let mut c = config();
    c.meta.hold = Action::Gesture(vec![
        ("RUD".to_string(), Action::Button(50)),
        ("L".to_string(), Action::ToggleScroll),
        ("U".to_string(), Action::Gesture(vec![("".to_string(), Action::Button(51))])),
    ]);
    c
}

fn open_gesture(ctl: &mut Controller) {
    key(ctl, 0, META, 1);
    assert!(drain(ctl, 250).is_empty());
    assert_eq!(ctl.state().gesture_dir, Some(vec![]));
}

#[test]
fn a_gesture_records_the_direction_of_each_frame() {
    let mut ctl = Controller::new(gesture_config());
    open_gesture(&mut ctl);
    frame(&mut ctl, 10, 0);
    assert_eq!(ctl.state().gesture_dir, Some(vec![GestureDir::R]));
    frame(&mut ctl, 20, 3);
    assert_eq!(ctl.state().gesture_dir, Some(vec![GestureDir::R]));
    frame(&mut ctl, 2, -3);
    assert_eq!(ctl.state().gesture_dir, Some(vec![GestureDir::R]));
    frame(&mut ctl, 0, -10);
    frame(&mut ctl, 4, 5);
    frame(&mut ctl, 4, -4);
    assert_eq!(
        ctl.state().gesture_dir,
        Some(vec![GestureDir::R, GestureDir::U, GestureDir::D])
    );
    assert!(drain(&mut ctl, 300).is_empty());
    key(&mut ctl, 400, META, 0);
    assert!(ctl.state().gesture_dir.is_none());
    assert_eq!(
        drain(&mut ctl, 400),
        vec![Event::key(50, 1), Event::key(50, 0)]
    );
}

#[test]
fn an_unbound_gesture_emits_nothing() {
    let mut ctl = Controller::new(gesture_config());
    open_gesture(&mut ctl);
    frame(&mut ctl, 10, 0);
    frame(&mut ctl, 0, 10);
    key(&mut ctl, 400, META, 0);
    assert!(ctl.state().gesture_dir.is_none());
    assert!(drain(&mut ctl, 400).is_empty());
}

#[test]
fn a_bound_toggle_is_pulsed() {
    let mut ctl = Controller::new(gesture_config());
    open_gesture(&mut ctl);
    frame(&mut ctl, -10, 0);
    key(&mut ctl, 400, META, 0);
    assert!(ctl.state().scroll.is_active());
    assert!(drain(&mut ctl, 400).is_empty());
}

#[test]
fn a_gesture_bound_to_a_gesture_is_not_run() {
    let mut ctl = Controller::new(gesture_config());
    open_gesture(&mut ctl);
    frame(&mut ctl, 0, -10);
    key(&mut ctl, 400, META, 0);
    assert!(ctl.state().gesture_dir.is_none());
    assert!(drain(&mut ctl, 400).is_empty());
}

#[test]
fn movement_is_recorded_only_while_a_gesture_is_open() {
    let mut ctl = Controller::new(gesture_config());
    frame(&mut ctl, 10, 0);
    assert!(ctl.state().gesture_dir.is_none());
    assert_eq!(drain(&mut ctl, 0), vec![Event::relative(REL_X, 10)]);
}

#[test]
fn movement_during_a_gesture_is_emitted_only_on_request() {
    let mut c = gesture_config();
    c.move_during_gesture = true;
    let mut ctl = Controller::new(c);
    open_gesture(&mut ctl);
    frame(&mut ctl, 10, 0);
    assert_eq!(drain(&mut ctl, 300), vec![Event::relative(REL_X, 10)]);
    assert_eq!(ctl.state().gesture_dir, Some(vec![GestureDir::R]));
}

#[test]
fn the_gesture_goes_by_the_regular_axis_table() {
    let mut c = gesture_config();
    c.axis_map.regular.insert(REL_X, AxisMapDef { axis: REL_Y, factor: Factor::one() });
    c.axis_map.regular.insert(REL_Y, AxisMapDef { axis: 8, factor: Factor::one() });
    c.axis_map.scroll.insert(REL_X, AxisMapDef { axis: REL_X, factor: Factor::one() });
    c.meta.click = Action::ToggleScroll;
    let mut ctl = Controller::new(c);
    key(&mut ctl, 0, META, 1);
    key(&mut ctl, 1, META, 0);
    assert!(ctl.state().scroll.is_active());
    open_gesture(&mut ctl);
    let mut tx = ctl.start_transaction();
    tx.relative(&mut ctl, REL_X, 10);
    tx.relative(&mut ctl, REL_Y, -50);
    assert_eq!(tx.movement(), (0, 10));
    tx.finish(&mut ctl);
    assert_eq!(ctl.state().gesture_dir, Some(vec![GestureDir::D]));
}

#[test]
fn a_sticky_lock_holds_a_button_until_the_next_click() {
    let mut c = config();
    c.meta.click = Action::ToggleLock(vec![272]);
    let mut ctl = Controller::new(c);
    key(&mut ctl, 0, META, 1);
    key(&mut ctl, 10, META, 0);
    assert_eq!(ctl.state().lock.state_vec(), vec![(272, LockStep::Released)]);
    key(&mut ctl, 20, 272, 1);
    key(&mut ctl, 30, 272, 0);
    key(&mut ctl, 40, 272, 1);
    assert_eq!(drain(&mut ctl, 40), vec![Event::key(272, 1)]);
    assert_eq!(ctl.state().lock.state_vec(), vec![(272, LockStep::WillRelease)]);
    key(&mut ctl, 50, 272, 0);
    assert_eq!(drain(&mut ctl, 50), vec![Event::key(272, 0)]);
    key(&mut ctl, 60, 272, 1);
    key(&mut ctl, 70, 272, 0);
    assert_eq!(ctl.state().lock.state_vec(), vec![(272, LockStep::Locked)]);
    assert_eq!(drain(&mut ctl, 70), vec![Event::key(272, 1)]);
    key(&mut ctl, 80, META, 1);
    key(&mut ctl, 90, META, 0);
    assert_eq!(drain(&mut ctl, 90), vec![Event::key(272, 0)]);
    assert!(ctl.state().lock.state_vec().is_empty());
}

#[test]
fn dispatch_routes_by_event_type() {
    let mut ctl = Controller::new(config());
    let mut tx = ctl.start_transaction();
    assert!(!tx.dispatch(&mut ctl, 0, Event { kind: EV_KEY, code: 272, value: 1 }));
    assert!(!tx.dispatch(&mut ctl, 0, Event { kind: EV_REL, code: REL_X, value: 9 }));
    assert!(!tx.dispatch(&mut ctl, 0, Event { kind: EV_ABS, code: 0, value: 77 }));
    assert!(!tx.dispatch(&mut ctl, 0, Event { kind: 4, code: 4, value: 0x90001 }));
    assert!(!tx.dispatch(&mut ctl, 0, Event { kind: EV_SYN, code: 3, value: 0 }));
    assert!(!tx.dispatch(&mut ctl, 0, Event { kind: EV_KEY, code: META, value: 1 }));
    assert!(tx.dispatch(&mut ctl, 0, Event { kind: EV_SYN, code: SYN_REPORT, value: 0 }));
    assert_eq!(tx.movement(), (9, 0));
    tx.finish(&mut ctl);
    assert_eq!(ctl.deadline(), Some(250));
    assert_eq!(
        drain(&mut ctl, 0),
        vec![
            Event { kind: EV_KEY, code: 272, value: 1 },
            Event { kind: EV_REL, code: REL_X, value: 9 },
            Event { kind: EV_ABS, code: 0, value: 77 },
            Event { kind: 4, code: 4, value: 0x90001 },
            Event { kind: EV_SYN, code: 3, value: 0 },
        ]
    );
}

#[test]
fn passthrough_forwards_unchanged() {
    let mut ctl = Controller::new(config());
    let tx = ctl.start_transaction();
    let ev = Event { kind: 17, code: 1, value: -5 };
    tx.passthrough(&mut ctl, ev);
    tx.finish(&mut ctl);
    assert_eq!(drain(&mut ctl, 0), vec![ev]);
}

#[test]
fn next_events_appends_to_the_buffer() {
    let mut ctl = Controller::new(config());
    key(&mut ctl, 0, 272, 1);
    key(&mut ctl, 0, META, 1);
    let mut buf = vec![Event::key(1, 1)];
    assert_eq!(ctl.next_events(250, &mut buf), 2);
    assert_eq!(
        buf,
        vec![Event::key(1, 1), Event::key(272, 1), Event::key(HOLD, 1)]
    );
    assert_eq!(ctl.next_events(251, &mut buf), 0);
    assert_eq!(buf.len(), 3);
}

#[test]
fn the_tally_must_fit() {
    let mut c = config();
    c.axis_map.regular.insert(3, AxisMapDef { axis: REL_X, factor: Factor::one() });
    c.axis_map.regular.insert(REL_Y, AxisMapDef { axis: 7, factor: Factor::one() });
    let mut ctl = Controller::new(c);
    let mut tx = ctl.start_transaction();
    tx.relative(&mut ctl, REL_X, i32::MAX);
    assert!(!tx.can_take(&ctl, REL_X, 1));
    assert!(!tx.can_take(&ctl, 3, 1));
    assert!(tx.can_take(&ctl, REL_X, 0));
    assert!(tx.can_take(&ctl, REL_X, -1));
    assert!(tx.can_take(&ctl, REL_Y, i32::MAX));
    assert!(tx.can_take(&ctl, 5, i32::MAX));
    tx.relative(&mut ctl, REL_Y, i32::MAX);
    tx.relative(&mut ctl, REL_X, i32::MIN);
    assert_eq!(tx.movement(), (-1, 0));
    assert!(tx.can_take(&ctl, REL_X, i32::MIN + 1));
    assert!(!tx.can_take(&ctl, REL_X, i32::MIN));
}

#[test]
fn state_vec_frames_the_state() {
    let mut c = gesture_config();
    c.meta.click = Action::ToggleScroll;
    c.meta.chord.insert(276, Action::ToggleLock(vec![272]));
    let mut ctl = Controller::new(c);
    let mut out = Vec::new();
    assert!(ctl.can_frame());
    ctl.state_vec(&mut out);
    assert_eq!(out, vec![13, 0, 0, 0, 1, 0, 0, 0, 0, 0, 0, 0, 0, 0, 0, 0, 0]);
    key(&mut ctl, 0, META, 1);
    key(&mut ctl, 1, META, 0);
    key(&mut ctl, 2, META, 1);
    key(&mut ctl, 3, 276, 1);
    key(&mut ctl, 4, 276, 0);
    key(&mut ctl, 5, META, 0);
    key(&mut ctl, 6, 272, 1);
    key(&mut ctl, 7, 272, 0);
    key(&mut ctl, 8, META, 1);
    drain(&mut ctl, 258);
    frame(&mut ctl, 0, -10);
    frame(&mut ctl, 10, 0);
    assert!(ctl.can_frame());
    out.clear();
    ctl.state_vec(&mut out);
    assert_eq!(
        out,
        vec![
            18, 0, 0, 0, 1, 0, 0, 0, 1, 3, 0, 0, 0, 0x10, 0x01, b'L', 2, 0, 0, 0, b'U', b'R'
        ]
    );
    let snap = Snapshot::from_bytes(&out[4..]).unwrap();
    assert!(snap.scroll_active);
    assert_eq!(snap.buttons, vec![(272, LockStep::Locked)]);
    assert_eq!(snap.gesture, vec![GestureDir::U, GestureDir::R]);
    ctl.state_vec(&mut out);
    assert_eq!(out.len(), 44);
    assert_eq!(out[..22], out[22..]);
}
