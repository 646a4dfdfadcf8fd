//! The engine: it takes the physical device's events frame by frame, runs
//! them through the meta key, the tables, the locks, scroll mode and the
//! gesture recorder, and queues what the virtual device is to emit.
//!
//! The caller owns the clock, the timer and the devices. It hands each
//! event of a frame to a `Transaction`, closes the transaction at the
//! frame's end, and fetches the queued events with `next_events`, which
//! also looks at the meta key's timer. Times are in milliseconds.

use vstd::prelude::*;
use crate::config::{Action, Config};
use crate::event::{Direction, Event, EV_KEY, EV_REL, REL_X, REL_Y};
use crate::gesture::{classify, dominant, record, recorded};
use crate::lock::{after_check, lemma_ascending_len, passes};
use crate::meta::{ActionType, MetaPhase};
use crate::snapshot::{encode_frame, frame, payload_len};
use crate::state::{State, StateView};

verus! {

/// The mathematical content of a controller, but for its configuration.
pub struct ControllerView {
    pub state: StateView,
    /// The events that wait to be emitted, oldest first.
    pub queue: Seq<Event>,
}

/// The running transaction's net movement after a relative event. The axis
/// counts as the regular table maps it, whatever the scroll mode and the
/// factor; only the horizontal and the vertical axis count.
pub open spec fn tally_after(config: Config, tally: (i32, i32), axis: u16, value: i32) -> (
    int,
    int,
) {
    let target = config.axis_map.spec_get(axis, false).axis;
    if target == REL_X {
        (tally.0 + value, tally.1 as int)
    } else if target == REL_Y {
        (tally.0 as int, tally.1 + value)
    } else {
        (tally.0 as int, tally.1 as int)
    }
}

/// Whether the net movement after a relative event still fits its type.
pub open spec fn tally_fits(config: Config, tally: (i32, i32), axis: u16, value: i32) -> bool {
    let (dx, dy) = tally_after(config, tally, axis, value);
    i32::MIN <= dx <= i32::MAX && i32::MIN <= dy <= i32::MAX
}

/// A press or release of the meta key: value 1 starts the wait, value 0
/// resolves the press, any other value does nothing. Nothing is forwarded.
pub open spec fn meta_key_step(config: Config, c: ControllerView, now: u64, value: i32) -> ControllerView {
    if value == 1 {
        ControllerView {
            state: StateView {
                meta: MetaPhase::Waiting(MetaPhase::deadline_for(now, config.meta.hold_time)),
                ..c.state
            },
            ..c
        }
    } else if value == 0 {
        let (state, events) = c.state.meta_released(config.meta);
        ControllerView { state, queue: c.queue + events }
    } else {
        c
    }
}

/// What an event of the button `mapped` does to the meta key: the state
/// after it, the events of the action it fires, and whether it swallows the
/// button's own event. With a chord action on the button, a waiting press
/// becomes that chord and the action's `Down` edge fires, and the button of
/// the running chord fires the action's `Up` edge; both swallow the event.
/// Without one, a waiting press becomes a hold and the hold action's `Down`
/// edge fires.
pub open spec fn escalated(config: Config, s: StateView, mapped: u16) -> (
    StateView,
    Seq<Event>,
    bool,
) {
    if config.meta.chord@.contains_key(mapped) {
        let action = config.meta.chord@[mapped];
        match s.meta {
            MetaPhase::Waiting(_) => {
                let armed = StateView { meta: MetaPhase::Active(ActionType::Chord(mapped)), ..s };
                let (after, events) = action.effect(armed, Direction::Down);
                (after, events, true)
            },
            MetaPhase::Active(ActionType::Chord(held)) => if held == mapped {
                let (after, events) = action.effect(s, Direction::Up);
                (after, events, true)
            } else {
                (s, Seq::empty(), false)
            },
            _ => (s, Seq::empty(), false),
        }
    } else {
        match s.meta {
            MetaPhase::Waiting(_) => {
                let armed = StateView { meta: MetaPhase::Active(ActionType::Hold), ..s };
                let (after, events) = config.meta.hold.effect(armed, Direction::Down);
                (after, events, false)
            },
            _ => (s, Seq::empty(), false),
        }
    }
}

/// An event of another button than the meta key: the button is mapped, the
/// meta key takes note, and unless the event is swallowed it goes through
/// the sticky lock and is forwarded where the lock lets it pass.
pub open spec fn other_key_step(config: Config, c: ControllerView, key: u16, value: i32) -> ControllerView {
    let mapped = config.spec_map_button(key);
    let (s, events, swallowed) = escalated(config, c.state, mapped);
    if swallowed {
        ControllerView { state: s, queue: c.queue + events }
    } else {
        ControllerView {
            state: StateView { lock: after_check(s.lock, mapped, value), ..s },
            queue: if passes(s.lock, mapped, value) {
                (c.queue + events).push(Event::spec_key(mapped, value))
            } else {
                c.queue + events
            },
        }
    }
}

/// A key event.
pub open spec fn button_step(config: Config, c: ControllerView, now: u64, key: u16, value: i32) -> ControllerView {
    if key == config.meta.key {
        meta_key_step(config, c, now, value)
    } else {
        other_key_step(config, c, key, value)
    }
}

/// A relative event: a waiting press of the meta key becomes a move and the
/// move action's `Down` edge fires; then the axis is mapped by the table of
/// the current mode and the movement is scaled. The scaled movement is
/// forwarded unless a gesture is open and movement during gestures is off.
pub open spec fn relative_step(config: Config, c: ControllerView, axis: u16, value: i32) -> ControllerView {
    let (s, events) = match c.state.meta {
        MetaPhase::Waiting(_) => config.meta.motion.effect(
            StateView { meta: MetaPhase::Active(ActionType::Move), ..c.state },
            Direction::Down,
        ),
        _ => (c.state, Seq::empty()),
    };
    let def = config.axis_map.spec_get(axis, s.scroll.active);
    let out = s.scroll.emits(def.axis, value, def.factor) as i32;
    ControllerView {
        state: StateView { scroll: s.scroll.scrolled(def.axis, value, def.factor), ..s },
        queue: if config.move_during_gesture || s.gesture is None {
            (c.queue + events).push(Event::spec_relative(def.axis, out))
        } else {
            c.queue + events
        },
    }
}

/// The end of a frame: where the net movement has a direction and a
/// gesture is open, the direction is recorded.
pub open spec fn frame_end_step(config: Config, c: ControllerView, tally: (i32, i32)) -> ControllerView {
    match (
        dominant(tally.0 as int, tally.1 as int, config.min_gesture_movement as int),
        c.state.gesture,
    ) {
        (Some(dir), Some(dirs)) => ControllerView {
            state: StateView { gesture: Some(recorded(dirs, dir)), ..c.state },
            ..c
        },
        _ => c,
    }
}

/// A look at the meta key's timer at `now`: a press whose timer has run out
/// becomes a hold, and the hold action's `Down` edge fires.
pub open spec fn timer_step(config: Config, c: ControllerView, now: u64) -> ControllerView {
    if c.state.meta.due(now) {
        let (state, events) = config.meta.hold.effect(
            StateView { meta: MetaPhase::Active(ActionType::Hold), ..c.state },
            Direction::Down,
        );
        ControllerView { state, queue: c.queue + events }
    } else {
        c
    }
}

/// What the caller is to do next.
#[derive(Clone, Copy, Debug, PartialEq, Eq, Structural)]
pub enum Schedule {
    /// Call `next_events` now: events are queued or the meta key's timer
    /// has run out.
    Emit,
    /// Wait for the physical device, but no longer than until this time.
    Sleep(u64),
    /// Wait for the physical device.
    Idle,
}

/// What is due at `now`. Queued events and a timer that has run out come
/// before any event that the physical device may hold, so that what the
/// engine itself produced never waits behind input not yet looked at.
pub open spec fn scheduled(c: ControllerView, now: u64) -> Schedule {
    if c.queue.len() > 0 || c.state.meta.due(now) {
        Schedule::Emit
    } else {
        match c.state.meta {
            MetaPhase::Waiting(deadline) => Schedule::Sleep(deadline),
            _ => Schedule::Idle,
        }
    }
}

/// A press of the meta key that is released before its timer runs out is a
/// click: the timer does nothing in between, and the release emits the
/// click action's `Down` and `Up` edges and nothing of the hold action.
pub proof fn lemma_short_press_clicks(
    config: Config,
    c: ControllerView,
    pressed: u64,
    looked: u64,
    released: u64,
)
    requires
        looked < MetaPhase::deadline_for(pressed, config.meta.hold_time),
    ensures
        ({
            let down = button_step(config, c, pressed, config.meta.key, 1);
            let idle = timer_step(config, down, looked);
            let up = button_step(config, idle, released, config.meta.key, 0);
            let (first_state, first) = config.meta.click.effect(down.state, Direction::Down);
            let (second_state, second) = config.meta.click.effect(first_state, Direction::Up);
            &&& down.queue == c.queue
            &&& idle == down
            &&& up.queue == c.queue + (first + second)
            &&& up.state == (StateView { meta: MetaPhase::Inactive, ..second_state })
        }),
{
}

/// A press of the meta key that nothing disturbs until its timer runs out
/// is a hold: the timer emits the hold action's `Down` edge, the release its
/// `Up` edge, and nothing of the click action is emitted.
pub proof fn lemma_long_press_holds(
    config: Config,
    c: ControllerView,
    pressed: u64,
    looked: u64,
    released: u64,
)
    requires
        looked >= MetaPhase::deadline_for(pressed, config.meta.hold_time),
    ensures
        ({
            let down = button_step(config, c, pressed, config.meta.key, 1);
            let held = timer_step(config, down, looked);
            let up = button_step(config, held, released, config.meta.key, 0);
            let armed = StateView { meta: MetaPhase::Active(ActionType::Hold), ..c.state };
            let (first_state, first) = config.meta.hold.effect(armed, Direction::Down);
            let (second_state, second) = config.meta.hold.effect(first_state, Direction::Up);
            &&& down.queue == c.queue
            &&& held.queue == c.queue + first
            &&& held.state == first_state
            &&& first_state.meta == MetaPhase::Active(ActionType::Hold)
            &&& up.queue == c.queue + first + second
            &&& up.state == (StateView { meta: MetaPhase::Inactive, ..second_state })
        }),
{
    let armed = StateView { meta: MetaPhase::Active(ActionType::Hold), ..c.state };
    lemma_effect_keeps_meta(config.meta.hold, armed, Direction::Down);
}

/// No action touches the meta key's state.
pub proof fn lemma_effect_keeps_meta(action: Action, s: StateView, dir: Direction)
    ensures
        action.effect(s, dir).0.meta == s.meta,
{
}

/// The engine's state, its configuration and its queue of events to emit.
pub struct Controller {
    state: State,
    config: Config,
    synthetic: Vec<Event>,
}

impl View for Controller {
    type V = ControllerView;

    closed spec fn view(&self) -> ControllerView {
        ControllerView { state: self.state@, queue: self.synthetic@ }
    }
}

impl Controller {
    /// The configuration that the controller was made with.
    pub closed spec fn spec_config(&self) -> Config {
        self.config
    }

    /// The state is well formed.
    pub open spec fn wf(&self) -> bool {
        self@.state.wf()
    }

    /// Whether the snapshot's byte counts fit their four bytes.
    pub open spec fn framable(&self) -> bool {
        payload_len(
            self@.state.lock.len(),
            match self@.state.gesture {
                Some(dirs) => dirs.len(),
                None => 0,
            },
        ) <= u32::MAX
    }

    /// A controller at rest: the state as `State::new` has it, and nothing
    /// queued.
    pub fn new(config: Config) -> (ctl: Controller)
        ensures
            ctl.wf(),
            ctl.spec_config() == config,
            ctl@.queue.len() == 0,
            ctl@.state.meta == MetaPhase::Inactive,
            !ctl@.state.scroll.active,
            ctl@.state.scroll.carry == Map::<u16, i64>::empty(),
            ctl@.state.lock.len() == 0,
            ctl@.state.gesture is None,
    {
        Controller { state: State::new(), config, synthetic: Vec::new() }
    }

    /// The state.
    pub fn state(&self) -> (state: &State)
        ensures
            state@ == self@.state,
    {
        &self.state
    }

    /// The configuration.
    pub fn config(&self) -> (config: &Config)
        ensures
            *config == self.spec_config(),
    {
        &self.config
    }

    /// The number of events that wait to be emitted.
    pub fn pending(&self) -> (n: usize)
        ensures
            n == self@.queue.len(),
    {
        self.synthetic.len()
    }

    /// When the meta key's timer runs out, while a press waits.
    pub fn deadline(&self) -> (d: Option<u64>)
        ensures
            d == match self@.state.meta {
                MetaPhase::Waiting(deadline) => Some(deadline),
                _ => None,
            },
    {
        self.state.meta_down.deadline()
    }

    /// What the caller is to do next, at `now`.
    pub fn schedule(&self, now: u64) -> (s: Schedule)
        ensures
            s == scheduled(self@, now),
    {
        if self.synthetic.len() > 0 {
            return Schedule::Emit;
        }
        match self.state.meta_down.deadline() {
            Some(deadline) => if now >= deadline {
                Schedule::Emit
            } else {
                Schedule::Sleep(deadline)
            },
            None => Schedule::Idle,
        }
    }

    /// Whether `state_vec` can frame the state as it is.
    pub fn can_frame(&self) -> (ok: bool)
        requires
            self.wf(),
        ensures
            ok == self.framable(),
    {
        proof {
            lemma_ascending_len(self.state.lock@);
        }
        let locks = self.state.lock.entries().len();
        let dirs = match &self.state.gesture_dir {
            Some(dirs) => dirs.len(),
            None => 0,
        };
        dirs <= 0xffff_ffff - 13 - 3 * locks
    }

    /// Appends the snapshot of the state to `out`, as a frame: scroll mode,
    /// the tracked buttons and the open gesture.
    pub fn state_vec(&self, out: &mut Vec<u8>)
        requires
            self.framable(),
        ensures
            final(out)@ == old(out)@ + frame(
                self@.state.scroll.active,
                self@.state.lock,
                match self@.state.gesture {
                    Some(dirs) => dirs,
                    None => Seq::empty(),
                },
            ),
    {
        let scroll_active = self.state.scroll.is_active();
        let none: Vec<crate::gesture::GestureDir> = Vec::new();
        let dirs = match &self.state.gesture_dir {
            Some(dirs) => dirs,
            None => &none,
        };
        encode_frame(scroll_active, self.state.lock.entries(), dirs, out);
    }

    /// A fresh transaction, for the events of one frame.
    pub fn start_transaction(&self) -> (tx: Transaction)
        ensures
            tx@ == (0i32, 0i32),
    {
        Transaction { relative_movement: (0, 0) }
    }

    /// Looks at the meta key's timer at `now`, then moves every queued event
    /// to the end of `buf`, oldest first, and says how many there were.
    pub fn next_events(&mut self, now: u64, buf: &mut Vec<Event>) -> (n: usize)
        requires
            old(self).wf(),
        ensures
            final(self).wf(),
            final(self).spec_config() == old(self).spec_config(),
            final(self)@.state == timer_step(old(self).spec_config(), old(self)@, now).state,
            final(self)@.queue.len() == 0,
            final(buf)@ == old(buf)@ + timer_step(old(self).spec_config(), old(self)@, now).queue,
            n == timer_step(old(self).spec_config(), old(self)@, now).queue.len(),
    {
        if self.state.meta_down.wait(now) {
            let mut events = self.config.meta.hold.run(&mut self.state, Direction::Down);
            self.synthetic.append(&mut events);
        }
        let n = self.synthetic.len();
        buf.append(&mut self.synthetic);
        n
    }
}

/// The events of one frame. It keeps the frame's net movement, which at the
/// frame's end may count as a direction of the open gesture.
pub struct Transaction {
    relative_movement: (i32, i32),
}

impl View for Transaction {
    type V = (i32, i32);

    closed spec fn view(&self) -> (i32, i32) {
        self.relative_movement
    }
}

impl Transaction {
    /// The frame's net movement so far, horizontal and vertical.
    pub fn movement(&self) -> (tally: (i32, i32))
        ensures
            tally == self@,
    {
        self.relative_movement
    }

    /// Whether the net movement still fits its type after this relative
    /// event, which `relative` and `dispatch` ask for.
    pub fn can_take(&self, ctl: &Controller, axis: u16, value: i32) -> (ok: bool)
        ensures
            ok == tally_fits(ctl.spec_config(), self@, axis, value),
    {
        let target = ctl.config.axis_map.get(axis, false).axis;
        if target == REL_X {
            self.relative_movement.0.checked_add(value).is_some()
        } else if target == REL_Y {
            self.relative_movement.1.checked_add(value).is_some()
        } else {
            true
        }
    }

    /// Takes a key event.
    pub fn button(&self, ctl: &mut Controller, now: u64, key_code: u16, value: i32)
        requires
            old(ctl).wf(),
        ensures
            final(ctl).wf(),
            final(ctl).spec_config() == old(ctl).spec_config(),
            final(ctl)@ == button_step(old(ctl).spec_config(), old(ctl)@, now, key_code, value),
    {
        if key_code == ctl.config.meta.key {
            if value == 1 {
                ctl.state.meta_down.start_wait(now, ctl.config.meta.hold_time);
            } else if value == 0 {
                let mut events = ctl.state.handle_meta_up(&ctl.config.meta);
                ctl.synthetic.append(&mut events);
            }
            return;
        }
        let mapped = ctl.config.map_button(key_code);
        let waiting = ctl.state.meta_down.deadline().is_some();
        match ctl.config.meta.chord.get(&mapped) {
            Some(action) => {
                if ctl.state.meta_down.activate_waiting(ActionType::Chord(mapped)) {
                    let dir = if waiting {
                        Direction::Down
                    } else {
                        Direction::Up
                    };
                    let mut events = action.run(&mut ctl.state, dir);
                    ctl.synthetic.append(&mut events);
                    return;
                }
            },
            None => {
                if ctl.state.meta_down.activate_waiting(ActionType::Hold) {
                    let mut events = ctl.config.meta.hold.run(&mut ctl.state, Direction::Down);
                    ctl.synthetic.append(&mut events);
                }
            },
        }
        match ctl.state.lock.check(mapped, value) {
            Some(key) => {
                ctl.synthetic.push(Event::key(key, value));
            },
            None => {},
        }
    }

    /// Takes a relative event.
    pub fn relative(&mut self, ctl: &mut Controller, axis: u16, value: i32)
        requires
            old(ctl).wf(),
            tally_fits(old(ctl).spec_config(), old(self)@, axis, value),
        ensures
            final(ctl).wf(),
            final(ctl).spec_config() == old(ctl).spec_config(),
            final(ctl)@ == relative_step(old(ctl).spec_config(), old(ctl)@, axis, value),
            (final(self)@.0 as int, final(self)@.1 as int) == tally_after(
                old(ctl).spec_config(),
                old(self)@,
                axis,
                value,
            ),
    {
        if ctl.state.meta_down.activate_waiting(ActionType::Move) {
            let mut events = ctl.config.meta.motion.run(&mut ctl.state, Direction::Down);
            ctl.synthetic.append(&mut events);
        }
        let target = ctl.config.axis_map.get(axis, false).axis;
        if target == REL_X {
            self.relative_movement.0 = self.relative_movement.0 + value;
        } else if target == REL_Y {
            self.relative_movement.1 = self.relative_movement.1 + value;
        }
        let def = ctl.config.axis_map.get(axis, ctl.state.scroll.is_active());
        let out = ctl.state.scroll.scroll(def.axis, value, def.factor);
        if ctl.config.move_during_gesture || ctl.state.gesture_dir.is_none() {
            ctl.synthetic.push(Event::relative(def.axis, out));
        }
    }

    /// Forwards an event unchanged.
    pub fn passthrough(&self, ctl: &mut Controller, ev: Event)
        ensures
            final(ctl).spec_config() == old(ctl).spec_config(),
            final(ctl)@ == (ControllerView { queue: old(ctl)@.queue.push(ev), ..old(ctl)@ }),
    {
        ctl.synthetic.push(ev);
    }

    /// Takes any event of the frame and says whether it closes the frame.
    /// The marker that closes a frame does nothing else; key and relative
    /// events go to `button` and `relative`; every other event is forwarded
    /// unchanged.
    pub fn dispatch(&mut self, ctl: &mut Controller, now: u64, ev: Event) -> (closes: bool)
        requires
            old(ctl).wf(),
            ev.kind == EV_REL ==> tally_fits(old(ctl).spec_config(), old(self)@, ev.code, ev.value),
        ensures
            final(ctl).wf(),
            final(ctl).spec_config() == old(ctl).spec_config(),
            closes == ev.is_sync_report(),
            final(ctl)@ == if ev.is_sync_report() {
                old(ctl)@
            } else if ev.kind == EV_KEY {
                button_step(old(ctl).spec_config(), old(ctl)@, now, ev.code, ev.value)
            } else if ev.kind == EV_REL {
                relative_step(old(ctl).spec_config(), old(ctl)@, ev.code, ev.value)
            } else {
                ControllerView { queue: old(ctl)@.queue.push(ev), ..old(ctl)@ }
            },
            (final(self)@.0 as int, final(self)@.1 as int) == if ev.kind == EV_REL {
                tally_after(old(ctl).spec_config(), old(self)@, ev.code, ev.value)
            } else {
                (old(self)@.0 as int, old(self)@.1 as int)
            },
    {
        if ev.kind == crate::event::EV_SYN && ev.code == crate::event::SYN_REPORT {
            true
        } else if ev.kind == EV_KEY {
            self.button(ctl, now, ev.code, ev.value);
            false
        } else if ev.kind == EV_REL {
            self.relative(ctl, ev.code, ev.value);
            false
        } else {
            self.passthrough(ctl, ev);
            false
        }
    }

    /// Closes the transaction at the frame's end.
    pub fn finish(self, ctl: &mut Controller)
        requires
            old(ctl).wf(),
        ensures
            final(ctl).wf(),
            final(ctl).spec_config() == old(ctl).spec_config(),
            final(ctl)@ == frame_end_step(old(ctl).spec_config(), old(ctl)@, self@),
    {
        match classify(
            self.relative_movement.0,
            self.relative_movement.1,
            ctl.config.min_gesture_movement,
        ) {
            Some(dir) => {
                match &mut ctl.state.gesture_dir {
                    Some(dirs) => {
                        record(dirs, dir);
                    },
                    None => {},
                }
            },
            None => {},
        }
    }
}

} // verus!
