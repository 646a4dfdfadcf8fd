//! The interaction state as a whole: the meta key, scroll mode, the sticky
//! locks and the open gesture.

use vstd::prelude::*;
use crate::config::{find_gesture, lookup_gesture, Action, Gestures, MetaConfig};
use crate::event::{Direction, Event};
use crate::gesture::{no_repeat, tags};
use crate::lock::keys_ascending;
use crate::meta::MetaPhase;
use crate::scroll::ScrollView;

pub use crate::gesture::GestureDir;
pub use crate::lock::{LockState, LockStep};
pub use crate::meta::{ActionType, ActionTypeExt, MetaDown};
pub use crate::scroll::ScrollState;

verus! {

/// The mathematical content of the state.
pub struct StateView {
    pub meta: MetaPhase,
    pub scroll: ScrollView,
    /// The tracked buttons with their steps, in ascending key order.
    pub lock: Seq<(u16, LockStep)>,
    /// The directions of the open gesture, where one is open.
    pub gesture: Option<Seq<GestureDir>>,
}

impl StateView {
    /// Every carry is under one unit, the tracked buttons are in ascending
    /// order, and the open gesture holds no direction twice in a row.
    pub open spec fn wf(self) -> bool {
        &&& self.scroll.wf()
        &&& keys_ascending(self.lock)
        &&& (self.gesture matches Some(dirs) ==> no_repeat(dirs))
    }

    /// The state after the meta key's release, and the events of the
    /// release. Which action leaves is chosen by the state at the release:
    /// the click action, pulsed, where the press was never told apart; the
    /// `Up` edge of the hold or the move action where it was; nothing after
    /// a chord, whose `Up` edge left with the chorded button. The key is
    /// up afterwards.
    pub open spec fn meta_released(self, config: MetaConfig) -> (StateView, Seq<Event>) {
        let (after, events) = match self.meta.release_type() {
            ActionTypeExt::Click => {
                let (down, first) = config.click.effect(self, Direction::Down);
                let (up, second) = config.click.effect(down, Direction::Up);
                (up, first + second)
            },
            ActionTypeExt::Other(ActionType::Hold) => config.hold.effect(self, Direction::Up),
            ActionTypeExt::Other(ActionType::Move) => config.motion.effect(self, Direction::Up),
            ActionTypeExt::Other(ActionType::Chord(_)) => (self, Seq::empty()),
        };
        (StateView { meta: MetaPhase::Inactive, ..after }, events)
    }
}

/// The state of the engine.
pub struct State {
    pub meta_down: MetaDown,
    pub scroll: ScrollState,
    pub lock: LockState,
    /// The directions of the open gesture, where one is open.
    pub gesture_dir: Option<Vec<GestureDir>>,
}

impl View for State {
    type V = StateView;

    open spec fn view(&self) -> StateView {
        StateView {
            meta: self.meta_down@,
            scroll: self.scroll@,
            lock: self.lock@,
            gesture: match self.gesture_dir {
                Some(dirs) => Some(dirs@),
                None => None,
            },
        }
    }
}

impl Default for State {
    fn default() -> (s: State)
        ensures
            s.wf(),
            s@.meta == MetaPhase::Inactive,
            !s@.scroll.active,
            s@.scroll.carry == Map::<u16, i64>::empty(),
            s@.lock.len() == 0,
            s@.gesture is None,
    {
        State::new()
    }
}

impl State {
    /// The parts are well formed, and the open gesture holds no direction
    /// twice in a row.
    pub open spec fn wf(&self) -> bool {
        self@.wf()
    }

    /// The meta key up, scroll mode off, nothing tracked, no gesture open.
    pub fn new() -> (s: State)
        ensures
            s.wf(),
            s@.meta == MetaPhase::Inactive,
            !s@.scroll.active,
            s@.scroll.carry == Map::<u16, i64>::empty(),
            s@.lock.len() == 0,
            s@.gesture is None,
    {
        State {
            meta_down: MetaDown::new(),
            scroll: ScrollState::new(),
            lock: LockState::new(),
            gesture_dir: None,
        }
    }

    /// Opens an empty gesture buffer, in place of any that was open.
    pub fn start_gesture(&mut self) -> (events: Vec<Event>)
        requires
            old(self).wf(),
        ensures
            final(self).wf(),
            final(self)@ == (StateView { gesture: Some(Seq::empty()), ..old(self)@ }),
            events@.len() == 0,
    {
        self.gesture_dir = Some(Vec::new());
        Vec::new()
    }

    /// Closes the open gesture: its buffer is discarded, and the action
    /// bound to the recorded directions, if any, is pulsed.
    pub fn end_gesture(&mut self, config: &Gestures) -> (events: Vec<Event>)
        requires
            old(self).wf(),
        ensures
            final(self).wf(),
            (final(self)@, events@) == Action::Gesture(*config).effect(old(self)@, Direction::Up),
    {
        match self.gesture_dir.take() {
            Some(dirs) => {
                assert(self@ == (StateView { gesture: None, ..old(self)@ }));
                match lookup_gesture(config, &dirs) {
                    Some(action) => {
                        let mut events = action.run_basic(self, Direction::Down);
                        let mut second = action.run_basic(self, Direction::Up);
                        events.append(&mut second);
                        events
                    },
                    None => Vec::new(),
                }
            },
            None => {
                assert(self@ == old(self)@);
                Vec::new()
            },
        }
    }

    /// The meta key was released: runs the action that the press stands
    /// for, and the key is up.
    pub fn handle_meta_up(&mut self, config: &MetaConfig) -> (events: Vec<Event>)
        requires
            old(self).wf(),
        ensures
            final(self).wf(),
            (final(self)@, events@) == old(self)@.meta_released(*config),
    {
        let events = match self.meta_down.action_type() {
            ActionTypeExt::Click => {
                let mut events = config.click.run(self, Direction::Down);
                let mut second = config.click.run(self, Direction::Up);
                events.append(&mut second);
                events
            },
            ActionTypeExt::Other(ActionType::Hold) => config.hold.run(self, Direction::Up),
            ActionTypeExt::Other(ActionType::Move) => config.motion.run(self, Direction::Up),
            ActionTypeExt::Other(ActionType::Chord(_)) => Vec::new(),
        };
        self.meta_down.reset();
        events
    }
}

} // verus!
