//! What the engine is configured with: the button and axis tables, the meta
//! key with its actions, and the actions themselves.

use vstd::prelude::*;
use std::collections::{BTreeMap, HashMap};
use crate::event::Event;
use crate::gesture::{tags, GestureDir};
use crate::lock::{toggle_events, toggle_state};
use crate::scroll::{Factor, UNIT};
use crate::state::{State, StateView};

pub use crate::event::Direction;

verus! {

/// Key code of the middle mouse button.
pub const BTN_MIDDLE: u16 = 0x112;

/// Key code of the task button.
pub const BTN_TASK: u16 = 0x117;

/// Where an axis goes, and by what factor its movement is scaled.
#[derive(Clone, Copy, Debug, PartialEq, Eq, Structural)]
pub struct AxisMapDef {
    pub axis: u16,
    pub factor: Factor,
}

/// The axis tables: one for regular movement, one for scroll mode.
pub struct AxisMap {
    pub regular: HashMap<u16, AxisMapDef>,
    pub scroll: HashMap<u16, AxisMapDef>,
}

impl Default for AxisMap {
    fn default() -> (m: AxisMap)
        ensures
            m.regular@ == Map::<u16, AxisMapDef>::empty(),
            m.scroll@ == Map::<u16, AxisMapDef>::empty(),
    {
        AxisMap::new()
    }
}

impl AxisMap {
    /// The entry for `axis`: the scroll table's while scroll mode is on and
    /// it has one, else the regular table's, else the axis itself at factor
    /// one.
    pub open spec fn spec_get(&self, axis: u16, scroll_active: bool) -> AxisMapDef {
        if scroll_active && self.scroll@.contains_key(axis) {
            self.scroll@[axis]
        } else if self.regular@.contains_key(axis) {
            self.regular@[axis]
        } else {
            AxisMapDef { axis, factor: Factor { millionths: UNIT as i32 } }
        }
    }

    /// Tables that map nothing.
    pub fn new() -> (m: AxisMap)
        ensures
            m.regular@ == Map::<u16, AxisMapDef>::empty(),
            m.scroll@ == Map::<u16, AxisMapDef>::empty(),
    {
        AxisMap { regular: HashMap::new(), scroll: HashMap::new() }
    }

    #[verifier::when_used_as_spec(spec_get)]
    pub fn get(&self, axis: u16, scroll_active: bool) -> (def: AxisMapDef)
        ensures
            def == self.spec_get(axis, scroll_active),
    {
        if scroll_active {
            match self.scroll.get(&axis) {
                Some(def) => {
                    return *def;
                },
                None => {},
            }
        }
        match self.regular.get(&axis) {
            Some(def) => *def,
            None => AxisMapDef { axis, factor: Factor::one() },
        }
    }
}

/// The gestures of a gesture action: each a key, which is the letters of
/// its directions in order, and the action bound to it. Where a key stands
/// twice, the first binding counts.
pub type Gestures = Vec<(String, Action)>;

/// What a button or a resolved meta key does.
#[derive(Debug)]
pub enum Action {
    /// No action at all.
    Nothing,
    /// Flips scroll mode.
    ToggleScroll,
    /// Arms the sticky lock on these buttons, or lets it go.
    ToggleLock(Vec<u16>),
    /// Presses and releases this button.
    Button(u16),
    /// Records a gesture while held, and runs what is bound to it.
    Gesture(Gestures),
}

/// The bytes of a gesture key.
pub open spec fn key_bytes(key: Seq<char>) -> Seq<u8> {
    vstd::utf8::encode_utf8(key)
}

/// The action bound to the gesture with these letters, if one is.
pub open spec fn find_gesture(table: Seq<(String, Action)>, letters: Seq<u8>) -> Option<Action>
    decreases table.len(),
{
    if table.len() == 0 {
        None
    } else if key_bytes(table[0].0@) == letters {
        Some(table[0].1)
    } else {
        find_gesture(table.drop_first(), letters)
    }
}

fn key_matches(key: &String, dirs: &Vec<GestureDir>) -> (same: bool)
    ensures
        same == (key_bytes(key@) == tags(dirs@)),
{
    let bytes = key.as_str().as_bytes();
    let n = dirs.len();
    if bytes.len() != n {
        return false;
    }
    let mut i: usize = 0;
    while i < n
        invariant
            bytes@ == key_bytes(key@),
            bytes@.len() == n == dirs@.len(),
            0 <= i <= n,
            forall|j: int| 0 <= j < i ==> bytes@[j] == tags(dirs@)[j],
        decreases n - i,
    {
        if bytes[i] != dirs[i].tag() {
            assert(bytes@[i as int] != tags(dirs@)[i as int]);
            return false;
        }
        i += 1;
    }
    assert(bytes@ =~= tags(dirs@));
    true
}

/// Looks the recorded directions up in a gesture table.
pub fn lookup_gesture<'a>(table: &'a Gestures, dirs: &Vec<GestureDir>) -> (found: Option<
    &'a Action,
>)
    ensures
        found == match find_gesture(table@, tags(dirs@)) {
            Some(action) => Some(&action),
            None => None,
        },
{
    let n = table.len();
    let mut i: usize = 0;
    assert(table@.subrange(0, n as int) == table@);
    while i < n
        invariant
            n == table@.len(),
            0 <= i <= n,
            find_gesture(table@, tags(dirs@)) == find_gesture(
                table@.subrange(i as int, n as int),
                tags(dirs@),
            ),
        decreases n - i,
    {
        let ghost rest = table@.subrange(i as int, n as int);
        assert(rest[0] == table@[i as int]);
        assert(rest.drop_first() == table@.subrange(i + 1, n as int));
        if key_matches(&table[i].0, dirs) {
            return Some(&table[i].1);
        }
        i += 1;
    }
    None
}

impl Action {
    /// What an action other than a gesture does on one edge: the state
    /// after it and the events it emits. Toggles act on the `Down` edge
    /// only, a button on both, and a gesture has no part in this.
    pub open spec fn basic_effect(self, s: StateView, dir: Direction) -> (StateView, Seq<Event>) {
        match self {
            Action::ToggleScroll => if dir == Direction::Down {
                (StateView { scroll: s.scroll.toggled(), ..s }, Seq::empty())
            } else {
                (s, Seq::empty())
            },
            Action::Button(key) => (s, seq![Event::spec_key(key, dir.spec_value())]),
            Action::ToggleLock(keys) => if dir == Direction::Down {
                (StateView { lock: toggle_state(s.lock, keys@), ..s }, toggle_events(s.lock))
            } else {
                (s, Seq::empty())
            },
            Action::Gesture(_) => (s, Seq::empty()),
            Action::Nothing => (s, Seq::empty()),
        }
    }

    /// What a bound action does when its gesture is recognized: its `Down`
    /// edge and at once its `Up` edge.
    pub open spec fn pulse(self, s: StateView) -> (StateView, Seq<Event>) {
        let (down, first) = self.basic_effect(s, Direction::Down);
        let (up, second) = self.basic_effect(down, Direction::Up);
        (up, first + second)
    }

    /// What an action does on one edge. A gesture action opens an empty
    /// buffer on `Down`; on `Up` it discards the buffer and, where the
    /// recorded directions are bound, pulses the bound action. A gesture
    /// bound to a gesture is not run: nesting stops at one level.
    pub open spec fn effect(self, s: StateView, dir: Direction) -> (StateView, Seq<Event>) {
        match self {
            Action::Gesture(table) => match dir {
                Direction::Down => (StateView { gesture: Some(Seq::empty()), ..s }, Seq::empty()),
                Direction::Up => match s.gesture {
                    Some(dirs) => {
                        let closed = StateView { gesture: None, ..s };
                        match find_gesture(table@, tags(dirs)) {
                            Some(action) => action.pulse(closed),
                            None => (closed, Seq::empty()),
                        }
                    },
                    None => (s, Seq::empty()),
                },
            },
            _ => self.basic_effect(s, dir),
        }
    }

    /// Runs one edge of an action that is no gesture.
    pub fn run_basic(&self, state: &mut State, dir: Direction) -> (events: Vec<Event>)
        requires
            old(state).wf(),
        ensures
            final(state).wf(),
            (final(state)@, events@) == self.basic_effect(old(state)@, dir),
    {
        match self {
            Action::ToggleScroll => {
                match dir {
                    Direction::Down => {
                        state.scroll.toggle();
                    },
                    Direction::Up => {},
                }
                Vec::new()
            },
            Action::Button(key) => {
                let mut events: Vec<Event> = Vec::new();
                events.push(Event::key(*key, dir.value()));
                assert(events@ == seq![Event::spec_key(*key, dir.spec_value())]);
                events
            },
            Action::ToggleLock(keys) => {
                match dir {
                    Direction::Down => state.lock.toggle(keys),
                    Direction::Up => Vec::new(),
                }
            },
            Action::Gesture(_) => Vec::new(),
            Action::Nothing => Vec::new(),
        }
    }

    /// Runs one edge of an action on the state, and hands back the events
    /// to emit.
    pub fn run(&self, state: &mut State, dir: Direction) -> (events: Vec<Event>)
        requires
            old(state).wf(),
        ensures
            final(state).wf(),
            (final(state)@, events@) == self.effect(old(state)@, dir),
    {
        match self {
            Action::Gesture(table) => match dir {
                Direction::Down => state.start_gesture(),
                Direction::Up => state.end_gesture(table),
            },
            _ => self.run_basic(state, dir),
        }
    }
}

/// The meta key: which button it is, how long a press waits, and what each
/// kind of press does.
pub struct MetaConfig {
    /// The key code of the meta key.
    pub key: u16,
    /// What holding the key does.
    pub hold: Action,
    /// What moving the pointer with the key down does.
    pub motion: Action,
    /// What another button does while the key is down, by key code.
    pub chord: BTreeMap<u16, Action>,
    /// How long a press waits before it is a hold, in milliseconds.
    pub hold_time: u64,
    /// What a click of the key does.
    pub click: Action,
}

/// The configuration of the engine.
pub struct Config {
    /// Buttons that stand for other buttons, by key code.
    pub btn_map: BTreeMap<u16, u16>,
    pub meta: MetaConfig,
    pub axis_map: AxisMap,
    /// A frame's net movement counts for a gesture only beyond this.
    pub min_gesture_movement: u32,
    /// Whether movement is emitted while a gesture is recorded.
    pub move_during_gesture: bool,
}

impl Default for MetaConfig {
    fn default() -> (m: MetaConfig)
        ensures
            m.key == BTN_MIDDLE,
            m.hold == Action::Button(BTN_TASK),
            m.motion == Action::Button(BTN_TASK),
            m.chord@ == Map::<u16, Action>::empty(),
            m.hold_time == 250,
            m.click == Action::ToggleScroll,
    {
        MetaConfig::new()
    }
}

impl Default for Config {
    fn default() -> (c: Config)
        ensures
            c.btn_map@ == Map::<u16, u16>::empty(),
            c.meta.key == BTN_MIDDLE,
            c.meta.hold == Action::Button(BTN_TASK),
            c.meta.motion == Action::Button(BTN_TASK),
            c.meta.chord@ == Map::<u16, Action>::empty(),
            c.meta.hold_time == 250,
            c.meta.click == Action::ToggleScroll,
            c.axis_map.regular@ == Map::<u16, AxisMapDef>::empty(),
            c.axis_map.scroll@ == Map::<u16, AxisMapDef>::empty(),
            c.min_gesture_movement == 5,
            !c.move_during_gesture,
    {
        Config::new()
    }
}

impl MetaConfig {
    /// The middle button as meta key: a click flips scroll mode, a hold or
    /// a move holds the task button, and a press waits 250 ms.
    pub fn new() -> (m: MetaConfig)
        ensures
            m.key == BTN_MIDDLE,
            m.hold == Action::Button(BTN_TASK),
            m.motion == Action::Button(BTN_TASK),
            m.chord@ == Map::<u16, Action>::empty(),
            m.hold_time == 250,
            m.click == Action::ToggleScroll,
    {
        MetaConfig {
            key: BTN_MIDDLE,
            hold: Action::Button(BTN_TASK),
            motion: Action::Button(BTN_TASK),
            chord: BTreeMap::new(),
            hold_time: 250,
            click: Action::ToggleScroll,
        }
    }
}

impl Config {
    /// Nothing remapped, the meta key as `MetaConfig::new` has it, and a
    /// gesture threshold of 5.
    pub fn new() -> (c: Config)
        ensures
            c.btn_map@ == Map::<u16, u16>::empty(),
            c.meta.key == BTN_MIDDLE,
            c.meta.hold == Action::Button(BTN_TASK),
            c.meta.motion == Action::Button(BTN_TASK),
            c.meta.chord@ == Map::<u16, Action>::empty(),
            c.meta.hold_time == 250,
            c.meta.click == Action::ToggleScroll,
            c.axis_map.regular@ == Map::<u16, AxisMapDef>::empty(),
            c.axis_map.scroll@ == Map::<u16, AxisMapDef>::empty(),
            c.min_gesture_movement == 5,
            !c.move_during_gesture,
    {
        Config {
            btn_map: BTreeMap::new(),
            meta: MetaConfig::new(),
            axis_map: AxisMap::new(),
            min_gesture_movement: 5,
            move_during_gesture: false,
        }
    }

    /// The button that `key` stands for: the table's entry, or the key
    /// itself where it has none.
    pub open spec fn spec_map_button(&self, key: u16) -> u16 {
        if self.btn_map@.contains_key(key) {
            self.btn_map@[key]
        } else {
            key
        }
    }

    #[verifier::when_used_as_spec(spec_map_button)]
    pub fn map_button(&self, key: u16) -> (mapped: u16)
        ensures
            mapped == self.spec_map_button(key),
    {
        match self.btn_map.get(&key) {
            Some(mapped) => *mapped,
            None => key,
        }
    }
}

} // verus!
