//! Sticky button locks: a three-step cycle per tracked button that turns a
//! momentary click into a held button, until the next click lets it go.

use vstd::prelude::*;
use crate::event::Event;

verus! {

/// Where a tracked button stands in its cycle.
#[derive(Clone, Copy, Debug, PartialEq, Eq, Structural)]
pub enum LockStep {
    /// Released both physically and logically.
    Released,
    /// Logically held, physically released.
    Locked,
    /// Held both ways; the next physical release lets go.
    WillRelease,
}

impl LockStep {
    /// The step that follows `self` on a key event with this value. Only
    /// three (step, value) pairs move; every other pair stays where it is.
    pub open spec fn next(self, value: i32) -> LockStep {
        match self {
            LockStep::Released => if value == 0 { LockStep::Locked } else { LockStep::Released },
            LockStep::Locked => if value == 1 { LockStep::WillRelease } else { LockStep::Locked },
            LockStep::WillRelease => if value == 0 {
                LockStep::Released
            } else {
                LockStep::WillRelease
            },
        }
    }

    /// The ASCII letter that stands for the step on the wire.
    pub open spec fn spec_tag(self) -> u8 {
        match self {
            LockStep::Released => 0x52,
            LockStep::Locked => 0x4c,
            LockStep::WillRelease => 0x57,
        }
    }

    /// The step that a letter stands for, if it stands for one.
    pub open spec fn spec_from_tag(tag: u8) -> Option<LockStep> {
        if tag == 0x52 {
            Some(LockStep::Released)
        } else if tag == 0x4c {
            Some(LockStep::Locked)
        } else if tag == 0x57 {
            Some(LockStep::WillRelease)
        } else {
            None
        }
    }

    #[verifier::when_used_as_spec(spec_tag)]
    pub fn tag(self) -> (t: u8)
        ensures
            t == self.spec_tag(),
    {
        match self {
            LockStep::Released => 0x52,
            LockStep::Locked => 0x4c,
            LockStep::WillRelease => 0x57,
        }
    }

    #[verifier::when_used_as_spec(spec_from_tag)]
    pub fn from_tag(tag: u8) -> (step: Option<LockStep>)
        ensures
            step == LockStep::spec_from_tag(tag),
    {
        if tag == 0x52 {
            Some(LockStep::Released)
        } else if tag == 0x4c {
            Some(LockStep::Locked)
        } else if tag == 0x57 {
            Some(LockStep::WillRelease)
        } else {
            None
        }
    }

    /// Whether the lock absorbs a key event with this value in this step:
    /// the release that locks the button, and the press that follows it.
    /// Every other event passes, whether it moves the cycle or not.
    pub open spec fn absorbs(self, value: i32) -> bool {
        (self == LockStep::Released && value == 0) || (self == LockStep::Locked && value == 1)
    }

    /// Advances the cycle by one key event and says whether the event
    /// passes.
    pub fn step(&mut self, value: i32) -> (forward: bool)
        ensures
            *final(self) == old(self).next(value),
            forward == !old(self).absorbs(value),
    {
        let cur = *self;
        match cur {
            LockStep::Released => if value == 0 {
                *self = LockStep::Locked;
                false
            } else {
                true
            },
            LockStep::Locked => if value == 1 {
                *self = LockStep::WillRelease;
                false
            } else {
                true
            },
            LockStep::WillRelease => {
                if value == 0 {
                    *self = LockStep::Released;
                }
                true
            },
        }
    }
}

/// Keys strictly ascending from entry to entry, so that no key occurs twice.
pub open spec fn keys_ascending(s: Seq<(u16, LockStep)>) -> bool {
    forall|i: int, j: int| 0 <= i < j < s.len() ==> s[i].0 < s[j].0
}

/// Whether `key` is among the tracked entries.
pub open spec fn tracks(s: Seq<(u16, LockStep)>, key: u16) -> bool {
    exists|i: int| 0 <= i < s.len() && (#[trigger] s[i]).0 == key
}

/// The place of `key` among the entries, where it is tracked.
pub open spec fn place_of(s: Seq<(u16, LockStep)>, key: u16) -> int {
    choose|i: int| 0 <= i < s.len() && (#[trigger] s[i]).0 == key
}

/// The entries after a key event on `key`: a tracked key moves one step, and
/// nothing else changes.
pub open spec fn after_check(s: Seq<(u16, LockStep)>, key: u16, value: i32) -> Seq<
    (u16, LockStep),
> {
    if tracks(s, key) {
        let i = place_of(s, key);
        s.update(i, (key, s[i].1.next(value)))
    } else {
        s
    }
}

/// Whether a key event on `key` passes: always for an untracked key, and for
/// a tracked one unless its step absorbs the event.
pub open spec fn passes(s: Seq<(u16, LockStep)>, key: u16, value: i32) -> bool {
    tracks(s, key) ==> !s[place_of(s, key)].1.absorbs(value)
}

/// The key releases owed when tracking stops: one for each entry that stands
/// at `Locked`, in the order of the entries.
pub open spec fn releases(s: Seq<(u16, LockStep)>) -> Seq<Event>
    decreases s.len(),
{
    if s.len() == 0 {
        Seq::empty()
    } else {
        let rest = releases(s.drop_last());
        if s.last().1 == LockStep::Locked {
            rest.push(Event::spec_key(s.last().0, 0))
        } else {
            rest
        }
    }
}

/// `s` tracks exactly the keys of `keys`, in ascending order, each at
/// `Released`.
pub open spec fn armed_with(s: Seq<(u16, LockStep)>, keys: Seq<u16>) -> bool {
    &&& keys_ascending(s)
    &&& forall|i: int| 0 <= i < s.len() ==> (#[trigger] s[i]).1 == LockStep::Released
    &&& forall|k: u16| tracks(s, k) <==> keys.contains(k)
}

/// The number of entries that come before `key` in ascending order.
pub open spec fn rank(s: Seq<(u16, LockStep)>, key: u16) -> int
    decreases s.len(),
{
    if s.len() == 0 {
        0
    } else if s.last().0 < key {
        s.len() as int
    } else {
        rank(s.drop_last(), key)
    }
}

/// The entries with `key` set to `step`: in place where the key is tracked,
/// and otherwise as a new entry where the ascending order puts it.
pub open spec fn upsert(s: Seq<(u16, LockStep)>, key: u16, step: LockStep) -> Seq<
    (u16, LockStep),
> {
    if tracks(s, key) {
        s.update(place_of(s, key), (key, step))
    } else {
        s.insert(rank(s, key), (key, step))
    }
}

/// The entries that track the keys of `keys`, each once and at `Released`,
/// in ascending order.
pub open spec fn arm(keys: Seq<u16>) -> Seq<(u16, LockStep)>
    decreases keys.len(),
{
    if keys.len() == 0 {
        Seq::empty()
    } else {
        upsert(arm(keys.drop_last()), keys.last(), LockStep::Released)
    }
}

/// The entries after a toggle: with nothing tracked the given keys are
/// armed; otherwise tracking stops.
pub open spec fn toggle_state(before: Seq<(u16, LockStep)>, keys: Seq<u16>) -> Seq<
    (u16, LockStep),
> {
    if before.len() == 0 {
        arm(keys)
    } else {
        Seq::empty()
    }
}

/// The events of a toggle: none when it arms, the owed releases when it
/// stops tracking.
pub open spec fn toggle_events(before: Seq<(u16, LockStep)>) -> Seq<Event> {
    if before.len() == 0 {
        Seq::empty()
    } else {
        releases(before)
    }
}

/// With ascending keys a key has one place only.
pub proof fn lemma_place_unique(s: Seq<(u16, LockStep)>, key: u16, i: int)
    requires
        keys_ascending(s),
        0 <= i < s.len(),
        s[i].0 == key,
    ensures
        tracks(s, key),
        place_of(s, key) == i,
{
    let j = place_of(s, key);
    assert(0 <= j < s.len() && s[j].0 == key);
    if j < i {
        assert(s[j].0 < s[i].0);
    }
    if i < j {
        assert(s[i].0 < s[j].0);
    }
}

/// A tracked button at `Released` goes once round the cycle on a release, a
/// press and a release: the first two are absorbed and leave it at `Locked`
/// and at `WillRelease`, the third passes and leaves it at `Released`.
pub proof fn lemma_lock_cycle(s: Seq<(u16, LockStep)>, key: u16, i: int)
    requires
        keys_ascending(s),
        0 <= i < s.len(),
        s[i] == (key, LockStep::Released),
    ensures
        !passes(s, key, 0),
        after_check(s, key, 0) == s.update(i, (key, LockStep::Locked)),
        !passes(after_check(s, key, 0), key, 1),
        after_check(after_check(s, key, 0), key, 1) == s.update(i, (key, LockStep::WillRelease)),
        passes(after_check(after_check(s, key, 0), key, 1), key, 0),
        after_check(after_check(after_check(s, key, 0), key, 1), key, 0) == s,
{
    let locked = s.update(i, (key, LockStep::Locked));
    let will = s.update(i, (key, LockStep::WillRelease));
    lemma_place_unique(s, key, i);
    assert(keys_ascending(locked)) by {
        assert forall|a: int, b: int| 0 <= a < b < locked.len() implies locked[a].0
            < locked[b].0 by {
            assert(s[a].0 < s[b].0);
        }
    }
    lemma_place_unique(locked, key, i);
    assert(keys_ascending(will)) by {
        assert forall|a: int, b: int| 0 <= a < b < will.len() implies will[a].0 < will[b].0 by {
            assert(s[a].0 < s[b].0);
        }
    }
    lemma_place_unique(will, key, i);
    assert(locked.update(i, (key, LockStep::WillRelease)) == will);
    assert(will.update(i, (key, LockStep::Released)) == s);
}

/// Ascending keys are at least as large as their place, so there are no
/// more entries than key codes.
pub proof fn lemma_ascending_len(s: Seq<(u16, LockStep)>)
    requires
        keys_ascending(s),
    ensures
        s.len() <= 0x1_0000,
        forall|i: int| 0 <= i < s.len() ==> (#[trigger] s[i]).0 >= i,
    decreases s.len(),
{
    if s.len() > 0 {
        let t = s.drop_last();
        assert forall|i: int, j: int| 0 <= i < j < t.len() implies t[i].0 < t[j].0 by {
            assert(s[i].0 < s[j].0);
        }
        lemma_ascending_len(t);
        let last = s.len() - 1;
        assert forall|i: int| 0 <= i < s.len() implies (#[trigger] s[i]).0 >= i by {
            if i < last {
                assert(t[i].0 >= i);
            } else if last > 0 {
                assert(t[last - 1].0 >= last - 1);
                assert(s[last - 1].0 < s[last].0);
            }
        }
        assert(s[last].0 >= last);
    }
}

/// Entries that all stand at `Released` owe no release.
pub proof fn lemma_no_release_owed(s: Seq<(u16, LockStep)>)
    requires
        forall|i: int| 0 <= i < s.len() ==> (#[trigger] s[i]).1 != LockStep::Locked,
    ensures
        releases(s).len() == 0,
    decreases s.len(),
{
    if s.len() > 0 {
        let t = s.drop_last();
        assert forall|i: int| 0 <= i < t.len() implies (#[trigger] t[i]).1 != LockStep::Locked by {
            assert(t[i] == s[i]);
        }
        lemma_no_release_owed(t);
        assert(s.last() == s[s.len() - 1]);
    }
}

/// Toggling twice from the untracked state, on the same keys and with no key
/// event in between, ends untracked again, and neither toggle emits an event.
pub proof fn lemma_toggle_twice(keys: Seq<u16>)
    ensures
        toggle_events(Seq::empty()).len() == 0,
        toggle_events(toggle_state(Seq::empty(), keys)).len() == 0,
        toggle_state(toggle_state(Seq::empty(), keys), keys).len() == 0,
{
    let mid = toggle_state(Seq::empty(), keys);
    lemma_arm(keys);
    lemma_no_release_owed(mid);
}

/// Arming tracks exactly the given keys, in ascending order, each at
/// `Released`.
pub proof fn lemma_arm(keys: Seq<u16>)
    ensures
        armed_with(arm(keys), keys),
    decreases keys.len(),
{
    if keys.len() > 0 {
        let seen = keys.drop_last();
        let before = arm(seen);
        let after = arm(keys);
        lemma_arm(seen);
        lemma_upsert(before, keys.last(), LockStep::Released);
        assert forall|k: u16| tracks(after, k) <==> keys.contains(k) by {
            if keys.contains(k) {
                let j = choose|j: int| 0 <= j < keys.len() && keys[j] == k;
                if j < seen.len() {
                    assert(seen[j] == k);
                    assert(seen.contains(k));
                }
            }
            if seen.contains(k) {
                let j = choose|j: int| 0 <= j < seen.len() && seen[j] == k;
                assert(keys[j] == k);
            }
            assert(keys[keys.len() - 1] == keys.last());
        }
        assert forall|j: int| 0 <= j < after.len() implies (#[trigger] after[j]).1
            == LockStep::Released by {
            if after[j] != (keys.last(), LockStep::Released) {
                let e = after[j];
                assert(before.contains(e));
                let m = choose|m: int| 0 <= m < before.len() && before[m] == e;
                assert(before[m].1 == LockStep::Released);
            }
        }
    }
}

/// The tracked buttons with their steps, in ascending key order.
pub struct LockState {
    btn_states: Vec<(u16, LockStep)>,
}

impl View for LockState {
    type V = Seq<(u16, LockStep)>;

    closed spec fn view(&self) -> Seq<(u16, LockStep)> {
        self.btn_states@
    }
}

impl Default for LockState {
    fn default() -> (s: LockState)
        ensures
            s.wf(),
            s@.len() == 0,
    {
        LockState::new()
    }
}

impl LockState {
    /// The entries are in ascending key order, each key once.
    pub open spec fn wf(&self) -> bool {
        keys_ascending(self@)
    }

    /// A state that tracks nothing.
    pub fn new() -> (s: LockState)
        ensures
            s.wf(),
            s@.len() == 0,
    {
        LockState { btn_states: Vec::new() }
    }

    /// The tracked buttons and their steps, in ascending key order.
    pub fn state_vec(&self) -> (entries: Vec<(u16, LockStep)>)
        ensures
            entries@ == self@,
    {
        let mut entries: Vec<(u16, LockStep)> = Vec::new();
        let n = self.btn_states.len();
        let mut i: usize = 0;
        while i < n
            invariant
                n == self.btn_states@.len(),
                0 <= i <= n,
                entries@ == self.btn_states@.subrange(0, i as int),
            decreases n - i,
        {
            entries.push(self.btn_states[i]);
            i += 1;
        }
        entries
    }

    /// The tracked buttons and their steps, without copying them.
    pub fn entries(&self) -> (entries: &Vec<(u16, LockStep)>)
        ensures
            entries@ == self@,
    {
        &self.btn_states
    }

    /// Whether any button is tracked.
    pub fn is_tracking(&self) -> (b: bool)
        ensures
            b == (self@.len() > 0),
    {
        self.btn_states.len() > 0
    }

    /// Starts tracking `btns` when nothing is tracked, and stops tracking
    /// otherwise, handing back a release for every button left at `Locked`.
    pub fn toggle(&mut self, btns: &Vec<u16>) -> (events: Vec<Event>)
        requires
            old(self).wf(),
        ensures
            final(self).wf(),
            final(self)@ == toggle_state(old(self)@, btns@),
            events@ == toggle_events(old(self)@),
    {
        let mut events: Vec<Event> = Vec::new();
        if self.btn_states.len() == 0 {
            let mut i: usize = 0;
            while i < btns.len()
                invariant
                    0 <= i <= btns.len(),
                    keys_ascending(self.btn_states@),
                    self.btn_states@ == arm(btns@.subrange(0, i as int)),
                    events@.len() == 0,
                decreases btns.len() - i,
            {
                proof {
                    let now = btns@.subrange(0, i + 1);
                    assert(now.drop_last() == btns@.subrange(0, i as int));
                    assert(now.last() == btns@[i as int]);
                }
                put(&mut self.btn_states, btns[i], LockStep::Released);
                i += 1;
            }
            assert(btns@.subrange(0, i as int) == btns@);
        } else {
            let n = self.btn_states.len();
            let mut i: usize = 0;
            while i < n
                invariant
                    n == self.btn_states@.len(),
                    0 <= i <= n,
                    events@ == releases(self.btn_states@.subrange(0, i as int)),
                decreases n - i,
            {
                let (key, step) = self.btn_states[i];
                proof {
                    let upto = self.btn_states@.subrange(0, i + 1);
                    assert(upto.drop_last() == self.btn_states@.subrange(0, i as int));
                    assert(upto.last() == self.btn_states@[i as int]);
                }
                match step {
                    LockStep::Locked => {
                        events.push(Event::key(key, 0));
                    },
                    _ => {},
                }
                i += 1;
            }
            assert(self.btn_states@.subrange(0, n as int) == self.btn_states@);
            self.btn_states.clear();
        }
        events
    }

    /// Runs a key event through the lock: `Some(button)` when it passes,
    /// `None` when the lock absorbs it.
    pub fn check(&mut self, button: u16, value: i32) -> (forward: Option<u16>)
        requires
            old(self).wf(),
        ensures
            final(self).wf(),
            final(self)@ == after_check(old(self)@, button, value),
            forward == if passes(old(self)@, button, value) {
                Some(button)
            } else {
                None
            },
    {
        let n = self.btn_states.len();
        let mut i: usize = 0;
        while i < n
            invariant
                n == self.btn_states@.len(),
                0 <= i <= n,
                self.btn_states@ == old(self)@,
                keys_ascending(self.btn_states@),
                forall|j: int| 0 <= j < i ==> (#[trigger] self.btn_states@[j]).0 != button,
            decreases n - i,
        {
            let (key, step) = self.btn_states[i];
            if key == button {
                proof {
                    lemma_place_unique(self.btn_states@, button, i as int);
                }
                let mut step = step;
                let forward = step.step(value);
                self.btn_states.set(i, (key, step));
                proof {
                    let s = self.btn_states@;
                    assert forall|a: int, b: int| 0 <= a < b < s.len() implies s[a].0 < s[b].0 by {
                        assert(old(self)@[a].0 < old(self)@[b].0);
                    }
                }
                return if forward {
                    Some(button)
                } else {
                    None
                };
            }
            i += 1;
        }
        Some(button)
    }
}

/// In ascending entries the rank of a key is the place of the first entry
/// that does not come before it.
pub proof fn lemma_rank(s: Seq<(u16, LockStep)>, key: u16, i: int)
    requires
        keys_ascending(s),
        0 <= i <= s.len(),
        forall|j: int| 0 <= j < i ==> (#[trigger] s[j]).0 < key,
        i < s.len() ==> s[i].0 >= key,
    ensures
        rank(s, key) == i,
    decreases s.len(),
{
    if s.len() > 0 {
        let last = s.len() - 1;
        if s.last().0 < key {
            if i < s.len() {
                assert(i == last || s[i].0 < s[last].0);
            }
        } else {
            assert(s[last].0 >= key);
            lemma_rank(s.drop_last(), key, i);
        }
    }
}

/// What `upsert` keeps and what it changes.
pub proof fn lemma_upsert(s: Seq<(u16, LockStep)>, key: u16, step: LockStep)
    requires
        keys_ascending(s),
    ensures
        keys_ascending(upsert(s, key, step)),
        forall|k: u16| tracks(upsert(s, key, step), k) <==> (k == key || tracks(s, k)),
        forall|i: int|
            0 <= i < upsert(s, key, step).len() ==> (#[trigger] upsert(s, key, step)[i]) == (
                key,
                step,
            ) || s.contains(upsert(s, key, step)[i]),
        (forall|j: int| 0 <= j < s.len() ==> (#[trigger] s[j]).0 < key) ==> upsert(s, key, step)
            == s.push((key, step)),
{
    let after = upsert(s, key, step);
    if tracks(s, key) {
        let p = place_of(s, key);
        assert(0 <= p < s.len() && s[p].0 == key);
        assert forall|a: int, b: int| 0 <= a < b < after.len() implies after[a].0
            < after[b].0 by {
            assert(s[a].0 < s[b].0);
        }
        assert forall|k: u16| tracks(after, k) <==> (k == key || tracks(s, k)) by {
            if tracks(after, k) {
                let j = choose|j: int| 0 <= j < after.len() && (#[trigger] after[j]).0 == k;
                assert(s[j].0 == k);
            }
            if tracks(s, k) {
                let j = choose|j: int| 0 <= j < s.len() && (#[trigger] s[j]).0 == k;
                assert(after[j].0 == k);
            }
            assert(after[p].0 == key);
        }
        assert forall|i: int| 0 <= i < after.len() implies (#[trigger] after[i]) == (key, step)
            || s.contains(after[i]) by {
            if i != p {
                assert(after[i] == s[i]);
            }
        }
    } else {
        let i = insertion_point(s, key);
        assert forall|a: int, b: int| 0 <= a < b < after.len() implies after[a].0
            < after[b].0 by {
            if b < i {
                assert(s[a].0 < s[b].0);
            } else if b == i {
                assert(after[a] == s[a]);
            } else if a < i {
                assert(after[b] == s[b - 1]);
                assert(s[a].0 < key);
                if b - 1 > i {
                    assert(s[i].0 < s[b - 1].0);
                }
            } else if a == i {
                assert(after[b] == s[b - 1]);
                if b - 1 > i {
                    assert(s[i].0 < s[b - 1].0);
                }
            } else {
                assert(s[a - 1].0 < s[b - 1].0);
            }
        }
        assert forall|k: u16| tracks(after, k) <==> (k == key || tracks(s, k)) by {
            if tracks(after, k) {
                let j = choose|j: int| 0 <= j < after.len() && (#[trigger] after[j]).0 == k;
                if j < i {
                    assert(s[j].0 == k);
                } else if j > i {
                    assert(s[j - 1].0 == k);
                }
            }
            if tracks(s, k) {
                let j = choose|j: int| 0 <= j < s.len() && (#[trigger] s[j]).0 == k;
                if j < i {
                    assert(after[j].0 == k);
                } else {
                    assert(after[j + 1].0 == k);
                }
            }
            assert(after[i].0 == key);
        }
        assert forall|j: int| 0 <= j < after.len() implies (#[trigger] after[j]) == (key, step)
            || s.contains(after[j]) by {
            if j < i {
                assert(after[j] == s[j]);
            } else if j > i {
                assert(after[j] == s[j - 1]);
            }
        }
        if forall|j: int| 0 <= j < s.len() ==> (#[trigger] s[j]).0 < key {
            lemma_rank(s, key, s.len() as int);
            assert(after == s.push((key, step)));
        }
    }
    if tracks(s, key) && (forall|j: int| 0 <= j < s.len() ==> (#[trigger] s[j]).0 < key) {
        let p = place_of(s, key);
        assert(s[p].0 < key);
    }
}

/// The rank of an untracked key, with what makes it the place to insert at.
proof fn insertion_point(s: Seq<(u16, LockStep)>, key: u16) -> (i: int)
    requires
        keys_ascending(s),
        !tracks(s, key),
    ensures
        i == rank(s, key),
        0 <= i <= s.len(),
        forall|j: int| 0 <= j < i ==> (#[trigger] s[j]).0 < key,
        forall|j: int| i <= j < s.len() ==> (#[trigger] s[j]).0 > key,
    decreases s.len(),
{
    if s.len() == 0 {
        0
    } else {
        let last = s.len() - 1;
        if s.last().0 < key {
            assert forall|j: int| 0 <= j < s.len() implies (#[trigger] s[j]).0 < key by {
                assert(j == last || s[j].0 < s[last].0);
            }
            s.len() as int
        } else {
            let t = s.drop_last();
            assert(!tracks(t, key)) by {
                if tracks(t, key) {
                    let j = choose|j: int| 0 <= j < t.len() && (#[trigger] t[j]).0 == key;
                    assert(s[j].0 == key);
                }
            }
            let i = insertion_point(t, key);
            assert forall|j: int| 0 <= j < i implies (#[trigger] s[j]).0 < key by {
                assert(t[j].0 < key);
            }
            assert forall|j: int| i <= j < s.len() implies (#[trigger] s[j]).0 > key by {
                if j < last {
                    assert(t[j].0 > key);
                } else {
                    assert(s[last].0 != key);
                }
            }
            i
        }
    }
}

/// Sets `key` to `step` among ascending entries.
pub fn put(entries: &mut Vec<(u16, LockStep)>, key: u16, step: LockStep)
    requires
        keys_ascending(old(entries)@),
    ensures
        final(entries)@ == upsert(old(entries)@, key, step),
        keys_ascending(final(entries)@),
{
    let n = entries.len();
    let mut i: usize = 0;
    while i < n && entries[i].0 < key
        invariant
            n == entries@.len(),
            0 <= i <= n,
            entries@ == old(entries)@,
            forall|j: int| 0 <= j < i ==> (#[trigger] entries@[j]).0 < key,
        decreases n - i,
    {
        i += 1;
    }
    proof {
        lemma_upsert(old(entries)@, key, step);
    }
    if i < n && entries[i].0 == key {
        proof {
            lemma_place_unique(entries@, key, i as int);
        }
        entries.set(i, (key, step));
    } else {
        proof {
            let s = entries@;
            if tracks(s, key) {
                let j = place_of(s, key);
                assert(0 <= j < s.len() && s[j].0 == key);
                if j > i {
                    assert(s[i as int].0 < s[j].0);
                }
            }
            lemma_rank(s, key, i as int);
        }
        entries.insert(i, (key, step));
    }
}

} // verus!
