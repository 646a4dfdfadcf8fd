//! Scroll mode and the scaling of relative movement. A scale factor is a
//! whole number of millionths, and each axis carries the fraction that its
//! last emitted value left over, so that nothing is lost to rounding.

use vstd::prelude::*;
use std::collections::HashMap;

verus! {

/// The number of factor units in one: factors count millionths.
pub const UNIT: i64 = 1_000_000;

/// A scale factor in millionths: `Factor { millionths: 500_000 }` is one half.
#[derive(Clone, Copy, Debug, PartialEq, Eq, Structural)]
pub struct Factor {
    pub millionths: i32,
}

impl Factor {
    /// The factor one, which leaves a movement as it is.
    pub fn one() -> (f: Factor)
        ensures
            f.millionths == UNIT,
    {
        Factor { millionths: 1_000_000 }
    }
}

/// The whole units in `total` millionths, rounded toward zero.
pub open spec fn whole(total: int) -> int {
    if total >= 0 {
        total / (UNIT as int)
    } else {
        -((-total) / (UNIT as int))
    }
}

/// The nearest `i32` to `q`.
pub open spec fn clamp_i32(q: int) -> int {
    if q < i32::MIN {
        i32::MIN as int
    } else if q > i32::MAX {
        i32::MAX as int
    } else {
        q
    }
}

/// The millionths at hand when `value` scaled by `factor` joins `carry`.
pub open spec fn scaled(carry: int, value: int, factor: int) -> int {
    carry + value * factor
}

/// The value that a movement emits: the whole units at hand, and the
/// nearest `i32` where they are beyond that type.
pub open spec fn emitted(carry: int, value: int, factor: int) -> int {
    clamp_i32(whole(scaled(carry, value, factor)))
}

/// The millionths that stay behind for the next movement: what is at hand
/// less its whole units.
pub open spec fn carried(carry: int, value: int, factor: int) -> int {
    scaled(carry, value, factor) - whole(scaled(carry, value, factor)) * UNIT
}

/// Whether the whole units at hand fit an `i32`, so that all of them are
/// emitted.
pub open spec fn unclamped(carry: int, value: int, factor: int) -> bool {
    i32::MIN <= whole(scaled(carry, value, factor)) <= i32::MAX
}

/// What stays behind is less than one unit either way, and has the sign of
/// what was at hand.
pub proof fn lemma_carried_bound(carry: int, value: int, factor: int)
    ensures
        -UNIT < carried(carry, value, factor) < UNIT,
        whole(scaled(carry, value, factor)) * UNIT + carried(carry, value, factor) == scaled(
            carry,
            value,
            factor,
        ),
{
    let total = scaled(carry, value, factor);
    if total >= 0 {
        assert(total == 1_000_000 * (total / 1_000_000) + total % 1_000_000);
    } else {
        assert(-total == 1_000_000 * ((-total) / 1_000_000) + (-total) % 1_000_000);
    }
}

/// The carry of an axis after a run of movements on it, each a value with
/// its factor, starting from `carry`.
pub open spec fn carry_after(carry: int, calls: Seq<(i32, Factor)>) -> int
    decreases calls.len(),
{
    if calls.len() == 0 {
        carry
    } else {
        carried(
            carry_after(carry, calls.drop_last()),
            calls.last().0 as int,
            calls.last().1.millionths as int,
        )
    }
}

/// The sum of the values that a run of movements emits.
pub open spec fn sum_emitted(carry: int, calls: Seq<(i32, Factor)>) -> int
    decreases calls.len(),
{
    if calls.len() == 0 {
        0
    } else {
        sum_emitted(carry, calls.drop_last()) + emitted(
            carry_after(carry, calls.drop_last()),
            calls.last().0 as int,
            calls.last().1.millionths as int,
        )
    }
}

/// The sum of value times factor over a run of movements, in millionths.
pub open spec fn sum_scaled(calls: Seq<(i32, Factor)>) -> int
    decreases calls.len(),
{
    if calls.len() == 0 {
        0
    } else {
        sum_scaled(calls.drop_last()) + calls.last().0 * calls.last().1.millionths
    }
}

/// Whether every movement of a run emits all the whole units at hand.
pub open spec fn never_clamped(carry: int, calls: Seq<(i32, Factor)>) -> bool
    decreases calls.len(),
{
    calls.len() > 0 ==> {
        &&& never_clamped(carry, calls.drop_last())
        &&& unclamped(
            carry_after(carry, calls.drop_last()),
            calls.last().0 as int,
            calls.last().1.millionths as int,
        )
    }
}

/// Over any run of movements none of which is clamped, what was emitted and
/// what is still carried add up to the starting carry and the scaled
/// movements exactly, and the carry stays under one unit either way.
pub proof fn lemma_nothing_lost(carry: int, calls: Seq<(i32, Factor)>)
    requires
        -UNIT < carry < UNIT,
        never_clamped(carry, calls),
    ensures
        -UNIT < carry_after(carry, calls) < UNIT,
        sum_emitted(carry, calls) * UNIT + carry_after(carry, calls) == carry + sum_scaled(calls),
    decreases calls.len(),
{
    if calls.len() > 0 {
        let before = calls.drop_last();
        lemma_nothing_lost(carry, before);
        let c = carry_after(carry, before);
        let v = calls.last().0 as int;
        let f = calls.last().1.millionths as int;
        lemma_carried_bound(c, v, f);
        assert(emitted(c, v, f) == whole(scaled(c, v, f)));
        assert((sum_emitted(carry, before) + whole(scaled(c, v, f))) * UNIT == sum_emitted(
            carry,
            before,
        ) * UNIT + whole(scaled(c, v, f)) * UNIT) by (nonlinear_arith);
    }
}

/// From an empty carry the running sum of the emitted values stays within
/// one of the sum of the scaled movements, whatever the run, as long as no
/// movement is clamped.
pub proof fn lemma_running_sum(calls: Seq<(i32, Factor)>)
    requires
        never_clamped(0, calls),
    ensures
        -UNIT < sum_emitted(0, calls) * UNIT - sum_scaled(calls) < UNIT,
{
    lemma_nothing_lost(0, calls);
}

/// The run of `n` movements that all have the same value and factor.
pub open spec fn repeated(n: nat, value: i32, factor: Factor) -> Seq<(i32, Factor)> {
    Seq::new(n, |i: int| (value, factor))
}

/// `n` movements of the same value and factor scale to `n` times their
/// product.
pub proof fn lemma_sum_scaled_repeated(n: nat, value: i32, factor: Factor)
    ensures
        sum_scaled(repeated(n, value, factor)) == n * (value * factor.millionths),
    decreases n,
{
    let calls = repeated(n, value, factor);
    let p = value * factor.millionths;
    if n > 0 {
        let m = (n - 1) as nat;
        lemma_sum_scaled_repeated(m, value, factor);
        assert(calls.drop_last() =~= repeated(m, value, factor));
        assert(calls.last() == (value, factor));
        assert(n * p == m * p + p) by (nonlinear_arith)
            requires
                n == m + 1,
        ;
    } else {
        assert(n * p == 0) by (nonlinear_arith)
            requires
                n == 0,
        ;
    }
}

/// The mathematical content of a scroll state.
pub struct ScrollView {
    /// Whether scroll mode is on.
    pub active: bool,
    /// The carry of each axis that has one, in millionths.
    pub carry: Map<u16, i64>,
}

impl ScrollView {
    /// Every carry is less than one unit either way.
    pub open spec fn wf(self) -> bool {
        forall|axis: u16| #[trigger]
            self.carry.contains_key(axis) ==> -UNIT < self.carry[axis] < UNIT
    }

    /// The carry of `axis`, which is nothing where none was kept.
    pub open spec fn carry_of(self, axis: u16) -> int {
        if self.carry.contains_key(axis) {
            self.carry[axis] as int
        } else {
            0
        }
    }

    /// The state after a toggle: the mode flips, and entering scroll mode
    /// drops every carry.
    pub open spec fn toggled(self) -> ScrollView {
        if self.active {
            ScrollView { active: false, carry: self.carry }
        } else {
            ScrollView { active: true, carry: Map::empty() }
        }
    }

    /// The state after a movement of `value` on `axis` at `factor`.
    pub open spec fn scrolled(self, axis: u16, value: i32, factor: Factor) -> ScrollView {
        ScrollView {
            active: self.active,
            carry: self.carry.insert(
                axis,
                carried(self.carry_of(axis), value as int, factor.millionths as int) as i64,
            ),
        }
    }

    /// The value that a movement of `value` on `axis` at `factor` emits.
    pub open spec fn emits(self, axis: u16, value: i32, factor: Factor) -> int {
        emitted(self.carry_of(axis), value as int, factor.millionths as int)
    }
}

/// A movement keeps every carry under one unit, leaves on its axis exactly
/// what the scaling left over, and touches no other axis.
pub proof fn lemma_scrolled(s: ScrollView, axis: u16, value: i32, factor: Factor)
    requires
        s.wf(),
    ensures
        s.scrolled(axis, value, factor).wf(),
        s.scrolled(axis, value, factor).carry_of(axis) == carried(
            s.carry_of(axis),
            value as int,
            factor.millionths as int,
        ),
        forall|other: u16|
            other != axis ==> s.scrolled(axis, value, factor).carry_of(other) == s.carry_of(other),
{
    lemma_carried_bound(s.carry_of(axis), value as int, factor.millionths as int);
}

/// Scroll mode, and what each axis carries over.
pub struct ScrollState {
    active: bool,
    axes: HashMap<u16, i64>,
}

impl View for ScrollState {
    type V = ScrollView;

    closed spec fn view(&self) -> ScrollView {
        ScrollView { active: self.active, carry: self.axes@ }
    }
}

impl Default for ScrollState {
    fn default() -> (s: ScrollState)
        ensures
            s.wf(),
            s@ == (ScrollView { active: false, carry: Map::empty() }),
    {
        ScrollState::new()
    }
}

impl ScrollState {
    /// Every carry is less than one unit either way.
    pub open spec fn wf(&self) -> bool {
        self@.wf()
    }

    /// Scroll mode off and nothing carried.
    pub fn new() -> (s: ScrollState)
        ensures
            s.wf(),
            s@ == (ScrollView { active: false, carry: Map::empty() }),
    {
        ScrollState { active: false, axes: HashMap::new() }
    }

    /// Whether scroll mode is on.
    pub fn is_active(&self) -> (b: bool)
        ensures
            b == self@.active,
    {
        self.active
    }

    /// Flips scroll mode. Entering it drops every carry, so that what the
    /// regular mode left over does not leak into the scroll scaling.
    pub fn toggle(&mut self)
        requires
            old(self).wf(),
        ensures
            final(self).wf(),
            final(self)@ == old(self)@.toggled(),
    {
        self.active = !self.active;
        if self.active {
            self.axes.clear();
        }
        assert(self@.carry =~= old(self)@.toggled().carry);
    }

    /// Scales a movement on `axis`: emits the whole units at hand and keeps
    /// the rest for the next movement on that axis.
    pub fn scroll(&mut self, axis: u16, value: i32, factor: Factor) -> (out: i32)
        requires
            old(self).wf(),
        ensures
            final(self).wf(),
            final(self)@ == old(self)@.scrolled(axis, value, factor),
            out == old(self)@.emits(axis, value, factor),
    {
        let carry: i64 = match self.axes.get(&axis) {
            Some(c) => *c,
            None => 0,
        };
        assert(carry == old(self)@.carry_of(axis));
        assert(-UNIT < carry < UNIT);
        let v: i64 = value as i64;
        let f: i64 = factor.millionths as i64;
        assert(-0x4000_0000_0000_0000 <= v * f <= 0x4000_0000_0000_0000) by (nonlinear_arith)
            requires
                -0x8000_0000 <= v <= 0x7fff_ffff,
                -0x8000_0000 <= f <= 0x7fff_ffff,
        ;
        let total: i64 = carry + v * f;
        assert(total == scaled(carry as int, value as int, factor.millionths as int));
        proof {
            lemma_carried_bound(carry as int, value as int, factor.millionths as int);
        }
        let units: i64 = if total >= 0 {
            total / UNIT
        } else {
            -((-total) / UNIT)
        };
        assert(units == whole(total as int));
        let rest: i64 = total - units * UNIT;
        self.axes.insert(axis, rest);
        assert(self@.carry =~= old(self)@.scrolled(axis, value, factor).carry);
        if units < -0x8000_0000 {
            i32::MIN
        } else if units > 0x7fff_ffff {
            i32::MAX
        } else {
            units as i32
        }
    }
}

} // verus!
