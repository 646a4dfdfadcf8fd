//! Swipe gestures: the net movement of each frame becomes one of four
//! directions, and the directions of an open gesture form its key.

use vstd::prelude::*;

verus! {

/// A direction of movement.
#[derive(Clone, Copy, Debug, PartialEq, Eq, Structural)]
pub enum GestureDir {
    U,
    D,
    L,
    R,
}

impl GestureDir {
    /// The ASCII letter that stands for the direction on the wire and in a
    /// gesture key.
    pub open spec fn spec_tag(self) -> u8 {
        match self {
            GestureDir::U => 0x55,
            GestureDir::D => 0x44,
            GestureDir::L => 0x4c,
            GestureDir::R => 0x52,
        }
    }

    /// The direction that a letter stands for, if it stands for one.
    pub open spec fn spec_from_tag(tag: u8) -> Option<GestureDir> {
        if tag == 0x55 {
            Some(GestureDir::U)
        } else if tag == 0x44 {
            Some(GestureDir::D)
        } else if tag == 0x4c {
            Some(GestureDir::L)
        } else if tag == 0x52 {
            Some(GestureDir::R)
        } else {
            None
        }
    }

    #[verifier::when_used_as_spec(spec_tag)]
    pub fn tag(self) -> (t: u8)
        ensures
            t == self.spec_tag(),
    {
        match self {
            GestureDir::U => 0x55,
            GestureDir::D => 0x44,
            GestureDir::L => 0x4c,
            GestureDir::R => 0x52,
        }
    }

    #[verifier::when_used_as_spec(spec_from_tag)]
    pub fn from_tag(tag: u8) -> (d: Option<GestureDir>)
        ensures
            d == GestureDir::spec_from_tag(tag),
    {
        if tag == 0x55 {
            Some(GestureDir::U)
        } else if tag == 0x44 {
            Some(GestureDir::D)
        } else if tag == 0x4c {
            Some(GestureDir::L)
        } else if tag == 0x52 {
            Some(GestureDir::R)
        } else {
            None
        }
    }
}

/// The magnitude of a movement.
pub open spec fn magnitude(d: int) -> int {
    if d < 0 {
        -d
    } else {
        d
    }
}

/// The direction of a frame's net movement `(dx, dy)`: none while both
/// magnitudes are below `min`; otherwise along the axis of larger magnitude,
/// the vertical one on a tie, by the sign on that axis. Right and down are
/// the positive ways, and a movement of zero on the deciding axis counts as
/// left or up.
pub open spec fn dominant(dx: int, dy: int, min: int) -> Option<GestureDir> {
    if magnitude(dx) < min && magnitude(dy) < min {
        None
    } else if magnitude(dx) > magnitude(dy) {
        if dx > 0 {
            Some(GestureDir::R)
        } else {
            Some(GestureDir::L)
        }
    } else {
        if dy > 0 {
            Some(GestureDir::D)
        } else {
            Some(GestureDir::U)
        }
    }
}

/// No direction stands twice in a row.
pub open spec fn no_repeat(s: Seq<GestureDir>) -> bool {
    forall|i: int| 0 <= i < s.len() - 1 ==> s[i] != #[trigger] s[i + 1]
}

/// The buffer after a frame that moved in `dir`: the direction is added
/// unless the buffer ends in it already.
pub open spec fn recorded(s: Seq<GestureDir>, dir: GestureDir) -> Seq<GestureDir> {
    if s.len() > 0 && s.last() == dir {
        s
    } else {
        s.push(dir)
    }
}

/// The letters of a sequence of directions, which is the key under which a
/// gesture is looked up.
pub open spec fn tags(s: Seq<GestureDir>) -> Seq<u8> {
    Seq::new(s.len(), |i: int| s[i].spec_tag())
}

/// Recording keeps a buffer free of repeats.
pub proof fn lemma_recorded_no_repeat(s: Seq<GestureDir>, dir: GestureDir)
    requires
        no_repeat(s),
    ensures
        no_repeat(recorded(s, dir)),
{
    let r = recorded(s, dir);
    assert forall|i: int| 0 <= i < r.len() - 1 implies r[i] != #[trigger] r[i + 1] by {
        if i + 1 < s.len() {
            assert(s[i] != s[i + 1]);
        }
    }
}

/// A direction recorded twice in a row stands once.
pub proof fn lemma_recorded_twice(s: Seq<GestureDir>, dir: GestureDir)
    ensures
        recorded(recorded(s, dir), dir) == recorded(s, dir),
{
}

fn abs_u32(d: i32) -> (m: u32)
    ensures
        m == magnitude(d as int),
{
    if d < 0 {
        if d == i32::MIN {
            0x8000_0000u32
        } else {
            (-d) as u32
        }
    } else {
        d as u32
    }
}

/// The direction of a frame's net movement, if it is large enough to count.
pub fn classify(dx: i32, dy: i32, min: u32) -> (dir: Option<GestureDir>)
    ensures
        dir == dominant(dx as int, dy as int, min as int),
{
    let ax = abs_u32(dx);
    let ay = abs_u32(dy);
    if ax < min && ay < min {
        None
    } else if ax > ay {
        if dx > 0 {
            Some(GestureDir::R)
        } else {
            Some(GestureDir::L)
        }
    } else {
        if dy > 0 {
            Some(GestureDir::D)
        } else {
            Some(GestureDir::U)
        }
    }
}

/// Adds `dir` to the buffer unless the buffer ends in it already.
pub fn record(buf: &mut Vec<GestureDir>, dir: GestureDir)
    ensures
        final(buf)@ == recorded(old(buf)@, dir),
        no_repeat(old(buf)@) ==> no_repeat(final(buf)@),
{
    let n = buf.len();
    let repeated = n > 0 && buf[n - 1] == dir;
    if !repeated {
        buf.push(dir);
    }
    proof {
        if no_repeat(old(buf)@) {
            lemma_recorded_no_repeat(old(buf)@, dir);
        }
    }
}

} // verus!
