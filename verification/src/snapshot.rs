//! The snapshot of the interaction state that listeners receive: whether
//! scroll mode is on, the tracked buttons with their steps, and the
//! directions of the open gesture, in a little-endian byte form.
//!
//! A payload is three sections, each behind a four-byte count of its own
//! bytes: the scroll flag (one byte), the buttons, and the gesture. A button
//! takes three bytes, its key code and the letter of its step; a direction
//! takes one, its letter. On the socket a payload travels as a frame, behind
//! a four-byte count of the payload's bytes.

use vstd::prelude::*;
use crate::gesture::{tags, GestureDir};
use crate::lock::{keys_ascending, lemma_upsert, put, upsert, LockStep};

verus! {

/// The two bytes of a key code, low byte first.
pub open spec fn le16(k: u16) -> Seq<u8> {
    seq![(k % 256) as u8, (k / 256) as u8]
}

/// The four bytes of a count, low byte first.
pub open spec fn le32(n: u32) -> Seq<u8> {
    seq![
        (n % 256) as u8,
        ((n / 256) % 256) as u8,
        ((n / 65536) % 256) as u8,
        (n / 16777216) as u8,
    ]
}

/// The key code that two bytes spell, low byte first.
pub open spec fn from_le16(lo: u8, hi: u8) -> u16 {
    (lo + 256 * hi) as u16
}

/// The count that the four bytes of `bytes` from `at` on spell, low byte
/// first.
pub open spec fn from_le32(bytes: Seq<u8>, at: int) -> u32 {
    (bytes[at] + 256 * bytes[at + 1] + 65536 * bytes[at + 2] + 16777216 * bytes[at + 3]) as u32
}

/// The button section: three bytes for each entry, in the entries' order.
pub open spec fn lock_bytes(s: Seq<(u16, LockStep)>) -> Seq<u8>
    decreases s.len(),
{
    if s.len() == 0 {
        Seq::empty()
    } else {
        lock_bytes(s.drop_last()) + le16(s.last().0) + seq![s.last().1.spec_tag()]
    }
}

/// The number of bytes in the payload of a snapshot with `locks` buttons
/// and `dirs` directions.
pub open spec fn payload_len(locks: nat, dirs: nat) -> int {
    13 + 3 * (locks as int) + (dirs as int)
}

/// The payload of a snapshot.
pub open spec fn payload(
    scroll_active: bool,
    locks: Seq<(u16, LockStep)>,
    gesture: Seq<GestureDir>,
) -> Seq<u8> {
    le32(1) + seq![if scroll_active { 1u8 } else { 0u8 }] + le32((3 * locks.len()) as u32)
        + lock_bytes(locks) + le32(gesture.len() as u32) + tags(gesture)
}

/// A payload behind the count of its bytes, as it travels on the socket.
pub open spec fn frame(
    scroll_active: bool,
    locks: Seq<(u16, LockStep)>,
    gesture: Seq<GestureDir>,
) -> Seq<u8> {
    le32(payload_len(locks.len(), gesture.len()) as u32) + payload(scroll_active, locks, gesture)
}

/// The buttons that a button section holds. Later entries win over earlier
/// ones with the same key, the keys come out ascending, and an entry whose
/// step letter is unknown is skipped. Bytes beyond the last full entry do
/// not count.
pub open spec fn decode_locks(body: Seq<u8>) -> Seq<(u16, LockStep)>
    decreases body.len(),
{
    if body.len() < 3 {
        Seq::empty()
    } else {
        let n = body.len() as int;
        let rest = decode_locks(body.subrange(0, n - 3));
        match LockStep::spec_from_tag(body[n - 1]) {
            Some(step) => upsert(rest, from_le16(body[n - 3], body[n - 2]), step),
            None => rest,
        }
    }
}

/// The directions that a gesture section holds; a byte that is no
/// direction's letter is skipped.
pub open spec fn decode_gesture(body: Seq<u8>) -> Seq<GestureDir>
    decreases body.len(),
{
    if body.len() == 0 {
        Seq::empty()
    } else {
        let rest = decode_gesture(body.drop_last());
        match GestureDir::spec_from_tag(body.last()) {
            Some(dir) => rest.push(dir),
            None => rest,
        }
    }
}

/// The byte count that a payload gives for its button section.
pub open spec fn locks_len(bytes: Seq<u8>) -> int {
    from_le32(bytes, 5) as int
}

/// The byte count that a payload gives for its gesture section.
pub open spec fn gesture_len(bytes: Seq<u8>) -> int {
    from_le32(bytes, 9 + locks_len(bytes)) as int
}

/// Whether `bytes` begin with a whole payload: a flag section of one byte,
/// the counts of the other two sections, as many bytes as each count
/// announces, and the buttons in whole entries. What follows the payload is
/// of no account.
pub open spec fn well_framed(bytes: Seq<u8>) -> bool {
    &&& bytes.len() >= 9
    &&& from_le32(bytes, 0) == 1
    &&& locks_len(bytes) % 3 == 0
    &&& bytes.len() >= 13 + locks_len(bytes)
    &&& bytes.len() >= 13 + locks_len(bytes) + gesture_len(bytes)
}

/// The scroll flag of a payload: any byte but zero says active.
pub open spec fn decoded_scroll(bytes: Seq<u8>) -> bool {
    bytes[4] != 0
}

/// The buttons of a payload.
pub open spec fn decoded_locks(bytes: Seq<u8>) -> Seq<(u16, LockStep)> {
    decode_locks(bytes.subrange(9, 9 + locks_len(bytes)))
}

/// The directions of a payload.
pub open spec fn decoded_gesture(bytes: Seq<u8>) -> Seq<GestureDir> {
    decode_gesture(
        bytes.subrange(13 + locks_len(bytes), 13 + locks_len(bytes) + gesture_len(bytes)),
    )
}

/// A count comes back from its four bytes.
pub proof fn lemma_le32_round_trip(n: u32, bytes: Seq<u8>, at: int)
    requires
        0 <= at,
        at + 4 <= bytes.len(),
        bytes.subrange(at, at + 4) == le32(n),
    ensures
        from_le32(bytes, at) == n,
{
    let w = bytes.subrange(at, at + 4);
    assert(w[0] == bytes[at] && w[1] == bytes[at + 1] && w[2] == bytes[at + 2] && w[3]
        == bytes[at + 3]);
    assert(w[0] == (n % 256) as u8);
    assert(w[1] == ((n / 256) % 256) as u8);
    assert(w[2] == ((n / 65536) % 256) as u8);
    assert(w[3] == (n / 16777216) as u8);
}

/// A button section has three bytes for each button.
pub proof fn lemma_lock_bytes_len(s: Seq<(u16, LockStep)>)
    ensures
        lock_bytes(s).len() == 3 * s.len(),
    decreases s.len(),
{
    if s.len() > 0 {
        lemma_lock_bytes_len(s.drop_last());
    }
}

/// Buttons in ascending key order come back from their section unchanged.
pub proof fn lemma_locks_round_trip(s: Seq<(u16, LockStep)>)
    requires
        keys_ascending(s),
    ensures
        decode_locks(lock_bytes(s)) == s,
    decreases s.len(),
{
    if s.len() > 0 {
        let t = s.drop_last();
        let (key, step) = s.last();
        let body = lock_bytes(s);
        let n = body.len() as int;
        lemma_lock_bytes_len(s);
        lemma_lock_bytes_len(t);
        assert(keys_ascending(t)) by {
            assert forall|i: int, j: int| 0 <= i < j < t.len() implies t[i].0 < t[j].0 by {
                assert(s[i].0 < s[j].0);
            }
        }
        lemma_locks_round_trip(t);
        assert(body.subrange(0, n - 3) == lock_bytes(t));
        assert(body[n - 1] == step.spec_tag());
        assert(body[n - 3] == le16(key)[0] && body[n - 2] == le16(key)[1]);
        assert(from_le16(body[n - 3], body[n - 2]) == key);
        assert(LockStep::spec_from_tag(step.spec_tag()) == Some(step));
        lemma_upsert(t, key, step);
        assert forall|j: int| 0 <= j < t.len() implies (#[trigger] t[j]).0 < key by {
            assert(s[j].0 < s[s.len() - 1].0);
        }
        assert(t.push((key, step)) == s);
    }
}

/// Directions come back from their letters unchanged.
pub proof fn lemma_gesture_round_trip(g: Seq<GestureDir>)
    ensures
        decode_gesture(tags(g)) == g,
    decreases g.len(),
{
    if g.len() > 0 {
        let h = g.drop_last();
        lemma_gesture_round_trip(h);
        assert(tags(g).drop_last() == tags(h));
        assert(tags(g).last() == g.last().spec_tag());
        assert(GestureDir::spec_from_tag(g.last().spec_tag()) == Some(g.last()));
        assert(h.push(g.last()) == g);
    }
}

/// Decoding the payload of a snapshot gives back its three parts: the
/// scroll flag, the buttons and the directions.
pub proof fn lemma_round_trip(
    scroll_active: bool,
    locks: Seq<(u16, LockStep)>,
    gesture: Seq<GestureDir>,
)
    requires
        keys_ascending(locks),
        payload_len(locks.len(), gesture.len()) <= u32::MAX,
    ensures
        well_framed(payload(scroll_active, locks, gesture)),
        decoded_scroll(payload(scroll_active, locks, gesture)) == scroll_active,
        decoded_locks(payload(scroll_active, locks, gesture)) == locks,
        decoded_gesture(payload(scroll_active, locks, gesture)) == gesture,
{
    let p = payload(scroll_active, locks, gesture);
    let n1 = (3 * locks.len()) as u32;
    let n2 = gesture.len() as u32;
    lemma_lock_bytes_len(locks);
    assert(p.len() == 13 + n1 + n2);
    assert(p.subrange(0, 4) == le32(1));
    lemma_le32_round_trip(1, p, 0);
    assert(p.subrange(5, 9) == le32(n1));
    lemma_le32_round_trip(n1, p, 5);
    assert(p.subrange(9, 9 + n1) == lock_bytes(locks));
    assert(p.subrange(9 + n1, 13 + n1) == le32(n2));
    lemma_le32_round_trip(n2, p, 9 + n1);
    assert(p.subrange(13 + n1, 13 + n1 + n2) == tags(gesture));
    lemma_locks_round_trip(locks);
    lemma_gesture_round_trip(gesture);
}

/// What a listener learns from one payload.
#[derive(Debug)]
pub struct Snapshot {
    /// Whether scroll mode is on.
    pub scroll_active: bool,
    /// The tracked buttons with their steps, in ascending key order.
    pub buttons: Vec<(u16, LockStep)>,
    /// The directions of the open gesture; empty where none is open.
    pub gesture: Vec<GestureDir>,
}

fn push_le32(out: &mut Vec<u8>, n: u32)
    ensures
        final(out)@ == old(out)@ + le32(n),
{
    out.push((n % 256) as u8);
    out.push(((n / 256) % 256) as u8);
    out.push(((n / 65536) % 256) as u8);
    out.push((n / 16777216) as u8);
    assert(out@ == old(out)@ + le32(n));
}

fn read_le32(bytes: &[u8], at: usize) -> (n: u32)
    requires
        at + 4 <= bytes@.len(),
    ensures
        n == from_le32(bytes@, at as int),
{
    let b0 = bytes[at] as u32;
    let b1 = bytes[at + 1] as u32;
    let b2 = bytes[at + 2] as u32;
    let b3 = bytes[at + 3] as u32;
    b0 + 256 * b1 + 65536 * b2 + 16777216 * b3
}

/// Appends the payload of a snapshot to `out`.
pub fn encode_payload(
    scroll_active: bool,
    locks: &Vec<(u16, LockStep)>,
    gesture: &Vec<GestureDir>,
    out: &mut Vec<u8>,
)
    requires
        payload_len(locks@.len(), gesture@.len()) <= u32::MAX,
    ensures
        final(out)@ == old(out)@ + payload(scroll_active, locks@, gesture@),
{
    push_le32(out, 1);
    out.push(if scroll_active { 1u8 } else { 0u8 });
    let n1 = locks.len();
    push_le32(out, (3 * n1) as u32);
    let ghost head = out@;
    let mut i: usize = 0;
    while i < n1
        invariant
            n1 == locks@.len(),
            0 <= i <= n1,
            out@ == head + lock_bytes(locks@.subrange(0, i as int)),
        decreases n1 - i,
    {
        let (key, step) = locks[i];
        proof {
            let upto = locks@.subrange(0, i + 1);
            assert(upto.drop_last() == locks@.subrange(0, i as int));
            assert(upto.last() == locks@[i as int]);
        }
        out.push((key % 256) as u8);
        out.push((key / 256) as u8);
        out.push(step.tag());
        assert(out@ == head + lock_bytes(locks@.subrange(0, i + 1)));
        i += 1;
    }
    assert(locks@.subrange(0, n1 as int) == locks@);
    let n2 = gesture.len();
    push_le32(out, n2 as u32);
    let ghost head = out@;
    let mut j: usize = 0;
    while j < n2
        invariant
            n2 == gesture@.len(),
            0 <= j <= n2,
            out@ == head + tags(gesture@.subrange(0, j as int)),
        decreases n2 - j,
    {
        out.push(gesture[j].tag());
        assert(out@ == head + tags(gesture@.subrange(0, j + 1)));
        j += 1;
    }
    assert(gesture@.subrange(0, n2 as int) == gesture@);
    assert(out@ == old(out)@ + payload(scroll_active, locks@, gesture@));
}

/// Appends the frame of a snapshot to `out`: the count of the payload's
/// bytes, then the payload.
pub fn encode_frame(
    scroll_active: bool,
    locks: &Vec<(u16, LockStep)>,
    gesture: &Vec<GestureDir>,
    out: &mut Vec<u8>,
)
    requires
        payload_len(locks@.len(), gesture@.len()) <= u32::MAX,
    ensures
        final(out)@ == old(out)@ + frame(scroll_active, locks@, gesture@),
{
    let len = 13 + 3 * locks.len() + gesture.len();
    push_le32(out, len as u32);
    encode_payload(scroll_active, locks, gesture, out);
    assert(out@ == old(out)@ + frame(scroll_active, locks@, gesture@));
}

impl Snapshot {
    /// The buttons are in ascending key order, each key once.
    pub open spec fn wf(&self) -> bool {
        keys_ascending(self.buttons@)
    }

    /// Whether the payload's byte counts fit their four bytes.
    pub open spec fn fits(&self) -> bool {
        payload_len(self.buttons@.len(), self.gesture@.len()) <= u32::MAX
    }

    /// The payload of this snapshot.
    pub fn to_bytes(&self) -> (bytes: Vec<u8>)
        requires
            self.fits(),
        ensures
            bytes@ == payload(self.scroll_active, self.buttons@, self.gesture@),
    {
        let mut bytes: Vec<u8> = Vec::new();
        encode_payload(self.scroll_active, &self.buttons, &self.gesture, &mut bytes);
        assert(bytes@ == payload(self.scroll_active, self.buttons@, self.gesture@));
        bytes
    }

    /// Reads the payload that `bytes` begin with. `None` where they hold no
    /// whole payload; an unknown step or direction letter is skipped.
    pub fn from_bytes(bytes: &[u8]) -> (snap: Option<Snapshot>)
        ensures
            snap is Some <==> well_framed(bytes@),
            snap matches Some(s) ==> {
                &&& s.wf()
                &&& s.scroll_active == decoded_scroll(bytes@)
                &&& s.buttons@ == decoded_locks(bytes@)
                &&& s.gesture@ == decoded_gesture(bytes@)
            },
    {
        let len = bytes.len();
        if len < 9 || read_le32(bytes, 0) != 1 {
            return None;
        }
        let scroll_active = bytes[4] != 0;
        let n1 = read_le32(bytes, 5) as usize;
        if n1 % 3 != 0 || len - 9 < 4 || len - 13 < n1 {
            return None;
        }
        let n2 = read_le32(bytes, 9 + n1) as usize;
        if len - 13 - n1 < n2 {
            return None;
        }
        let ghost body = bytes@.subrange(9, 9 + n1);
        let mut buttons: Vec<(u16, LockStep)> = Vec::new();
        let mut i: usize = 0;
        while i < n1
            invariant
                13 + n1 <= len == bytes@.len(),
                n1 % 3 == 0,
                i % 3 == 0,
                0 <= i <= n1,
                body == bytes@.subrange(9, 9 + n1),
                keys_ascending(buttons@),
                buttons@ == decode_locks(body.subrange(0, i as int)),
            decreases n1 - i,
        {
            let lo = bytes[9 + i];
            let hi = bytes[9 + i + 1];
            let tag = bytes[9 + i + 2];
            proof {
                let upto = body.subrange(0, i + 3);
                assert(upto.subrange(0, upto.len() - 3) == body.subrange(0, i as int));
                assert(upto[i as int] == lo && upto[i + 1] == hi && upto[i + 2] == tag);
            }
            match LockStep::from_tag(tag) {
                Some(step) => {
                    let key: u16 = lo as u16 + 256 * (hi as u16);
                    put(&mut buttons, key, step);
                },
                None => {},
            }
            i += 3;
        }
        assert(body.subrange(0, n1 as int) == body);
        let ghost tail = bytes@.subrange(13 + n1, 13 + n1 + n2);
        let mut gesture: Vec<GestureDir> = Vec::new();
        let mut j: usize = 0;
        while j < n2
            invariant
                13 + n1 + n2 <= len == bytes@.len(),
                0 <= j <= n2,
                tail == bytes@.subrange(13 + n1, 13 + n1 + n2),
                gesture@ == decode_gesture(tail.subrange(0, j as int)),
            decreases n2 - j,
        {
            let tag = bytes[13 + n1 + j];
            proof {
                let upto = tail.subrange(0, j + 1);
                assert(upto.drop_last() == tail.subrange(0, j as int));
                assert(upto.last() == tag);
            }
            match GestureDir::from_tag(tag) {
                Some(dir) => {
                    gesture.push(dir);
                },
                None => {},
            }
            j += 1;
        }
        assert(tail.subrange(0, n2 as int) == tail);
        Some(Snapshot { scroll_active, buttons, gesture })
    }
}

} // verus!
