//! The meta key: one button whose press is told apart, by a timer and by
//! what happens while it is down, into a click, a hold, a move or a chord.
//!
//! Times are milliseconds on any clock that does not run backwards; the
//! caller reads the clock and owns the timer.

use vstd::prelude::*;

verus! {

/// What a press of the meta key turned out to be, once it is more than a
/// click.
#[derive(Clone, Copy, Debug, PartialEq, Eq, Structural)]
pub enum ActionType {
    /// The key was held until the timer ran out, or another button came.
    Hold,
    /// The pointer moved while the key was down.
    Move,
    /// A button with a chord action came while the key was down.
    Chord(u16),
}

/// What a press of the meta key is at the moment of its release.
#[derive(Clone, Copy, Debug, PartialEq, Eq, Structural)]
pub enum ActionTypeExt {
    /// Released before anything told it apart.
    Click,
    Other(ActionType),
}

/// The three states of the meta key.
#[derive(Clone, Copy, Debug, PartialEq, Eq, Structural)]
pub enum MetaPhase {
    /// The key is up.
    Inactive,
    /// The key is down and nothing has told the press apart yet; the timer
    /// runs out at the deadline.
    Waiting(u64),
    /// The key is down and the press is known for what it is.
    Active(ActionType),
}

impl MetaPhase {
    /// The deadline of a press at `now` with `timeout` to wait; a deadline
    /// beyond the clock's range is the end of the range.
    pub open spec fn deadline_for(now: u64, timeout: u64) -> u64 {
        if now + timeout > u64::MAX {
            u64::MAX
        } else {
            (now + timeout) as u64
        }
    }

    /// Whether input that speaks for `typ` counts: while waiting it always
    /// does and settles the press; later only the button of the running
    /// chord does, as the chord's own release.
    pub open spec fn activates(self, typ: ActionType) -> bool {
        match self {
            MetaPhase::Waiting(_) => true,
            MetaPhase::Active(ActionType::Chord(held)) => typ == ActionType::Chord(held),
            _ => false,
        }
    }

    /// The state after input that speaks for `typ`: a waiting press becomes
    /// `Active(typ)`, and every other state stays.
    pub open spec fn activated(self, typ: ActionType) -> MetaPhase {
        match self {
            MetaPhase::Waiting(_) => MetaPhase::Active(typ),
            _ => self,
        }
    }

    /// Whether the timer of this state has run out at `now`.
    pub open spec fn due(self, now: u64) -> bool {
        self matches MetaPhase::Waiting(deadline) && now >= deadline
    }

    /// The state after the timer was looked at: a press whose timer has run
    /// out becomes a hold.
    pub open spec fn waited(self, now: u64) -> MetaPhase {
        if self.due(now) {
            MetaPhase::Active(ActionType::Hold)
        } else {
            self
        }
    }

    /// What a release in this state stands for.
    pub open spec fn release_type(self) -> ActionTypeExt {
        match self {
            MetaPhase::Active(typ) => ActionTypeExt::Other(typ),
            _ => ActionTypeExt::Click,
        }
    }
}

/// The state of the meta key.
pub struct MetaDown {
    inner: MetaPhase,
}

impl View for MetaDown {
    type V = MetaPhase;

    closed spec fn view(&self) -> MetaPhase {
        self.inner
    }
}

impl Default for MetaDown {
    fn default() -> (m: MetaDown)
        ensures
            m@ == MetaPhase::Inactive,
    {
        MetaDown::new()
    }
}

impl MetaDown {
    /// The key is up.
    pub fn new() -> (m: MetaDown)
        ensures
            m@ == MetaPhase::Inactive,
    {
        MetaDown { inner: MetaPhase::Inactive }
    }

    /// The state as a value.
    pub fn phase(&self) -> (p: MetaPhase)
        ensures
            p == self@,
    {
        self.inner
    }

    /// Takes input that speaks for `typ`, and says whether it counted.
    pub fn activate_waiting(&mut self, typ: ActionType) -> (counted: bool)
        ensures
            final(self)@ == old(self)@.activated(typ),
            counted == old(self)@.activates(typ),
    {
        match self.inner {
            MetaPhase::Waiting(_) => {
                self.inner = MetaPhase::Active(typ);
                true
            },
            MetaPhase::Active(ActionType::Chord(held)) => {
                match typ {
                    ActionType::Chord(key) => key == held,
                    _ => false,
                }
            },
            _ => false,
        }
    }

    /// The key went down at `now`: the press waits for `timeout`.
    pub fn start_wait(&mut self, now: u64, timeout: u64)
        ensures
            final(self)@ == MetaPhase::Waiting(MetaPhase::deadline_for(now, timeout)),
    {
        let deadline = if timeout > u64::MAX - now {
            u64::MAX
        } else {
            now + timeout
        };
        self.inner = MetaPhase::Waiting(deadline);
    }

    /// The key is up again.
    pub fn reset(&mut self)
        ensures
            final(self)@ == MetaPhase::Inactive,
    {
        self.inner = MetaPhase::Inactive;
    }

    /// What a release stands for now.
    pub fn action_type(&self) -> (t: ActionTypeExt)
        ensures
            t == self@.release_type(),
    {
        match self.inner {
            MetaPhase::Active(typ) => ActionTypeExt::Other(typ),
            _ => ActionTypeExt::Click,
        }
    }

    /// When the timer runs out, while a press waits.
    pub fn deadline(&self) -> (d: Option<u64>)
        ensures
            d == match self@ {
                MetaPhase::Waiting(deadline) => Some(deadline),
                _ => None,
            },
    {
        match self.inner {
            MetaPhase::Waiting(deadline) => Some(deadline),
            _ => None,
        }
    }

    /// Looks at the timer at `now`. A press whose timer has run out becomes
    /// a hold, and the answer is `true`; a timer that runs out in any other
    /// state is stale and changes nothing.
    pub fn wait(&mut self, now: u64) -> (fired: bool)
        ensures
            final(self)@ == old(self)@.waited(now),
            fired == old(self)@.due(now),
    {
        match self.inner {
            MetaPhase::Waiting(deadline) => {
                if now >= deadline {
                    self.inner = MetaPhase::Active(ActionType::Hold);
                    true
                } else {
                    false
                }
            },
            _ => false,
        }
    }
}

} // verus!
