//! The fade between two words, kept as a target and the instant it was set.

use vstd::prelude::*;

verus! {

/// How long a fade lasts, in milliseconds.
pub const FADE_MS: u64 = 150;

/// The word's fade: whether it is heading to shown or to hidden, and since
/// when.  Instants are milliseconds on the session's clock.
#[derive(Clone, Copy, Debug, PartialEq, Eq, Structural)]
pub struct Fade {
    /// The state the word is heading to, or rests in.
    pub shown: bool,
    /// When the word last started towards `shown`; `None` before any change.
    pub since: Option<u64>,
}

/// The milliseconds from `since` to `now`, none if `now` is earlier.
pub open spec fn elapsed_ms(since: u64, now: u64) -> int {
    if now >= since {
        now - since
    } else {
        0
    }
}

impl Fade {
    /// A word that rests shown.
    pub open spec fn resting() -> Fade {
        Fade { shown: true, since: None }
    }

    /// Whether the fade is still under way at `now`.
    pub open spec fn animating(self, now: u64) -> bool {
        match self.since {
            Some(t) => elapsed_ms(t, now) < FADE_MS,
            None => false,
        }
    }

    /// The fade after it is sent towards `shown` at `now`: a fade that
    /// already heads there is left alone.
    pub open spec fn heading(self, shown: bool, now: u64) -> Fade {
        if self.shown == shown {
            self
        } else {
            Fade { shown, since: Some(now) }
        }
    }

    /// How far the fade has come at `now`, in milliseconds from 0 to
    /// [`FADE_MS`]; a fade that never started is complete.
    pub open spec fn progress(self, now: u64) -> int {
        match self.since {
            Some(t) => if elapsed_ms(t, now) < FADE_MS {
                elapsed_ms(t, now)
            } else {
                FADE_MS as int
            },
            None => FADE_MS as int,
        }
    }

    /// A word that rests shown.
    pub fn new() -> (r: Fade)
        ensures
            r == Fade::resting(),
    {
        Fade { shown: true, since: None }
    }

    /// Whether the fade is still under way at `now`.
    pub fn is_animating(&self, now: u64) -> (r: bool)
        ensures
            r == self.animating(now),
    {
        match self.since {
            Some(t) => now < t || now - t < FADE_MS,
            None => false,
        }
    }

    /// Sends the fade towards `shown`, starting at `now`.
    pub fn go(&mut self, shown: bool, now: u64)
        ensures
            *final(self) == old(self).heading(shown, now),
    {
        if self.shown != shown {
            self.shown = shown;
            self.since = Some(now);
        }
    }

    /// How far the fade has come at `now`.
    pub fn elapsed(&self, now: u64) -> (r: u64)
        ensures
            r == self.progress(now),
            r <= FADE_MS,
    {
        match self.since {
            Some(t) => if now >= t && now - t >= FADE_MS {
                FADE_MS
            } else if now >= t {
                now - t
            } else {
                0
            },
            None => FADE_MS,
        }
    }
}

} // verus!
