//! The abort of an outbound track.
//!
//! Several owners of one track may ask for its abort: the handler task, and
//! the hook that watches the request stream. Of all aborts that are asked
//! for, the first reaches the track; the later ones do nothing. After an
//! abort no frame is written.

use vstd::prelude::*;

verus! {

/// The code that stays on a track when `code` is asked for and `first` is
/// what was there before.
pub open spec fn latched(first: Option<u32>, code: u32) -> Option<u32> {
    match first {
        Some(earlier) => Some(earlier),
        None => Some(code),
    }
}

/// The abort to perform when `code` is asked for: none where an earlier
/// abort already reached the track.
pub open spec fn fresh_abort(first: Option<u32>, code: u32) -> Option<u32> {
    match first {
        Some(_) => None,
        None => Some(code),
    }
}

/// What is known of the abort of one track.
#[derive(Debug)]
pub struct AbortLatch {
    code: Option<u32>,
}

impl View for AbortLatch {
    type V = Option<u32>;

    /// The code of the abort that reached the track, if one did.
    closed spec fn view(&self) -> Option<u32> {
        self.code
    }
}

impl AbortLatch {
    /// The latch of a track that has not been aborted.
    pub fn new() -> (r: Self)
        ensures
            r@ is None,
    {
        AbortLatch { code: None }
    }

    /// Asks for an abort with `code` and returns the abort to perform on the
    /// track: `code` for the first request, nothing for any later one.
    pub fn abort(&mut self, code: u32) -> (r: Option<u32>)
        ensures
            final(self)@ == latched(old(self)@, code),
            r == fresh_abort(old(self)@, code),
    {
        match self.code {
            Some(_) => None,
            None => {
                self.code = Some(code);
                Some(code)
            },
        }
    }

    /// The code of the abort that reached the track, if one did.
    pub fn code(&self) -> (r: Option<u32>)
        ensures
            r == self@,
    {
        self.code
    }

    /// Tells whether frames may still be written: no abort has reached the track.
    pub fn is_open(&self) -> (r: bool)
        ensures
            r == (self@ is None),
    {
        self.code.is_none()
    }
}

} // verus!
