//! A mailbox of size one for a timestamped redirect URL.

use vstd::prelude::*;

verus! {

/// How long a stored redirect stays valid: ten minutes, in milliseconds.
pub const REDIRECT_TTL_MS: u64 = 600000;

/// A redirect URL together with the moment it was stored, in milliseconds of
/// the host's monotonic clock.
pub struct StoredRedirect {
    pub url: String,
    pub stored_at_ms: u64,
}

/// An entry stored at `stored_at_ms` has expired at `now_ms` when more than
/// ten minutes have passed. A clock reading earlier than the storing moment
/// counts as no time passed, as `Instant`-style elapsed time does.
pub open spec fn expired(stored_at_ms: u64, now_ms: u64) -> bool {
    now_ms - stored_at_ms > REDIRECT_TTL_MS
}

/// Holds at most one timestamped URL; storing overwrites, taking clears.
///
/// Its view is the entry as a plain pair: the URL's characters and the
/// storing moment, or `None` when the mailbox is empty.
pub struct RedirectSlot {
    entry: Option<StoredRedirect>,
}

impl View for RedirectSlot {
    type V = Option<(Seq<char>, u64)>;

    closed spec fn view(&self) -> Option<(Seq<char>, u64)> {
        match self.entry {
            Option::None => Option::None,
            Option::Some(e) => Option::Some((e.url@, e.stored_at_ms)),
        }
    }
}

impl RedirectSlot {
    /// An empty mailbox.
    pub fn new() -> (s: Self)
        ensures
            s@ is None,
    {
        RedirectSlot { entry: Option::None }
    }

    /// Stores `url` at `now_ms`, overwriting whatever entry was there.
    pub fn set(&mut self, url: String, now_ms: u64)
        ensures
            final(self)@ == Option::Some((url@, now_ms)),
    {
        self.entry = Option::Some(StoredRedirect { url, stored_at_ms: now_ms });
    }

    /// Whether an entry is present, without consuming it.
    pub fn is_pending(&self) -> (r: bool)
        ensures
            r == (self@ is Some),
    {
        self.entry.is_some()
    }

    /// Removes the entry. Returns its URL when one was present and had not
    /// expired at `now_ms`; returns nothing otherwise. The mailbox is empty
    /// afterwards in every case.
    pub fn take_if_fresh(&mut self, now_ms: u64) -> (r: Option<String>)
        ensures
            final(self)@ is None,
            match old(self)@ {
                Option::None => r is None,
                Option::Some(p) => if expired(p.1, now_ms) {
                    r is None
                } else {
                    r matches Option::Some(u) && u@ == p.0
                },
            },
    {
        let prior = self.entry.take();
        match prior {
            Option::None => Option::None,
            Option::Some(e) => {
                if now_ms >= e.stored_at_ms && now_ms - e.stored_at_ms > REDIRECT_TTL_MS {
                    Option::None
                } else {
                    Option::Some(e.url)
                }
            },
        }
    }
}

} // verus!
