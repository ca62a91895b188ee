//! The pending-redirect state machine behind the notification handlers.

use vstd::prelude::*;

use crate::slot::RedirectSlot;
use crate::slot::expired;
use crate::text::trim;
use crate::text::trim_spec;

verus! {

/// The two cells of process-wide state: the pending-redirect mailbox and
/// whether the main window currently has input focus.
///
/// The host shell owns everything around this — showing the notification,
/// emitting the redirect-ready event, delivering focus changes, reading the
/// clock — and hands each handler here the plain values it needs.
pub struct RedirectState {
    slot: RedirectSlot,
    focused: bool,
}

impl RedirectState {
    /// The pending entry: the stored URL's characters and the moment it was
    /// stored, or `None` when nothing is pending.
    pub closed spec fn pending(&self) -> Option<(Seq<char>, u64)> {
        self.slot@
    }

    /// Whether the main window is taken to be focused.
    pub closed spec fn is_focused(&self) -> bool {
        self.focused
    }

    /// A fresh state: nothing pending, window taken to be unfocused.
    pub fn new() -> (s: Self)
        ensures
            s.pending() is None,
            !s.is_focused(),
    {
        RedirectState { slot: RedirectSlot::new(), focused: false }
    }

    /// The bookkeeping half of the notification command; the host shows the
    /// notification itself (title and body) regardless of what happens here.
    ///
    /// A missing, empty or whitespace-only redirect URL leaves the mailbox
    /// unchanged, whatever the focus state; so does any URL while the window
    /// is focused. Otherwise the trimmed URL is stored at `now_ms`,
    /// overwriting any prior entry. Focus is never changed here.
    pub fn notify(&mut self, redirect_url: Option<String>, now_ms: u64)
        ensures
            final(self).is_focused() == old(self).is_focused(),
            match redirect_url {
                Option::None => final(self).pending() == old(self).pending(),
                Option::Some(u) => if trim_spec(u@).len() == 0 || old(self).is_focused() {
                    final(self).pending() == old(self).pending()
                } else {
                    final(self).pending() == Option::Some((trim_spec(u@), now_ms))
                },
            },
    {
        let url = match redirect_url {
            Option::None => { return ; },
            Option::Some(u) => u,
        };
        let url = trim(url.as_str());
        if url.as_str().unicode_len() == 0 {
            return ;
        }
        if self.focused {
            return ;
        }
        self.slot.set(url, now_ms);
    }

    /// The consume command: removes the pending entry, returning its URL when
    /// it is present and at most ten minutes old at `now_ms`, and nothing
    /// otherwise. Nothing is pending afterwards in every case — a successful
    /// read destroys the entry, so an immediate second consume returns
    /// nothing. Focus is untouched.
    pub fn consume_pending_redirect(&mut self, now_ms: u64) -> (r: Option<String>)
        ensures
            final(self).pending() is None,
            final(self).is_focused() == old(self).is_focused(),
            match old(self).pending() {
                Option::None => r is None,
                Option::Some(p) => if expired(p.1, now_ms) {
                    r is None
                } else {
                    r matches Option::Some(u) && u@ == p.0
                },
            },
    {
        self.slot.take_if_fresh(now_ms)
    }

    /// The window focus-change handler: records the new focus state and says
    /// whether the host should emit the redirect-ready event — exactly when
    /// the window is now focused and a redirect is pending. The mailbox is
    /// never touched here: clearing is the consume command's job alone, so
    /// the emitted event may announce an entry that consume then finds
    /// expired.
    pub fn on_focus_changed(&mut self, focused: bool) -> (emit: bool)
        ensures
            final(self).is_focused() == focused,
            final(self).pending() == old(self).pending(),
            emit == (focused && old(self).pending() is Some),
    {
        self.focused = focused;
        if focused {
            self.slot.is_pending()
        } else {
            false
        }
    }

    /// Whether a redirect is pending, without consuming it.
    pub fn has_pending(&self) -> (r: bool)
        ensures
            r == (self.pending() is Some),
    {
        self.slot.is_pending()
    }
}

} // verus!
