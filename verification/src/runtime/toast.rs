//! Which toast is current. Each toast shown takes the next number; when a toast's timer
//! runs out it hides the label only if no later toast was shown meanwhile.

use vstd::prelude::*;

verus! {

/// The number the next toast takes after `latest`; the count stops at `u64::MAX`.
pub open spec fn spec_next_token(latest: u64) -> u64 {
    if latest == u64::MAX {
        u64::MAX
    } else {
        (latest + 1) as u64
    }
}

/// The number of the latest toast shown.
#[derive(Debug, Clone, Copy, PartialEq, Eq, Structural)]
pub struct ToastSequence {
    latest: u64,
}

impl ToastSequence {
    /// The number of the latest toast shown.
    pub closed spec fn spec_latest(self) -> u64 {
        self.latest
    }

    /// No toast shown yet.
    pub fn new() -> (s: Self)
        ensures
            s.spec_latest() == 0,
    {
        ToastSequence { latest: 0 }
    }

    /// A toast is shown: it takes the next number (the count stops at `u64::MAX`), which
    /// its timer later hands to `should_hide`.
    pub fn begin_show(&mut self) -> (token: u64)
        ensures
            token == spec_next_token(old(self).spec_latest()),
            final(self).spec_latest() == token,
    {
        self.latest = self.latest.saturating_add(1);
        self.latest
    }

    /// Whether the timer of the toast numbered `token` hides the label: only when that toast
    /// is still the latest.
    pub fn should_hide(&self, token: u64) -> (hide: bool)
        ensures
            hide == (token == self.spec_latest()),
    {
        token == self.latest
    }
}

/// A later toast keeps the label: when a second toast is shown after a first, the latest
/// number is no longer the first toast's, so the first one's timer does not hide the label
/// (`should_hide` compares with the latest), as long as the count has not reached `u64::MAX`.
pub proof fn lemma_later_toast_keeps_label(latest: u64)
    requires
        latest < u64::MAX - 1,
    ensures
        spec_next_token(spec_next_token(latest)) != spec_next_token(latest),
{
}

} // verus!
