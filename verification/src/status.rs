//! The transient status message a transfer leaves behind.
//!
//! A message carries a tick counter that the render loop decrements once per
//! iteration; when the counter runs out the message disappears. Expiry
//! counts render iterations, not wall-clock time.

use vstd::prelude::*;

verus! {

/// How many render iterations a fresh status message lives.
pub const STATUS_TICKS: u64 = 50;

/// The ghost model of a status message: its text and the iterations it has
/// left.
pub struct StatusModel {
    pub text: Seq<char>,
    pub remaining: nat,
}

/// A transient user-facing status line.
pub struct StatusMessage {
    text: String,
    remaining_ticks: u64,
}

impl View for StatusMessage {
    type V = StatusModel;

    closed spec fn view(&self) -> StatusModel {
        StatusModel { text: self.text@, remaining: self.remaining_ticks as nat }
    }
}

impl StatusMessage {
    /// A fresh message, shown for the default number of iterations.
    pub fn new(text: String) -> (m: StatusMessage)
        ensures
            m@.text == text@,
            m@.remaining == STATUS_TICKS,
    {
        StatusMessage { text, remaining_ticks: STATUS_TICKS }
    }

    /// A message with an explicit tick counter.
    pub fn with_ticks(text: String, ticks: u64) -> (m: StatusMessage)
        ensures
            m@.text == text@,
            m@.remaining == ticks,
    {
        StatusMessage { text, remaining_ticks: ticks }
    }

    /// The text shown to the user.
    pub fn text(&self) -> (r: &String)
        ensures
            r@ == self@.text,
    {
        &self.text
    }

    /// How many render iterations the message has left.
    pub fn remaining_ticks(&self) -> (r: u64)
        ensures
            r == self@.remaining,
    {
        self.remaining_ticks
    }

    /// Spends one render iteration of the message's lifetime.
    pub fn decrement(&mut self)
        requires
            old(self)@.remaining >= 1,
        ensures
            final(self)@.text == old(self)@.text,
            final(self)@.remaining == old(self)@.remaining - 1,
    {
        self.remaining_ticks = self.remaining_ticks - 1;
    }
}

/// One render iteration of an optional status message: the counter is
/// decremented, and the message is cleared when it reaches zero.
pub open spec fn spec_tick(s: Option<StatusModel>) -> Option<StatusModel> {
    match s {
        None => None,
        Some(m) => if m.remaining <= 1 {
            None
        } else {
            Some(StatusModel { text: m.text, remaining: (m.remaining - 1) as nat })
        },
    }
}

/// The status message after `k` render iterations.
pub open spec fn spec_tick_iter(s: Option<StatusModel>, k: nat) -> Option<StatusModel>
    decreases k,
{
    if k == 0 {
        s
    } else {
        spec_tick(spec_tick_iter(s, (k - 1) as nat))
    }
}

/// A status message set with counter `T` survives exactly `T - 1` further
/// render iterations: after `k < T` iterations it still shows, with counter
/// `T - k`, and after `T` or more iterations it is gone.
pub proof fn lemma_status_expiry(m: StatusModel, k: nat)
    requires
        m.remaining >= 1,
    ensures
        k < m.remaining ==> spec_tick_iter(Some(m), k) == Some(
            StatusModel { text: m.text, remaining: (m.remaining - k) as nat },
        ),
        k >= m.remaining ==> spec_tick_iter(Some(m), k) is None,
    decreases k,
{
    if k > 0 {
        lemma_status_expiry(m, (k - 1) as nat);
    }
}

} // verus!
