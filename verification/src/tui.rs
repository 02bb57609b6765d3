//! Dashboard state: quit handling, status label and liveness.
//!
//! The dashboard itself — terminal setup, layout, rendering, key capture —
//! lives outside the library. It hands each pressed key in as a plain value
//! and reads back whether a quit was requested, and it supplies the current
//! time in milliseconds (from a monotonic clock) to ask whether the view
//! counts as active or idle.

use vstd::prelude::*;

verus! {

/// How long the dashboard counts as active after its last update, in
/// milliseconds.
pub const ACTIVE_WINDOW_MS: u64 = 1000;

/// A pressed key, reduced to what the quit rule reads.
#[derive(Clone, Copy, Debug, PartialEq, Eq, Structural)]
pub enum UiKey {
    /// A character key, and whether the control modifier was held.
    Char { ch: char, ctrl: bool },
    /// The escape key.
    Esc,
    /// Any other key.
    Other,
}

/// The keys that request a quit: 'q', escape, or control-'c'.
pub open spec fn quit_key(key: UiKey) -> bool {
    match key {
        UiKey::Char { ch, ctrl } => ch == 'q' || (ch == 'c' && ctrl),
        UiKey::Esc => true,
        UiKey::Other => false,
    }
}

/// The dashboard's state.
pub struct App {
    should_quit: bool,
    status: String,
    last_update_ms: u64,
}

impl App {
    /// Whether a quit has been requested.
    pub closed spec fn quitting(&self) -> bool {
        self.should_quit
    }

    /// The status label, as a character sequence.
    pub closed spec fn status_view(&self) -> Seq<char> {
        self.status@
    }

    /// When the view last updated, in milliseconds of the caller's clock.
    pub closed spec fn last_update(&self) -> u64 {
        self.last_update_ms
    }

    /// A fresh dashboard state: not quitting, with a startup label.
    pub fn new(now_ms: u64) -> (r: Self)
        ensures
            !r.quitting(),
            r.status_view() == "Starting Cardinal..."@,
            r.last_update() == now_ms,
    {
        App { should_quit: false, status: "Starting Cardinal...".to_owned(), last_update_ms: now_ms }
    }

    /// Replaces the status label.
    pub fn set_status(&mut self, status: String)
        ensures
            final(self).status_view() == status@,
            final(self).quitting() == old(self).quitting(),
            final(self).last_update() == old(self).last_update(),
    {
        self.status = status;
    }

    /// Whether a quit has been requested.
    pub fn should_quit(&self) -> (r: bool)
        ensures
            r == self.quitting(),
    {
        self.should_quit
    }

    /// A copy of the status label, for the dashboard to render.
    pub fn status(&self) -> (r: String)
        ensures
            r@ == self.status_view(),
    {
        self.status.clone()
    }

    /// Takes one pressed key: a quit key requests a quit, and a quit once
    /// requested is never withdrawn. Nothing else changes.
    pub fn handle_key(&mut self, key: UiKey)
        ensures
            final(self).quitting() == (old(self).quitting() || quit_key(key)),
            final(self).status_view() == old(self).status_view(),
            final(self).last_update() == old(self).last_update(),
    {
        match key {
            UiKey::Char { ch, ctrl } => {
                if ch == 'q' || (ch == 'c' && ctrl) {
                    self.should_quit = true;
                }
            },
            UiKey::Esc => {
                self.should_quit = true;
            },
            UiKey::Other => (),
        }
    }

    /// Marks the view as updated now.
    pub fn update(&mut self, now_ms: u64)
        ensures
            final(self).last_update() == now_ms,
            final(self).quitting() == old(self).quitting(),
            final(self).status_view() == old(self).status_view(),
    {
        self.last_update_ms = now_ms;
    }

    /// Whether the view counts as active: it updated within the last
    /// [`ACTIVE_WINDOW_MS`] milliseconds. The caller's clock is monotonic,
    /// so `now_ms` never lies before the last update.
    pub fn is_active(&self, now_ms: u64) -> (r: bool)
        requires
            now_ms >= self.last_update(),
        ensures
            r == (now_ms - self.last_update() < ACTIVE_WINDOW_MS),
    {
        now_ms - self.last_update_ms < ACTIVE_WINDOW_MS
    }
}

} // verus!
