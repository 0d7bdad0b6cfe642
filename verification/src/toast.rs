//! Transient notifications ("toasts") and their timing.
//!
//! A toast shows for a fixed duration once started.  The core keeps time as
//! plain milliseconds; whoever drives the UI reads the clock and passes the
//! current instant in.

use vstd::prelude::*;

verus! {

/// The stateless widget that shows the toast at the front of the queue;
/// what it shows lives in [`ToastState`].
#[derive(Clone, Copy)]
pub struct ToastMessage {}

/// How urgent a toast is; decides its color.
#[derive(Clone, Copy, Debug, PartialEq, Eq, Structural)]
#[allow(dead_code)]
pub enum ToastType {
    Info,
    Warning,
    Error,
}

/// One queued notification: its text, how long it shows, and — once it is
/// on screen — the instant it ends, in milliseconds.
pub struct ToastState {
    title: Option<String>,
    msg: String,
    dur_ms: u64,
    end_ms: Option<u64>,
    typ: ToastType,
}

impl ToastState {
    /// An optional heading above the message.
    pub closed spec fn spec_title(&self) -> Option<String> {
        self.title
    }

    /// The text to display.
    pub closed spec fn spec_msg(&self) -> Seq<char> {
        self.msg@
    }

    /// How long the toast shows, in milliseconds.
    pub closed spec fn spec_dur_ms(&self) -> u64 {
        self.dur_ms
    }

    /// The instant the toast ends; `None` until it was started.
    pub closed spec fn spec_end_ms(&self) -> Option<u64> {
        self.end_ms
    }

    /// The urgency of the toast.
    pub closed spec fn spec_typ(&self) -> ToastType {
        self.typ
    }

    /// A toast that has not started showing yet.
    pub fn new(title: Option<String>, msg: String, dur_ms: u64, typ: ToastType) -> (r: Self)
        ensures
            r.spec_title() == title,
            r.spec_msg() == msg@,
            r.spec_dur_ms() == dur_ms,
            r.spec_end_ms() is None,
            r.spec_typ() == typ,
    {
        Self { title, msg, dur_ms, end_ms: None, typ }
    }

    /// An error toast with the default duration.
    pub fn err(title: Option<String>, msg: String) -> (r: Self)
        ensures
            r.spec_title() == title,
            r.spec_msg() == msg@,
            r.spec_dur_ms() == 2500,
            r.spec_end_ms() is None,
            r.spec_typ() == ToastType::Error,
    {
        Self::new(title, msg, 2500, ToastType::Error)
    }

    /// Starts the clock: from `now_ms` the toast shows for its duration.
    pub fn start(&mut self, now_ms: u64)
        ensures
            final(self).spec_end_ms() == Some(
                (if now_ms + old(self).spec_dur_ms() <= u64::MAX {
                    (now_ms + old(self).spec_dur_ms()) as u64
                } else {
                    u64::MAX
                }),
            ),
            final(self).spec_title() == old(self).spec_title(),
            final(self).spec_msg() == old(self).spec_msg(),
            final(self).spec_dur_ms() == old(self).spec_dur_ms(),
            final(self).spec_typ() == old(self).spec_typ(),
    {
        self.end_ms = Some(now_ms.saturating_add(self.dur_ms));
    }

    /// Whether the toast's time is up at `now_ms`.  False for a toast that
    /// was never started.
    pub fn is_duration_passed(&self, now_ms: u64) -> (r: bool)
        ensures
            r == match self.spec_end_ms() {
                Some(end) => end < now_ms,
                None => false,
            },
    {
        match self.end_ms {
            Some(end) => end < now_ms,
            None => false,
        }
    }

    /// Whether the toast has started showing.
    pub fn is_started(&self) -> (r: bool)
        ensures
            r == (self.spec_end_ms() is Some),
    {
        self.end_ms.is_some()
    }

    /// The heading, for whoever draws the toast.
    pub fn title(&self) -> (r: &Option<String>)
        ensures
            *r == self.spec_title(),
    {
        &self.title
    }

    /// The message text, for whoever draws the toast.
    pub fn msg(&self) -> (r: &String)
        ensures
            r@ == self.spec_msg(),
    {
        &self.msg
    }

    /// The urgency, for whoever picks the color.
    pub fn typ(&self) -> (r: ToastType)
        ensures
            r == self.spec_typ(),
    {
        self.typ
    }
}

} // verus!
