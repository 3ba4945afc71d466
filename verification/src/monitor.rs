//! Change detection: whether the clipboard was replaced since the last poll.
//!
//! Two monitors share one protocol. The first poll only takes a baseline and
//! reports nothing; after that a change is reported once, by the poll that
//! first sees it. `ChangeMonitor` compares a counter that the operating system
//! increments; `ChangeFlag` consumes a flag that update notifications raise.
use vstd::prelude::*;

verus! {

/// What a counter-based monitor knows.
pub enum MonitorState {
    /// No poll was made yet.
    Uninitialized,
    /// The counter stood at this value when it was last read.
    Tracking(isize),
}

/// The state after a poll that read `token` (`None`: the counter could not be
/// read).
pub open spec fn next_state(state: MonitorState, token: Option<isize>) -> MonitorState {
    match token {
        Some(t) => MonitorState::Tracking(t),
        None => state,
    }
}

/// Whether a poll that read `token` reports a change.
pub open spec fn reports_change(state: MonitorState, token: Option<isize>) -> bool {
    match (state, token) {
        (MonitorState::Tracking(last), Some(t)) => t != last,
        _ => false,
    }
}

/// Change detection over a counter that grows with every clipboard write.
#[derive(Debug, Clone, Copy, PartialEq, Eq)]
pub struct ChangeMonitor {
    initialized: bool,
    last_token: isize,
}

impl View for ChangeMonitor {
    type V = MonitorState;

    closed spec fn view(&self) -> MonitorState {
        if self.initialized {
            MonitorState::Tracking(self.last_token)
        } else {
            MonitorState::Uninitialized
        }
    }
}

impl ChangeMonitor {
    /// A monitor that has not polled yet.
    pub fn new() -> (monitor: Self)
        ensures
            monitor@ == MonitorState::Uninitialized,
    {
        ChangeMonitor { initialized: false, last_token: 0 }
    }

    /// One poll, given the counter as it stands now (`None` where it could not
    /// be read, which reports nothing and leaves the monitor as it was).
    pub fn poll(&mut self, token: Option<isize>) -> (changed: bool)
        ensures
            final(self)@ == next_state(old(self)@, token),
            changed == reports_change(old(self)@, token),
    {
        match token {
            Some(t) => {
                let changed = self.initialized && self.last_token != t;
                self.initialized = true;
                self.last_token = t;
                changed
            },
            None => false,
        }
    }
}

/// The first poll of a monitor reports no change, whatever the counter holds.
pub proof fn lemma_monitor_baseline(token: Option<isize>)
    ensures
        !reports_change(MonitorState::Uninitialized, token),
{
}

/// A poll that reads the value of the poll before reports no change.
pub proof fn lemma_monitor_quiet(state: MonitorState, token: isize)
    ensures
        !reports_change(next_state(state, Some(token)), Some(token)),
{
}

/// One write between two polls is reported by the second of them, and not
/// again by a third poll that follows without a further write.
pub proof fn lemma_monitor_edge(state: MonitorState, before: isize, after: isize)
    requires
        before != after,
    ensures
        ({
            let first = next_state(state, Some(before));
            let second = next_state(first, Some(after));
            &&& reports_change(first, Some(after))
            &&& !reports_change(second, Some(after))
        }),
{
}

/// What a notification-based monitor knows: whether it has polled, and whether
/// an update was notified since the last poll.
pub struct FlagState {
    pub initialized: bool,
    pub pending: bool,
}

/// Change detection over update notifications: each raises a flag, each poll
/// consumes it. Updates between two polls coalesce into one report.
#[derive(Debug, Clone, Copy, PartialEq, Eq)]
pub struct ChangeFlag {
    initialized: bool,
    pending: bool,
}

impl View for ChangeFlag {
    type V = FlagState;

    closed spec fn view(&self) -> FlagState {
        FlagState { initialized: self.initialized, pending: self.pending }
    }
}

/// The state after an update notification.
pub open spec fn notified(state: FlagState) -> FlagState {
    FlagState { initialized: state.initialized, pending: true }
}

/// The state after a poll.
pub open spec fn polled(state: FlagState) -> FlagState {
    FlagState { initialized: true, pending: false }
}

/// Whether a poll in `state` reports a change.
pub open spec fn flag_reports_change(state: FlagState) -> bool {
    state.initialized && state.pending
}

impl ChangeFlag {
    /// A monitor that has not polled yet and was not notified.
    pub fn new() -> (flag: Self)
        ensures
            flag@ == (FlagState { initialized: false, pending: false }),
    {
        ChangeFlag { initialized: false, pending: false }
    }

    /// Records that the clipboard was updated.
    pub fn notify(&mut self)
        ensures
            final(self)@ == notified(old(self)@),
    {
        self.pending = true;
    }

    /// One poll: reads the flag and clears it.
    pub fn poll(&mut self) -> (changed: bool)
        ensures
            final(self)@ == polled(old(self)@),
            changed == flag_reports_change(old(self)@),
    {
        let changed = self.initialized && self.pending;
        self.initialized = true;
        self.pending = false;
        changed
    }
}

/// The first poll reports no change, whether or not updates were notified
/// before it.
pub proof fn lemma_flag_baseline(pending: bool)
    ensures
        !flag_reports_change(FlagState { initialized: false, pending }),
{
}

/// Notifications between two polls are reported by the second of them, once,
/// and not again by a third poll that follows without a further notification.
pub proof fn lemma_flag_edge(state: FlagState)
    ensures
        ({
            let first = polled(state);
            let second = polled(notified(notified(first)));
            &&& flag_reports_change(notified(first))
            &&& flag_reports_change(notified(notified(first)))
            &&& !flag_reports_change(second)
        }),
{
}

/// Two polls in a row with no notification between them: the second reports
/// nothing.
pub proof fn lemma_flag_quiet(state: FlagState)
    ensures
        !flag_reports_change(polled(state)),
{
}

} // verus!
