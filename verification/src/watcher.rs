//! The change watcher: when a rewritten artifact counts as changed.
//!
//! A watcher is started with the artifact's modification time as its
//! baseline. The host polls the file and reports each reading; the watcher
//! answers what to do next. It signals once, on the first reading that is
//! strictly newer than the baseline, and is finished after that.

use vstd::prelude::*;

verus! {

/// A modification time, in nanoseconds since the Unix epoch.
#[derive(Clone, Copy, Debug, PartialEq, Eq, Structural)]
pub struct Timestamp {
    pub nanos: u128,
}

impl View for Timestamp {
    type V = int;

    open spec fn view(&self) -> int {
        self.nanos as int
    }
}

impl Timestamp {
    /// Whether this time is strictly later than `baseline`.
    pub fn newer_than(&self, baseline: &Timestamp) -> (newer: bool)
        ensures
            newer == (self@ > baseline@),
    {
        self.nanos > baseline.nanos
    }
}

/// What the host does after it reported a reading.
#[derive(Clone, Copy, Debug, PartialEq, Eq, Structural)]
pub enum WatchAction {
    /// The file could not be read just now: yield, then read again.
    Retry,
    /// Nothing changed: read again.
    Poll,
    /// The artifact is newer: raise the change flag and stop polling.
    Signal,
    /// The watcher signalled before: stop, and raise nothing.
    Done,
}

/// A watcher of one artifact during one run cycle.
#[derive(Clone, Copy, Debug, PartialEq, Eq, Structural)]
pub struct ChangeWatcher {
    /// The artifact's modification time when the cycle began.
    pub baseline: Timestamp,
    /// Whether the watcher has signalled.
    pub signalled: bool,
}

impl ChangeWatcher {
    /// A watcher at `baseline` that has not signalled.
    pub open spec fn started(baseline: Timestamp) -> ChangeWatcher {
        ChangeWatcher { baseline, signalled: false }
    }

    /// What this watcher answers to `reading`: `None` stands for a reading
    /// that failed.
    pub open spec fn answer(self, reading: Option<Timestamp>) -> WatchAction {
        if self.signalled {
            WatchAction::Done
        } else {
            match reading {
                None => WatchAction::Retry,
                Some(modified) => if modified@ > self.baseline@ {
                    WatchAction::Signal
                } else {
                    WatchAction::Poll
                },
            }
        }
    }

    /// This watcher after it answered `reading`.
    pub open spec fn after(self, reading: Option<Timestamp>) -> ChangeWatcher {
        ChangeWatcher {
            baseline: self.baseline,
            signalled: self.signalled || self.answer(reading) == WatchAction::Signal,
        }
    }

    /// How often this watcher signals over `readings`, taken in order.
    pub open spec fn signals(self, readings: Seq<Option<Timestamp>>) -> nat
        decreases readings.len(),
    {
        if readings.len() == 0 {
            0
        } else {
            let now: nat = if self.answer(readings[0]) == WatchAction::Signal {
                1
            } else {
                0
            };
            now + self.after(readings[0]).signals(readings.drop_first())
        }
    }

    /// Starts a watcher for a cycle that begins with the artifact at
    /// `baseline`.
    pub fn start(baseline: Timestamp) -> (watcher: ChangeWatcher)
        ensures
            watcher == ChangeWatcher::started(baseline),
    {
        ChangeWatcher { baseline, signalled: false }
    }

    /// Takes one reading of the artifact's modification time and says what
    /// to do next.
    ///
    /// A failed reading is retried and never reported. A reading strictly
    /// newer than the baseline makes the watcher signal, once; an equal or
    /// older one does not.
    pub fn observe(&mut self, reading: Option<Timestamp>) -> (action: WatchAction)
        ensures
            action == old(self).answer(reading),
            *final(self) == old(self).after(reading),
    {
        if self.signalled {
            return WatchAction::Done;
        }
        match reading {
            None => WatchAction::Retry,
            Some(modified) => {
                if modified.newer_than(&self.baseline) {
                    self.signalled = true;
                    WatchAction::Signal
                } else {
                    WatchAction::Poll
                }
            },
        }
    }
}

/// A watcher started at one time signals on the first reading of a later
/// time.
pub proof fn law_newer_artifact_signals(baseline: Timestamp, modified: Timestamp)
    requires
        modified@ > baseline@,
    ensures
        ChangeWatcher::started(baseline).answer(Some(modified)) == WatchAction::Signal,
{
}

/// A watcher does not signal on a reading equal to its baseline: rewriting
/// the artifact with the same time is no change.
pub proof fn law_same_time_is_silent(baseline: Timestamp)
    ensures
        ChangeWatcher::started(baseline).answer(Some(baseline)) == WatchAction::Poll,
        ChangeWatcher::started(baseline).after(Some(baseline)) == ChangeWatcher::started(
            baseline,
        ),
{
}

/// A failed reading leaves the watcher as it was and is answered with a
/// retry, as long as the watcher has not signalled.
pub proof fn law_failed_reading_is_retried(watcher: ChangeWatcher)
    requires
        !watcher.signalled,
    ensures
        watcher.answer(None) == WatchAction::Retry,
        watcher.after(None) == watcher,
{
}

/// Whatever is read and however often, a watcher signals at most once, and
/// one that has signalled never does again.
pub proof fn law_signals_at_most_once(watcher: ChangeWatcher, readings: Seq<Option<Timestamp>>)
    ensures
        watcher.signals(readings) <= 1,
        watcher.signalled ==> watcher.signals(readings) == 0,
    decreases readings.len(),
{
    if readings.len() > 0 {
        law_signals_at_most_once(watcher.after(readings[0]), readings.drop_first());
    }
}

} // verus!
