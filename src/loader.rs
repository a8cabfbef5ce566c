use vstd::prelude::*;

use crate::models::{
    construct_influx_measurements,
    point_views,
    points_of,
    ConsumptionOrTariff,
    PointView,
    StoragePoint,
};
use crate::window::DateWindow;

verus! {

/// A window whose data could not be had or stored, with the reason.
pub struct WindowFailure {
    pub window: DateWindow,
    pub message: String,
}

/// What the loader is waiting for.
#[derive(Clone, Copy, Debug, PartialEq, Eq, Structural)]
pub enum LoadPhase {
    /// The response for the current window.
    Fetching,
    /// The confirmation that the given number of points of the current window were stored.
    Writing(usize),
    /// Nothing: the run is over.
    Done,
}

/// What happened to the last action.
pub enum LoadEvent {
    /// The current window's response arrived and was read.
    Fetched(ConsumptionOrTariff),
    /// The current window's request failed.
    FetchFailed(String),
    /// The points of the current window were stored.
    Written,
    /// Storing the points of the current window failed.
    WriteFailed(String),
}

/// What the caller should do next.
pub enum LoadAction {
    /// Request the data of this window.
    Fetch(DateWindow),
    /// Store these points in one batch.
    Write(Vec<StoragePoint>),
    /// The run is over; read the outcome from the loader.
    Finish,
    /// The event did not answer the pending action; it was dropped.
    Ignore,
}

/// How a run stands, as its caller reports it.
#[derive(Clone, Copy, Debug, PartialEq, Eq, Structural)]
pub enum RunStatus {
    /// Windows are still due.
    InProgress,
    /// Every window was fetched and stored.
    Complete,
    /// The run ended, but some windows were skipped because of upstream failures.
    CompleteWithGaps,
    /// A write failed and the run stopped early.
    Aborted,
}

/// The decisions of one run: windows are fetched, normalized and written one after
/// the other, in order. A failed fetch is recorded and the run goes on; a failed
/// write ends the run.
pub struct Loader {
    pub windows: Vec<DateWindow>,
    /// Index of the window being processed.
    pub current: usize,
    pub phase: LoadPhase,
    /// Points stored so far (saturating at `u64::MAX`).
    pub points_written: u64,
    /// Windows skipped because of an upstream failure, in order.
    pub errors: Vec<WindowFailure>,
    /// The window whose write failed, which ended the run.
    pub aborted: Option<WindowFailure>,
}

/// The mathematical form of a failure: window and message.
pub open spec fn failure_view(f: WindowFailure) -> (DateWindow, Seq<char>) {
    (f.window, f.message@)
}

/// The mathematical forms of a list of failures.
pub open spec fn failures_view(s: Seq<WindowFailure>) -> Seq<(DateWindow, Seq<char>)> {
    s.map_values(|f: WindowFailure| failure_view(f))
}

/// The action that follows the end of window `next - 1`.
pub open spec fn follows(windows: Seq<DateWindow>, next: int, a: LoadAction) -> bool {
    if next < windows.len() {
        a == LoadAction::Fetch(windows[next])
    } else {
        a is Finish
    }
}

/// The phase that follows the end of window `next - 1`.
pub open spec fn phase_after(windows: Seq<DateWindow>, next: int) -> LoadPhase {
    if next < windows.len() {
        LoadPhase::Fetching
    } else {
        LoadPhase::Done
    }
}

/// `new` is `old` after the current window ended: the next one is due, or the run is over.
pub open spec fn advanced(old: Loader, new: Loader, a: LoadAction) -> bool {
    &&& new.windows == old.windows
    &&& new.current == old.current + 1
    &&& new.phase == phase_after(old.windows@, old.current + 1)
    &&& follows(old.windows@, old.current + 1, a)
    &&& new.aborted == old.aborted
}

/// The sum of `a` and `b`, capped at `u64::MAX`.
pub open spec fn saturating_sum(a: int, b: int) -> int {
    if a + b > u64::MAX {
        u64::MAX as int
    } else {
        a + b
    }
}

/// `e` answers the action that `l` is waiting on.
pub open spec fn answers(l: Loader, e: LoadEvent) -> bool {
    l.current < l.windows@.len() && match l.phase {
        LoadPhase::Fetching => e is Fetched || e is FetchFailed,
        LoadPhase::Writing(_) => e is Written || e is WriteFailed,
        LoadPhase::Done => false,
    }
}

/// The failures recorded for response `p` of window `w`: its message if it is an error.
pub open spec fn failures_from(w: DateWindow, p: ConsumptionOrTariff) -> Seq<(DateWindow, Seq<char>)> {
    match p {
        ConsumptionOrTariff::Error(e) => seq![(w, e.message@)],
        _ => Seq::empty(),
    }
}

/// The step from `old` to `new`, with action `a`, on response `p` for the current window:
/// the points of `p` are written in one batch if there are any, else the window ends.
pub open spec fn on_fetched(old: Loader, new: Loader, p: ConsumptionOrTariff, a: LoadAction) -> bool {
    let w = old.windows@[old.current as int];
    let pts = points_of(p);
    &&& failures_view(new.errors@) == failures_view(old.errors@) + failures_from(w, p)
    &&& new.points_written == old.points_written
    &&& if pts.len() > 0 {
        &&& new.windows == old.windows
        &&& new.current == old.current
        &&& new.aborted == old.aborted
        &&& new.phase == LoadPhase::Writing(pts.len() as usize)
        &&& a matches LoadAction::Write(ps) && point_views(ps@) == pts
    } else {
        advanced(old, new, a)
    }
}

/// The step from `old` to `new`, with action `a`, on a failed request for the current
/// window: the failure is recorded and the window ends.
pub open spec fn on_fetch_failed(old: Loader, new: Loader, m: Seq<char>, a: LoadAction) -> bool {
    &&& failures_view(new.errors@) == failures_view(old.errors@).push(
        (old.windows@[old.current as int], m),
    )
    &&& new.points_written == old.points_written
    &&& advanced(old, new, a)
}

/// The step from `old` to `new`, with action `a`, once `n` points were stored: they are
/// counted and the window ends.
pub open spec fn on_written(old: Loader, new: Loader, n: usize, a: LoadAction) -> bool {
    &&& new.errors == old.errors
    &&& new.points_written == saturating_sum(old.points_written as int, n as int)
    &&& advanced(old, new, a)
}

/// The step from `old` to `new`, with action `a`, on a failed write: the run ends,
/// naming the window and the reason.
pub open spec fn on_write_failed(old: Loader, new: Loader, m: Seq<char>, a: LoadAction) -> bool {
    &&& new.windows == old.windows
    &&& new.current == old.current
    &&& new.errors == old.errors
    &&& new.points_written == old.points_written
    &&& new.phase == LoadPhase::Done
    &&& new.aborted matches Some(f) && failure_view(f) == (old.windows@[old.current as int], m)
    &&& a is Finish
}

impl Loader {
    /// A loader for `windows`, and its first action.
    pub fn new(windows: Vec<DateWindow>) -> (r: (Loader, LoadAction))
        ensures
            r.0.windows == windows,
            r.0.current == 0,
            r.0.points_written == 0,
            r.0.errors@.len() == 0,
            r.0.aborted is None,
            r.0.phase == phase_after(windows@, 0),
            follows(windows@, 0, r.1),
    {
        let a = if windows.len() > 0 {
            LoadAction::Fetch(windows[0])
        } else {
            LoadAction::Finish
        };
        let phase = if windows.len() > 0 {
            LoadPhase::Fetching
        } else {
            LoadPhase::Done
        };
        (
            Loader {
                windows,
                current: 0,
                phase,
                points_written: 0,
                errors: Vec::new(),
                aborted: None,
            },
            a,
        )
    }

    /// How the run stands: aborted, still going, or over with or without skipped windows.
    pub fn status(&self) -> (r: RunStatus)
        ensures
            self.aborted is Some ==> r == RunStatus::Aborted,
            self.aborted is None && self.phase != LoadPhase::Done ==> r == RunStatus::InProgress,
            self.aborted is None && self.phase == LoadPhase::Done && self.errors@.len() == 0 ==> r
                == RunStatus::Complete,
            self.aborted is None && self.phase == LoadPhase::Done && self.errors@.len() > 0 ==> r
                == RunStatus::CompleteWithGaps,
    {
        if self.aborted.is_some() {
            RunStatus::Aborted
        } else if self.phase != LoadPhase::Done {
            RunStatus::InProgress
        } else if self.errors.len() == 0 {
            RunStatus::Complete
        } else {
            RunStatus::CompleteWithGaps
        }
    }

    /// Windows whose processing has ended: fetched and, where there were points, stored.
    pub fn windows_processed(&self) -> (r: usize)
        ensures
            r == self.current,
    {
        self.current
    }

    /// Takes the outcome of the pending action and decides the next one.
    pub fn step(&mut self, event: LoadEvent) -> (a: LoadAction)
        ensures
            !answers(*old(self), event) ==> a is Ignore && *final(self) == *old(self),
            answers(*old(self), event) ==> match event {
                LoadEvent::Fetched(p) => on_fetched(*old(self), *final(self), p, a),
                LoadEvent::FetchFailed(m) => on_fetch_failed(*old(self), *final(self), m@, a),
                LoadEvent::Written => on_written(
                    *old(self),
                    *final(self),
                    old(self).phase->Writing_0,
                    a,
                ),
                LoadEvent::WriteFailed(m) => on_write_failed(*old(self), *final(self), m@, a),
            },
    {
        let n = self.windows.len();
        if self.current >= n {
            return LoadAction::Ignore;
        }
        let w = self.windows[self.current];
        match (self.phase, event) {
            (LoadPhase::Fetching, LoadEvent::Fetched(p)) => {
                let ghost old_errors = failures_view(self.errors@);
                if let ConsumptionOrTariff::Error(e) = &p {
                    self.errors.push(WindowFailure { window: w, message: e.message.clone() });
                }
                proof {
                    assert(failures_view(self.errors@) =~= old_errors + failures_from(w, p));
                }
                let points = construct_influx_measurements(&p);
                if points.len() > 0 {
                    self.phase = LoadPhase::Writing(points.len());
                    LoadAction::Write(points)
                } else {
                    self.advance()
                }
            },
            (LoadPhase::Fetching, LoadEvent::FetchFailed(m)) => {
                let ghost old_errors = failures_view(self.errors@);
                self.errors.push(WindowFailure { window: w, message: m });
                proof {
                    assert(failures_view(self.errors@) =~= old_errors.push((w, m@)));
                }
                self.advance()
            },
            (LoadPhase::Writing(k), LoadEvent::Written) => {
                self.points_written = self.points_written.saturating_add(k as u64);
                self.advance()
            },
            (LoadPhase::Writing(_), LoadEvent::WriteFailed(m)) => {
                self.aborted = Some(WindowFailure { window: w, message: m });
                self.phase = LoadPhase::Done;
                LoadAction::Finish
            },
            _ => LoadAction::Ignore,
        }
    }

    /// Ends the current window and returns the next action.
    fn advance(&mut self) -> (a: LoadAction)
        requires
            old(self).current < old(self).windows@.len(),
        ensures
            advanced(*old(self), *final(self), a),
            final(self).points_written == old(self).points_written,
            final(self).errors == old(self).errors,
    {
        let n = self.windows.len();
        self.current = self.current + 1;
        if self.current < self.windows.len() {
            self.phase = LoadPhase::Fetching;
            LoadAction::Fetch(self.windows[self.current])
        } else {
            self.phase = LoadPhase::Done;
            LoadAction::Finish
        }
    }
}

} // verus!
