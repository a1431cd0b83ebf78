//! The observation window: the set of distinct lifecycle events seen in
//! one batch of freshly read log lines.
//!
//! A window is created per read and never accumulated across reads, so
//! stale events cannot leak forward. A batch containing the conflict
//! marker anywhere yields the fatal outcome instead of a window,
//! whatever else the batch contains.

use vstd::prelude::*;

use crate::events::{classify_line, classify_line_spec, contains_seq, conflict_marker, LifecycleEvent};

verus! {

/// The two unrecoverable conditions: the server reported a duplicate
/// mount point, or a transport-level call could not be completed.
#[derive(Clone, Copy, Debug, PartialEq, Eq, Structural)]
pub enum FatalKind {
    /// The conflict marker was observed in the log.
    Conflict,
    /// A mount or unmount request could not be delivered.
    Transport,
}

/// The set of distinct lifecycle events observed in one batch of lines.
/// Insertion order is irrelevant and duplicates collapse, so the set is
/// carried as one flag per observable event.
#[derive(Clone, Copy, Debug, PartialEq, Eq, Structural)]
pub struct ObservationWindow {
    /// Some line signalled `PromptResolved`.
    pub prompt_resolved: bool,
    /// Some line signalled `DeviceMounted`.
    pub device_mounted: bool,
    /// Some line signalled `DeviceDisconnected`.
    pub device_disconnected: bool,
}

/// The window a batch of lines denotes: one flag per event, true when
/// some line of the batch classifies to that event.
pub open spec fn window_of(lines: Seq<Seq<u8>>) -> ObservationWindow {
    ObservationWindow {
        prompt_resolved: exists|k: int|
            0 <= k < lines.len() && #[trigger] classify_line_spec(lines[k])
                == LifecycleEvent::PromptResolved,
        device_mounted: exists|k: int|
            0 <= k < lines.len() && #[trigger] classify_line_spec(lines[k])
                == LifecycleEvent::DeviceMounted,
        device_disconnected: exists|k: int|
            0 <= k < lines.len() && #[trigger] classify_line_spec(lines[k])
                == LifecycleEvent::DeviceDisconnected,
    }
}

/// True when some line of the batch carries the conflict marker.
pub open spec fn has_conflict(lines: Seq<Seq<u8>>) -> bool {
    exists|k: int|
        0 <= k < lines.len() && #[trigger] classify_line_spec(lines[k])
            == LifecycleEvent::MountConflict
}

/// The views of a batch of owned lines.
pub open spec fn line_views(lines: Seq<Vec<u8>>) -> Seq<Seq<u8>> {
    lines.map_values(|l: Vec<u8>| l@)
}

impl ObservationWindow {
    /// The window with no events: "no signal yet".
    pub open spec fn empty_spec() -> ObservationWindow {
        ObservationWindow { prompt_resolved: false, device_mounted: false, device_disconnected: false }
    }

    /// Builds the empty window.
    pub fn empty() -> (w: ObservationWindow)
        ensures
            w == ObservationWindow::empty_spec(),
    {
        ObservationWindow { prompt_resolved: false, device_mounted: false, device_disconnected: false }
    }

    /// True when the window holds the given event. `MountConflict` never
    /// reaches a window (it is fatal instead) and `Unknown` is never
    /// recorded, so for those the answer is false.
    pub open spec fn contains_spec(self, e: LifecycleEvent) -> bool {
        match e {
            LifecycleEvent::PromptResolved => self.prompt_resolved,
            LifecycleEvent::DeviceMounted => self.device_mounted,
            LifecycleEvent::DeviceDisconnected => self.device_disconnected,
            LifecycleEvent::MountConflict => false,
            LifecycleEvent::Unknown => false,
        }
    }

    /// Membership test for one event.
    pub fn contains(&self, e: LifecycleEvent) -> (r: bool)
        ensures
            r == self.contains_spec(e),
    {
        match e {
            LifecycleEvent::PromptResolved => self.prompt_resolved,
            LifecycleEvent::DeviceMounted => self.device_mounted,
            LifecycleEvent::DeviceDisconnected => self.device_disconnected,
            LifecycleEvent::MountConflict => false,
            LifecycleEvent::Unknown => false,
        }
    }

    /// True when the window holds no event at all: the caller treats
    /// this as "no signal yet".
    pub fn is_empty(&self) -> (r: bool)
        ensures
            r == (*self == ObservationWindow::empty_spec()),
    {
        !self.prompt_resolved && !self.device_mounted && !self.device_disconnected
    }
}

/// Classifies a batch of lines into an observation window, or reports
/// the fatal conflict. The result is `Err(FatalKind::Conflict)` exactly
/// when some line carries the conflict marker; otherwise it is the
/// window of the batch.
pub fn classify(lines: &Vec<Vec<u8>>) -> (r: Result<ObservationWindow, FatalKind>)
    ensures
        r is Err <==> has_conflict(line_views(lines@)),
        r is Err ==> r == Result::<ObservationWindow, FatalKind>::Err(FatalKind::Conflict),
        r is Ok ==> r == Result::<ObservationWindow, FatalKind>::Ok(window_of(line_views(lines@))),
{
    let ghost lv = line_views(lines@);
    let mut w = ObservationWindow::empty();
    let n: usize = lines.len();
    let mut i: usize = 0;
    while i < n
        invariant
            n == lines@.len(),
            0 <= i <= n,
            lv == line_views(lines@),
            lv.len() == n,
            forall|k: int| 0 <= k < lv.len() ==> lv[k] == lines@[k]@,
            forall|k: int| 0 <= k < i ==> #[trigger] classify_line_spec(lv[k]) != LifecycleEvent::MountConflict,
            w.prompt_resolved == exists|k: int|
                0 <= k < i && #[trigger] classify_line_spec(lv[k]) == LifecycleEvent::PromptResolved,
            w.device_mounted == exists|k: int|
                0 <= k < i && #[trigger] classify_line_spec(lv[k]) == LifecycleEvent::DeviceMounted,
            w.device_disconnected == exists|k: int|
                0 <= k < i && #[trigger] classify_line_spec(lv[k]) == LifecycleEvent::DeviceDisconnected,
        decreases n - i,
    {
        let e = classify_line(lines[i].as_slice());
        proof {
            assert(lv[i as int] == lines@[i as int]@);
            assert(e == classify_line_spec(lv[i as int]));
        }
        match e {
            LifecycleEvent::MountConflict => {
                return Err(FatalKind::Conflict);
            },
            LifecycleEvent::DeviceMounted => {
                w.device_mounted = true;
            },
            LifecycleEvent::PromptResolved => {
                w.prompt_resolved = true;
            },
            LifecycleEvent::DeviceDisconnected => {
                w.device_disconnected = true;
            },
            LifecycleEvent::Unknown => {},
        }
        i = i + 1;
    }
    Ok(w)
}

/// The classifier's priority is total: a line carrying the conflict
/// marker classifies to `MountConflict` whatever other markers it also
/// carries, and one such line anywhere in a batch makes the whole
/// batch's outcome fatal — never `DeviceMounted`, even if another line
/// (or the same line) carries the mounted marker.
pub proof fn lemma_conflict_dominates(lines: Seq<Seq<u8>>, i: int)
    requires
        0 <= i < lines.len(),
        contains_seq(lines[i], conflict_marker()),
    ensures
        classify_line_spec(lines[i]) == LifecycleEvent::MountConflict,
        has_conflict(lines),
{
}

} // verus!
