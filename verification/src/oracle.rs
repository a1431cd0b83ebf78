//! The observation oracle: a log cursor combined with the classifier.
//!
//! One call answers "which lifecycle events have appeared since the
//! last check". The caller hands in the stream's entire current
//! contents; the oracle reads the freshly appended lines through its
//! cursor and classifies them into an observation window, or reports
//! the fatal conflict. Waiting for a particular event is a loop of such
//! calls paced by a clock, which only the surrounding application has.

use vstd::prelude::*;

use crate::cursor::{fresh_lines, raw_split, split_lines, LogCursor};
use crate::window::{classify, has_conflict, window_of, FatalKind, ObservationWindow};

verus! {

/// The sole reader of the log stream: a cursor plus the classifier.
pub struct ObservationOracle {
    /// Read position into the stream; owned exclusively by the oracle.
    pub cursor: LogCursor,
}

impl ObservationOracle {
    /// An oracle whose cursor stands at the start of the stream.
    pub fn new() -> (o: ObservationOracle)
        ensures
            o.cursor.offset == 0,
    {
        ObservationOracle { cursor: LogCursor::new() }
    }

    /// One observation pass over the stream, whose entire current
    /// contents are `content`. The first component reports a detected
    /// rotation (for the caller to log). The second is the fatal
    /// conflict exactly when a freshly read line carries the conflict
    /// marker, and otherwise the window of events the fresh lines
    /// denote — never accumulated across calls, so stale events do not
    /// leak forward.
    pub fn observe(&mut self, content: &Vec<u8>) -> (r: (
        bool,
        Result<ObservationWindow, FatalKind>,
    ))
        ensures
            final(self).cursor.offset == content@.len(),
            r.0 == (content@.len() < old(self).cursor.offset),
            r.1 is Err <==> has_conflict(
                fresh_lines(old(self).cursor.offset as nat, content@),
            ),
            r.1 is Err ==> r.1 == Result::<ObservationWindow, FatalKind>::Err(FatalKind::Conflict),
            r.1 is Ok ==> r.1 == Result::<ObservationWindow, FatalKind>::Ok(
                window_of(fresh_lines(old(self).cursor.offset as nat, content@)),
            ),
    {
        let (lines, rotated) = self.cursor.read_new(content);
        let res = classify(&lines);
        (rotated, res)
    }
}

/// No duplication: after a read, the cursor's offset equals the
/// stream's length, and a further read with no appends in between
/// yields no lines and an empty window — no line or event is ever
/// observed twice.
pub proof fn lemma_no_duplication(content: Seq<u8>)
    ensures
        fresh_lines(content.len(), content) =~= Seq::<Seq<u8>>::empty(),
        window_of(fresh_lines(content.len(), content)) == ObservationWindow::empty_spec(),
{
    reveal(Seq::filter);
    assert(content.skip(content.len() as int) =~= Seq::<u8>::empty());
    assert(raw_split(Seq::<u8>::empty()) == seq![Seq::<u8>::empty()]);
    assert(raw_split(Seq::<u8>::empty()).drop_last() =~= Seq::<Seq<u8>>::empty());
    assert(split_lines(Seq::<u8>::empty()) =~= Seq::<Seq<u8>>::empty());
}

} // verus!
