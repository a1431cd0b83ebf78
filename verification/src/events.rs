//! Lifecycle events and the classifier that extracts them from raw log
//! lines.
//!
//! Lines are handled as byte sequences; the four markers the classifier
//! looks for are ASCII, so a marker occurs in a decoded line exactly
//! when its bytes occur in the line's bytes. Per line, the first
//! matching marker wins, in this fixed priority order: the conflict
//! marker (fatal), then "device successfully mounted", then "prompt
//! resolved", then "device disconnected"; a line matching none of them
//! contributes nothing.

use vstd::prelude::*;

verus! {

use vstd::string::StringSliceAdditionalSpecFns;

/// A lifecycle event recognised in the server's log output.
#[derive(Clone, Copy, Debug, PartialEq, Eq, Structural)]
pub enum LifecycleEvent {
    /// The server established an interactive session with the device.
    PromptResolved,
    /// The mount completed: the device is fully registered.
    DeviceMounted,
    /// The device was disconnected (unmount took effect).
    DeviceDisconnected,
    /// The server reported a duplicate mount point: an unrecoverable
    /// inconsistency, distinct from the race being hunted.
    MountConflict,
    /// The line matched no marker.
    Unknown,
}

/// True when `needle` occurs contiguously somewhere in `hay`.
pub open spec fn contains_seq(hay: Seq<u8>, needle: Seq<u8>) -> bool {
    exists|i: int| 0 <= i && i + needle.len() <= hay.len() && #[trigger] hay.subrange(i, i + needle.len()) == needle
}

/// Byte-for-byte comparison of `needle` against `hay` at position `at`.
fn matches_at(hay: &[u8], needle: &[u8], at: usize) -> (r: bool)
    requires
        at + needle@.len() <= hay@.len(),
    ensures
        r == (hay@.subrange(at as int, at + needle@.len()) == needle@),
{
    let nlen: usize = needle.len();
    let hlen: usize = hay.len();
    let mut j: usize = 0;
    while j < nlen
        invariant
            0 <= j <= nlen,
            nlen == needle@.len(),
            hlen == hay@.len(),
            at + needle@.len() <= hay@.len(),
            forall|k: int| 0 <= k < j ==> hay@[at + k] == needle@[k],
        decreases nlen - j,
    {
        if hay[at + j] != needle[j] {
            assert(hay@.subrange(at as int, at + needle@.len())[j as int] != needle@[j as int]);
            return false;
        }
        j = j + 1;
    }
    assert(hay@.subrange(at as int, at + needle@.len()) =~= needle@);
    true
}

/// Naive substring search deciding `contains_seq`.
pub fn contains_bytes(hay: &[u8], needle: &[u8]) -> (r: bool)
    ensures
        r == contains_seq(hay@, needle@),
{
    if needle.len() == 0 {
        proof {
            assert(hay@.subrange(0, 0 + needle@.len() as int) =~= needle@);
        }
        return true;
    }
    if needle.len() > hay.len() {
        assert(!contains_seq(hay@, needle@));
        return false;
    }
    let bound: usize = hay.len() - needle.len();
    let mut i: usize = 0;
    while i <= bound
        invariant
            1 <= needle@.len() <= hay@.len(),
            bound == hay@.len() - needle@.len(),
            bound < usize::MAX,
            0 <= i <= bound + 1,
            forall|k: int| 0 <= k < i ==> #[trigger] hay@.subrange(k, k + needle@.len()) != needle@,
        decreases bound + 1 - i,
    {
        if matches_at(hay, needle, i) {
            return true;
        }
        i = i + 1;
    }
    false
}

/// Bytes of the fatal conflict marker: the server saw a duplicate mount
/// point.
pub open spec fn conflict_marker() -> Seq<u8> {
    "Mount point already exists".spec_bytes()
}

/// Bytes of the marker for a fully confirmed mount.
pub open spec fn mounted_marker() -> Seq<u8> {
    "Device successfully mounted".spec_bytes()
}

/// Bytes of the marker for an established interactive session.
pub open spec fn prompt_marker() -> Seq<u8> {
    "Prompt resolved".spec_bytes()
}

/// Bytes of the marker for a completed disconnect.
pub open spec fn disconnected_marker() -> Seq<u8> {
    "Device state updated successfully: onDeviceDisconnected".spec_bytes()
}

/// The event a single line stands for: the first marker it contains, in
/// priority order (conflict, mounted, prompt, disconnected), or
/// `Unknown` when it contains none.
pub open spec fn classify_line_spec(line: Seq<u8>) -> LifecycleEvent {
    if contains_seq(line, conflict_marker()) {
        LifecycleEvent::MountConflict
    } else if contains_seq(line, mounted_marker()) {
        LifecycleEvent::DeviceMounted
    } else if contains_seq(line, prompt_marker()) {
        LifecycleEvent::PromptResolved
    } else if contains_seq(line, disconnected_marker()) {
        LifecycleEvent::DeviceDisconnected
    } else {
        LifecycleEvent::Unknown
    }
}

/// Classifies one raw log line.
pub fn classify_line(line: &[u8]) -> (e: LifecycleEvent)
    ensures
        e == classify_line_spec(line@),
{
    if contains_bytes(line, "Mount point already exists".as_bytes()) {
        LifecycleEvent::MountConflict
    } else if contains_bytes(line, "Device successfully mounted".as_bytes()) {
        LifecycleEvent::DeviceMounted
    } else if contains_bytes(line, "Prompt resolved".as_bytes()) {
        LifecycleEvent::PromptResolved
    } else if contains_bytes(line, "Device state updated successfully: onDeviceDisconnected".as_bytes()) {
        LifecycleEvent::DeviceDisconnected
    } else {
        LifecycleEvent::Unknown
    }
}

} // verus!
