use race_probe::oracle::ObservationOracle;
use race_probe::window::{FatalKind, ObservationWindow};

#[test]
fn observe_reports_fresh_events() {
    let mut o = ObservationOracle::new();
    let content = b"boot chatter\nPrompt resolved\n".to_vec();
    let (rotated, r) = o.observe(&content);
    assert!(!rotated);
    let w = r.unwrap();
    assert_eq!(
        w,
        ObservationWindow { prompt_resolved: true, device_mounted: false, device_disconnected: false }
    );
}

#[test]
fn observe_twice_without_appends_is_empty() {
    // No duplication: stale events never leak into a later window.
    let mut o = ObservationOracle::new();
    let content = b"Prompt resolved\nDevice successfully mounted\n".to_vec();
    let first = o.observe(&content).1.unwrap();
    assert!(first.prompt_resolved && first.device_mounted);
    let second = o.observe(&content).1.unwrap();
    assert!(second.is_empty());
}

#[test]
fn observe_after_rotation_rereads_the_stream() {
    let mut o = ObservationOracle::new();
    let (_, _) = o.observe(
        &b"a very long stretch of old output, line after line of it, paragraph after paragraph\n"
            .to_vec(),
    );
    let fresh = b"Device state updated successfully: onDeviceDisconnected\n".to_vec();
    let (rotated, r) = o.observe(&fresh);
    assert!(rotated);
    assert!(r.unwrap().device_disconnected);
}

#[test]
fn conflict_line_is_fatal() {
    let mut o = ObservationOracle::new();
    let content = b"Unable to expose mountpoint: java.lang.IllegalStateException: Mount point already exists\n".to_vec();
    let (_, r) = o.observe(&content);
    assert_eq!(r, Err(FatalKind::Conflict));
}

#[test]
fn undecodable_conflict_line_is_skipped_not_classified() {
    // A line that does not decode as UTF-8 is dropped before
    // classification, even if its bytes contain a marker.
    let mut o = ObservationOracle::new();
    let mut content = vec![0xffu8, 0xfe];
    content.extend_from_slice(b"Mount point already exists\n");
    let (_, r) = o.observe(&content);
    assert!(r.unwrap().is_empty());
}
