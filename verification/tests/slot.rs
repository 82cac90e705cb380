use audio_fetch::binaries::{ffmpeg_path, yt_dlp_path, Lookup, ToolResolver};
use audio_fetch::error::{AcquisitionError, ErrorKind};
use audio_fetch::slot::{Decision, Slot};

fn network_error(text: &str) -> AcquisitionError {
    AcquisitionError::new(ErrorKind::Network, text.to_string())
}

#[test]
fn fresh_slot_has_no_value_and_no_attempt() {
    let slot: Slot<String> = Slot::new();
    assert_eq!(slot.value(), None);
    assert_eq!(slot.failure(), None);
    assert!(!slot.is_resolving());
    assert_eq!(slot.attempts(), 0);
}

#[test]
fn first_request_acquires_and_later_ones_wait() {
    let mut slot: Slot<String> = Slot::new();
    assert_eq!(slot.request(), Decision::Acquire);
    for _ in 0..16 {
        assert_eq!(slot.request(), Decision::Wait);
        assert!(slot.is_resolving());
    }
    assert_eq!(slot.attempts(), 1);
}

#[test]
fn every_caller_of_one_attempt_reads_the_same_value() {
    let mut slot: Slot<String> = Slot::new();
    assert_eq!(slot.request(), Decision::Acquire);
    assert_eq!(slot.request(), Decision::Wait);
    assert_eq!(slot.request(), Decision::Wait);
    assert!(slot.complete(Ok("/opt/app/yt-dlp".to_string())));
    for _ in 0..3 {
        assert_eq!(slot.request(), Decision::Ready);
        assert_eq!(slot.value().map(|v| v.as_str()), Some("/opt/app/yt-dlp"));
    }
    assert_eq!(slot.attempts(), 1);
}

#[test]
fn failure_is_held_for_the_waiters_and_the_next_request_retries() {
    let mut slot: Slot<String> = Slot::new();
    assert_eq!(slot.request(), Decision::Acquire);
    assert_eq!(slot.request(), Decision::Wait);
    assert!(slot.complete(Err(network_error("connection reset"))));
    assert_eq!(slot.value(), None);
    assert_eq!(slot.failure().map(|e| e.describe()), Some("connection reset".to_string()));
    assert_eq!(slot.failure().map(|e| e.kind()), Some(ErrorKind::Network));
    assert_eq!(slot.request(), Decision::Acquire);
    assert_eq!(slot.failure(), None);
    assert_eq!(slot.attempts(), 2);
    assert!(slot.complete(Ok("/opt/app/yt-dlp".to_string())));
    assert_eq!(slot.request(), Decision::Ready);
    assert_eq!(slot.attempts(), 2);
}

#[test]
fn report_without_an_attempt_changes_nothing() {
    let mut slot: Slot<String> = Slot::new();
    assert!(!slot.complete(Ok("stray".to_string())));
    assert_eq!(slot.value(), None);
    assert_eq!(slot.request(), Decision::Acquire);
    assert!(slot.complete(Ok("first".to_string())));
    assert!(!slot.complete(Ok("second".to_string())));
    assert!(!slot.complete(Err(network_error("late"))));
    assert_eq!(slot.value().map(|v| v.as_str()), Some("first"));
}

#[test]
fn absence_is_a_value_that_is_kept() {
    let mut slot: Slot<Option<String>> = Slot::new();
    assert_eq!(slot.request(), Decision::Acquire);
    assert!(slot.complete(Ok(None)));
    assert_eq!(slot.request(), Decision::Ready);
    assert_eq!(slot.value(), Some(&None));
    assert_eq!(slot.attempts(), 1);
}

#[test]
fn resolver_hands_out_the_memoized_extractor() {
    let mut resolver = ToolResolver::new();
    assert_eq!(yt_dlp_path(&mut resolver), Lookup::Acquire);
    assert_eq!(yt_dlp_path(&mut resolver), Lookup::Wait);
    assert!(resolver.finish_yt_dlp(Ok("/opt/app/yt-dlp".to_string())));
    assert_eq!(yt_dlp_path(&mut resolver), Lookup::Ready("/opt/app/yt-dlp".to_string()));
    assert_eq!(yt_dlp_path(&mut resolver), Lookup::Ready("/opt/app/yt-dlp".to_string()));
    assert_eq!(resolver.yt_dlp_attempts(), 1);
}

#[test]
fn resolver_memoizes_an_unavailable_transcoder() {
    let mut resolver = ToolResolver::new();
    assert_eq!(ffmpeg_path(&mut resolver), Lookup::Acquire);
    assert!(resolver.finish_ffmpeg(Ok(None)));
    assert_eq!(ffmpeg_path(&mut resolver), Lookup::Ready(None));
    assert_eq!(ffmpeg_path(&mut resolver), Lookup::Ready(None));
    assert_eq!(resolver.ffmpeg_attempts(), 1);
}

#[test]
fn resolver_hands_out_the_memoized_transcoder() {
    let mut resolver = ToolResolver::new();
    assert_eq!(ffmpeg_path(&mut resolver), Lookup::Acquire);
    assert!(resolver.finish_ffmpeg(Ok(Some("/opt/app/ffmpeg".to_string()))));
    assert_eq!(ffmpeg_path(&mut resolver), Lookup::Ready(Some("/opt/app/ffmpeg".to_string())));
}

#[test]
fn the_two_tools_do_not_touch_each_other() {
    let mut resolver = ToolResolver::new();
    assert_eq!(ffmpeg_path(&mut resolver), Lookup::Acquire);
    assert_eq!(resolver.yt_dlp_attempts(), 0);
    assert_eq!(yt_dlp_path(&mut resolver), Lookup::Acquire);
    assert!(resolver.finish_ffmpeg(Err(network_error("no route"))));
    assert_eq!(resolver.yt_dlp_failure(), None);
    assert_eq!(yt_dlp_path(&mut resolver), Lookup::Wait);
    assert!(resolver.finish_yt_dlp(Ok("/opt/app/yt-dlp".to_string())));
    assert_eq!(resolver.ffmpeg_failure().map(|e| e.kind()), Some(ErrorKind::Network));
    assert_eq!(ffmpeg_path(&mut resolver), Lookup::Acquire);
    assert_eq!(resolver.ffmpeg_attempts(), 2);
    assert_eq!(resolver.yt_dlp_attempts(), 1);
    assert!(!resolver.finish_yt_dlp(Ok("other".to_string())));
    assert_eq!(yt_dlp_path(&mut resolver), Lookup::Ready("/opt/app/yt-dlp".to_string()));
}

#[test]
fn error_carries_kind_and_cause() {
    let error = AcquisitionError::with_prefix(ErrorKind::Archive, "zip error: ", "bad magic");
    assert_eq!(error.kind(), ErrorKind::Archive);
    assert_eq!(error.describe(), "zip error: bad magic");
    let copy = error.duplicate();
    assert_eq!(copy, error);
    let plain = AcquisitionError::new(ErrorKind::Install, "disk full".to_string());
    assert_eq!(plain.kind(), ErrorKind::Install);
    assert_eq!(plain.describe(), "disk full");
}
