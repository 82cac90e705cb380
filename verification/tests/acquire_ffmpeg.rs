use audio_fetch::archive::{unpack_tool, Archive};
use audio_fetch::binaries::{
    after_unpack, ensure_ffmpeg, start_ffmpeg, FfmpegState, FFMPEG_NAME, FFMPEG_ZIP_URL,
};
use audio_fetch::error::{AcquisitionError, ErrorKind};
use audio_fetch::protocol::{Action, Event};
use std::io::{Cursor, Write};
use zip::write::SimpleFileOptions;
use zip::{CompressionMethod, ZipWriter};

const SPOT: &str = "/opt/app/ffmpeg";
const SPOT_STAGING: &str = "/opt/app/ffmpeg.part";

fn stored_archive(entries: &[(&str, &[u8])]) -> Vec<u8> {
    let mut writer = ZipWriter::new(Cursor::new(Vec::new()));
    let options = SimpleFileOptions::default().compression_method(CompressionMethod::Stored);
    for (name, body) in entries {
        writer.start_file(*name, options).unwrap();
        writer.write_all(body).unwrap();
    }
    writer.finish().unwrap().into_inner()
}

fn position_of(haystack: &[u8], needle: &[u8]) -> usize {
    haystack.windows(needle.len()).position(|w| w == needle).unwrap()
}

fn cause(text: &str) -> Event {
    Event::Failed { cause: text.to_string() }
}

fn problem(kind: ErrorKind, text: &str) -> AcquisitionError {
    AcquisitionError::new(kind, text.to_string())
}

fn awaiting_body() -> FfmpegState {
    FfmpegState::Fetching { path: SPOT.to_string() }
}

#[test]
fn transcoder_constants() {
    assert_eq!(FFMPEG_NAME, "ffmpeg");
    assert_eq!(FFMPEG_ZIP_URL, "https://evermeet.cx/ffmpeg/ffmpeg-118896-g9f0970ee35.zip");
}

#[test]
fn transcoder_acquisition_begins_by_locating() {
    assert_eq!(
        start_ffmpeg(),
        (FfmpegState::Locating, Action::Locate { file_name: "ffmpeg".to_string() })
    );
}

#[test]
fn installed_transcoder_is_taken_without_any_fetch() {
    let (state, _) = start_ffmpeg();
    let found = Event::Located { path: SPOT.to_string(), exists: true };
    let (state, action) = ensure_ffmpeg(state, found, true);
    assert_eq!(state, FfmpegState::Finished(Ok(Some(SPOT.to_string()))));
    assert_eq!(action, Action::Stop);
    let (state, action) = ensure_ffmpeg(state, Event::Body { bytes: Vec::new() }, true);
    assert_eq!(state, FfmpegState::Finished(Ok(Some(SPOT.to_string()))));
    assert_eq!(action, Action::Stop);
}

#[test]
fn missing_transcoder_has_its_archive_fetched() {
    let missing = Event::Located { path: SPOT.to_string(), exists: false };
    let (state, action) = ensure_ffmpeg(FfmpegState::Locating, missing, true);
    assert_eq!(state, awaiting_body());
    assert_eq!(action, Action::Fetch { url: FFMPEG_ZIP_URL.to_string() });
}

#[test]
fn transcoder_is_taken_from_the_first_entry_named_for_it() {
    let bytes = stored_archive(&[
        ("docs/readme", b"read me"),
        ("bin/sub/ffmpeg", b"the transcoder"),
        ("ffmpeg.1", b"manual page"),
    ]);
    let (state, action) = ensure_ffmpeg(awaiting_body(), Event::Body { bytes }, true);
    assert_eq!(state, FfmpegState::Writing { path: SPOT.to_string() });
    assert_eq!(
        action,
        Action::Write { to: SPOT_STAGING.to_string(), data: b"the transcoder".to_vec() }
    );
    let (state, action) = ensure_ffmpeg(state, Event::Completed, true);
    assert_eq!(state, FfmpegState::Installing { path: SPOT.to_string() });
    assert_eq!(action, Action::Rename { from: SPOT_STAGING.to_string(), to: SPOT.to_string() });
    let (state, action) = ensure_ffmpeg(state, Event::Completed, true);
    assert_eq!(state, FfmpegState::Granting { path: SPOT.to_string() });
    assert_eq!(action, Action::GrantExec { path: SPOT.to_string() });
    let (state, action) = ensure_ffmpeg(state, Event::Completed, true);
    assert_eq!(state, FfmpegState::Finished(Ok(Some(SPOT.to_string()))));
    assert_eq!(action, Action::Stop);
}

#[test]
fn transcoder_needs_no_grant_where_there_is_no_execute_permission() {
    let installing = FfmpegState::Installing { path: SPOT.to_string() };
    let (state, action) = ensure_ffmpeg(installing, Event::Completed, false);
    assert_eq!(state, FfmpegState::Finished(Ok(Some(SPOT.to_string()))));
    assert_eq!(action, Action::Stop);
}

#[test]
fn archive_without_transcoder_ends_with_unavailable() {
    let bytes = stored_archive(&[("docs/readme", b"read me"), ("ffmpeg.1", b"manual page")]);
    let (state, action) = ensure_ffmpeg(awaiting_body(), Event::Body { bytes }, true);
    assert_eq!(state, FfmpegState::Finished(Ok(None)));
    assert_eq!(action, Action::Stop);
}

#[test]
fn body_that_is_no_archive_is_an_archive_error() {
    let bytes = b"<html>503 Service Unavailable</html>".to_vec();
    let (state, action) = ensure_ffmpeg(awaiting_body(), Event::Body { bytes }, true);
    assert_eq!(action, Action::Stop);
    match state {
        FfmpegState::Finished(Err(error)) => {
            assert_eq!(error.kind(), ErrorKind::Archive);
            assert!(error.describe().starts_with("zip error: "));
        }
        other => panic!("unexpected state {:?}", other),
    }
}

#[test]
fn failed_request_is_a_network_error() {
    let (state, action) = ensure_ffmpeg(awaiting_body(), cause("dns failure"), true);
    assert_eq!(
        state,
        FfmpegState::Finished(Err(problem(ErrorKind::Network, "download error: dns failure")))
    );
    assert_eq!(action, Action::Stop);
}

#[test]
fn broken_transfer_is_a_network_error() {
    let broken = Event::Interrupted { cause: "connection closed".to_string() };
    let (state, action) = ensure_ffmpeg(awaiting_body(), broken, true);
    assert_eq!(
        state,
        FfmpegState::Finished(Err(problem(
            ErrorKind::Network,
            "read body error: connection closed"
        )))
    );
    assert_eq!(action, Action::Stop);
}

#[test]
fn transcoder_directory_errors() {
    let (state, _) = ensure_ffmpeg(FfmpegState::Locating, cause("permission denied"), true);
    assert_eq!(
        state,
        FfmpegState::Finished(Err(problem(ErrorKind::DirectoryResolution, "permission denied")))
    );
    let (state, _) = ensure_ffmpeg(FfmpegState::Locating, Event::NoDirectory, true);
    assert_eq!(
        state,
        FfmpegState::Finished(Err(problem(ErrorKind::DirectoryResolution, "no exe dir")))
    );
}

#[test]
fn failed_write_is_an_install_error_and_the_staging_file_goes() {
    let writing = FfmpegState::Writing { path: SPOT.to_string() };
    let (state, action) = ensure_ffmpeg(writing, cause("disk full"), true);
    assert_eq!(state, FfmpegState::Discarding { error: problem(ErrorKind::Install, "disk full") });
    assert_eq!(action, Action::Remove { path: SPOT_STAGING.to_string() });
    let (state, action) = ensure_ffmpeg(state, Event::Completed, true);
    assert_eq!(state, FfmpegState::Finished(Err(problem(ErrorKind::Install, "disk full"))));
    assert_eq!(action, Action::Stop);
}

#[test]
fn failed_transcoder_rename_is_an_install_error() {
    let installing = FfmpegState::Installing { path: SPOT.to_string() };
    let (state, action) = ensure_ffmpeg(installing, cause("busy"), true);
    assert_eq!(state, FfmpegState::Discarding { error: problem(ErrorKind::Install, "busy") });
    assert_eq!(action, Action::Remove { path: SPOT_STAGING.to_string() });
}

#[test]
fn failed_transcoder_grant_is_a_permission_error() {
    let granting = FfmpegState::Granting { path: SPOT.to_string() };
    let (state, action) = ensure_ffmpeg(granting, cause("operation not permitted"), true);
    assert_eq!(
        state,
        FfmpegState::Finished(Err(problem(
            ErrorKind::PermissionGrant,
            "operation not permitted"
        )))
    );
    assert_eq!(action, Action::Stop);
}

#[test]
fn transcoder_ignores_an_event_that_it_does_not_await() {
    let (state, action) = ensure_ffmpeg(FfmpegState::Locating, Event::Completed, true);
    assert_eq!((state, action), (FfmpegState::Locating, Action::Idle));
    let (state, action) = ensure_ffmpeg(awaiting_body(), Event::Exited { success: true }, true);
    assert_eq!((state, action), (awaiting_body(), Action::Idle));
    let writing = FfmpegState::Writing { path: SPOT.to_string() };
    let (state, action) = ensure_ffmpeg(writing, Event::NoDirectory, true);
    assert_eq!(state, FfmpegState::Writing { path: SPOT.to_string() });
    assert_eq!(action, Action::Idle);
}

#[test]
fn after_unpack_maps_each_outcome() {
    let (state, action) = after_unpack(SPOT.to_string(), Ok(Some(vec![7, 8, 9])));
    assert_eq!(state, FfmpegState::Writing { path: SPOT.to_string() });
    assert_eq!(action, Action::Write { to: SPOT_STAGING.to_string(), data: vec![7, 8, 9] });
    let (state, action) = after_unpack(SPOT.to_string(), Ok(None));
    assert_eq!((state, action), (FfmpegState::Finished(Ok(None)), Action::Stop));
    let (state, action) =
        after_unpack(SPOT.to_string(), Err(problem(ErrorKind::Archive, "zip error: x")));
    assert_eq!(state, FfmpegState::Finished(Err(problem(ErrorKind::Archive, "zip error: x"))));
    assert_eq!(action, Action::Stop);
}

#[test]
fn entry_that_cannot_be_opened_before_the_match_is_an_error() {
    let mut bytes = stored_archive(&[("docs/readme", b"read me"), ("bin/ffmpeg", b"payload")]);
    assert_eq!(&bytes[0..4], b"PK\x03\x04");
    bytes[0] = b'X';
    let mut archive = Archive::open(bytes.clone()).unwrap();
    assert_eq!(archive.len(), 2);
    assert_eq!(archive.find("ffmpeg").unwrap_err().kind(), ErrorKind::Archive);
    assert_eq!(unpack_tool(bytes, "ffmpeg").unwrap_err().kind(), ErrorKind::Archive);
}

#[test]
fn entry_that_cannot_be_opened_after_the_match_does_no_harm() {
    let mut bytes = stored_archive(&[("bin/ffmpeg", b"payload"), ("docs/readme", b"read me")]);
    let header = position_of(&bytes[4..], b"PK\x03\x04") + 4;
    bytes[header] = b'X';
    let mut archive = Archive::open(bytes.clone()).unwrap();
    assert_eq!(archive.find("ffmpeg").unwrap(), Some(0));
    assert_eq!(archive.read(1).unwrap_err().kind(), ErrorKind::Archive);
    assert_eq!(unpack_tool(bytes, "ffmpeg").unwrap(), Some(b"payload".to_vec()));
}

#[test]
fn entry_whose_bytes_are_damaged_is_an_error() {
    let mut bytes = stored_archive(&[("bin/ffmpeg", b"the transcoder")]);
    let at = position_of(&bytes, b"the transcoder");
    bytes[at] ^= 0xff;
    let mut archive = Archive::open(bytes.clone()).unwrap();
    assert_eq!(archive.find("ffmpeg").unwrap(), Some(0));
    assert_eq!(archive.read(0).unwrap_err().kind(), ErrorKind::Archive);
    assert_eq!(unpack_tool(bytes, "ffmpeg").unwrap_err().kind(), ErrorKind::Archive);
}

#[test]
fn reading_past_the_last_entry_is_an_error() {
    let bytes = stored_archive(&[("bin/ffmpeg", b"payload")]);
    let mut archive = Archive::open(bytes).unwrap();
    assert_eq!(archive.read(1).unwrap_err().kind(), ErrorKind::Archive);
    assert_eq!(archive.read(usize::MAX).unwrap_err().kind(), ErrorKind::Archive);
    assert_eq!(archive.read(0).unwrap(), b"payload".to_vec());
}
