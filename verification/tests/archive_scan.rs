use audio_fetch::archive::{unpack_tool, Archive};
use audio_fetch::error::ErrorKind;
use audio_fetch::text::has_suffix;
use std::io::{Cursor, Write};
use zip::write::SimpleFileOptions;
use zip::{CompressionMethod, ZipWriter};

fn archive_of(entries: &[(&str, &[u8])], method: CompressionMethod) -> Vec<u8> {
    let mut writer = ZipWriter::new(Cursor::new(Vec::new()));
    let options = SimpleFileOptions::default().compression_method(method);
    for (name, body) in entries {
        writer.start_file(*name, options).unwrap();
        writer.write_all(body).unwrap();
    }
    writer.finish().unwrap().into_inner()
}

#[test]
fn scan_selects_first_entry_ending_with_tool_name() {
    let bytes = archive_of(
        &[
            ("docs/readme", b"read me"),
            ("bin/sub/ffmpeg", b"the transcoder"),
            ("ffmpeg.1", b"manual page"),
        ],
        CompressionMethod::Stored,
    );
    let mut archive = Archive::open(bytes.clone()).unwrap();
    assert_eq!(archive.len(), 3);
    assert_eq!(archive.find("ffmpeg").unwrap(), Some(1));
    assert_eq!(archive.read(1).unwrap(), b"the transcoder".to_vec());
    assert_eq!(unpack_tool(bytes, "ffmpeg").unwrap(), Some(b"the transcoder".to_vec()));
}

#[test]
fn scan_takes_the_first_of_two_matches() {
    let bytes = archive_of(
        &[("a/ffmpeg", b"first"), ("b/ffmpeg", b"second")],
        CompressionMethod::Stored,
    );
    assert_eq!(unpack_tool(bytes, "ffmpeg").unwrap(), Some(b"first".to_vec()));
}

#[test]
fn deflated_entry_is_decompressed() {
    let body: Vec<u8> = (0..4096u32).map(|i| (i % 7) as u8).collect();
    let bytes = archive_of(&[("ffmpeg", &body)], CompressionMethod::Deflated);
    assert!(bytes.len() < body.len());
    assert_eq!(unpack_tool(bytes, "ffmpeg").unwrap(), Some(body));
}

#[test]
fn archive_without_the_tool_is_no_error() {
    let bytes = archive_of(
        &[("docs/readme", b"read me"), ("ffmpeg.1", b"manual page")],
        CompressionMethod::Stored,
    );
    assert_eq!(unpack_tool(bytes, "ffmpeg").unwrap(), None);
}

#[test]
fn empty_archive_is_no_error() {
    let bytes = archive_of(&[], CompressionMethod::Stored);
    let mut archive = Archive::open(bytes.clone()).unwrap();
    assert_eq!(archive.len(), 0);
    assert_eq!(archive.find("ffmpeg").unwrap(), None);
    assert_eq!(unpack_tool(bytes, "ffmpeg").unwrap(), None);
}

#[test]
fn bytes_that_are_no_archive_are_an_archive_error() {
    let error = unpack_tool(b"certainly not a zip file".to_vec(), "ffmpeg").unwrap_err();
    assert_eq!(error.kind(), ErrorKind::Archive);
    assert!(error.describe().starts_with("zip error: "));
    let error = Archive::open(Vec::new()).err().unwrap();
    assert_eq!(error.kind(), ErrorKind::Archive);
}

#[test]
fn suffix_is_compared_by_characters() {
    assert!(has_suffix("bin/sub/ffmpeg", "ffmpeg"));
    assert!(has_suffix("ffmpeg", "ffmpeg"));
    assert!(has_suffix("anything", ""));
    assert!(!has_suffix("ffmpeg.1", "ffmpeg"));
    assert!(!has_suffix("mpeg", "ffmpeg"));
    assert!(!has_suffix("", "ffmpeg"));
    assert!(has_suffix("übung/ffmpeg", "ffmpeg"));
    assert!(has_suffix("a/täst", "täst"));
}
