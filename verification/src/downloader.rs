//! One download, from the URL to the message that the user reads.
//!
//! The download is a state machine of the same kind as an acquisition: the
//! embedding program resolves the tools, runs the extractor and asks the
//! user for a folder as the machine requests, and reports what came of it.

use crate::error::{AcquisitionError, ErrorModel};
use crate::text::{joined, contains, has_infix, trimmed};
use crate::util::{sanitize_filename, sanitized};
use vstd::prelude::*;

verus! {

/// The service that a URL is expected to belong to.
#[derive(Clone, Copy, Debug, PartialEq, Eq, Structural)]
pub enum Site {
    YouTube,
    SoundCloud,
}

/// A URL is taken for a site's where it holds one of the site's host names.
pub open spec fn accepts(site: Site, url: Seq<char>) -> bool {
    match site {
        Site::YouTube => contains(url, "youtube.com"@) || contains(url, "youtu.be"@),
        Site::SoundCloud => contains(url, "soundcloud.com"@),
    }
}

/// Whether `url` is taken for a URL of `site`.
pub fn is_valid(site: Site, url: &str) -> (valid: bool)
    ensures
        valid == accepts(site, url@),
{
    match site {
        Site::YouTube => has_infix(url, "youtube.com") || has_infix(url, "youtu.be"),
        Site::SoundCloud => has_infix(url, "soundcloud.com"),
    }
}

/// What the embedding program reports back.
#[derive(Debug, PartialEq, Eq)]
pub enum Reply {
    /// The outcome of resolving the extractor.
    YtDlp(Result<String, AcquisitionError>),
    /// The outcome of resolving the transcoder.
    Ffmpeg(Result<Option<String>, AcquisitionError>),
    /// The extractor ran and ended; its two output streams as text.
    Ran { success: bool, stdout: String, stderr: String },
    /// The extractor could not be run.
    RunFailed { cause: String },
    /// The user chose a folder, in which the output file is `file`, or
    /// dismissed the dialog.
    Picked { file: Option<String> },
}

/// A [`Reply`] with its strings as sequences.
pub enum ReplyModel {
    YtDlp(Result<Seq<char>, ErrorModel>),
    Ffmpeg(Result<Option<Seq<char>>, ErrorModel>),
    Ran { success: bool, stdout: Seq<char>, stderr: Seq<char> },
    RunFailed { cause: Seq<char> },
    Picked { file: Option<Seq<char>> },
}

/// An optional string as an optional sequence.
pub open spec fn opt_text(text: Option<String>) -> Option<Seq<char>> {
    match text {
        Some(t) => Some(t@),
        None => None,
    }
}

impl View for Reply {
    type V = ReplyModel;

    open spec fn view(&self) -> ReplyModel {
        match *self {
            Reply::YtDlp(Ok(path)) => ReplyModel::YtDlp(Ok(path@)),
            Reply::YtDlp(Err(error)) => ReplyModel::YtDlp(Err(error@)),
            Reply::Ffmpeg(Ok(path)) => ReplyModel::Ffmpeg(Ok(opt_text(path))),
            Reply::Ffmpeg(Err(error)) => ReplyModel::Ffmpeg(Err(error@)),
            Reply::Ran { success, stdout, stderr } => ReplyModel::Ran {
                success,
                stdout: stdout@,
                stderr: stderr@,
            },
            Reply::RunFailed { cause } => ReplyModel::RunFailed { cause: cause@ },
            Reply::Picked { file } => ReplyModel::Picked { file: opt_text(file) },
        }
    }
}

/// What the embedding program is to do next.
#[derive(Debug, PartialEq, Eq)]
pub enum Request {
    /// Resolve the extractor's path.
    ResolveYtDlp,
    /// Resolve the transcoder's path.
    ResolveFfmpeg,
    /// Run `program` with `args` and capture its exit status and output.
    Run { program: String, args: Vec<String> },
    /// Let the user pick a folder, and join `file_name` to it.
    PickFolder { file_name: String },
    /// The reply was not the one awaited: go on waiting for that one.
    Idle,
    /// The download is over: show the message in the state.
    Stop,
}

/// A [`Request`] with its strings as sequences.
pub enum RequestModel {
    ResolveYtDlp,
    ResolveFfmpeg,
    Run { program: Seq<char>, args: Seq<Seq<char>> },
    PickFolder { file_name: Seq<char> },
    Idle,
    Stop,
}

/// A list of strings as a sequence of sequences.
pub open spec fn texts(list: Seq<String>) -> Seq<Seq<char>> {
    list.map_values(|s: String| s@)
}

impl View for Request {
    type V = RequestModel;

    open spec fn view(&self) -> RequestModel {
        match *self {
            Request::ResolveYtDlp => RequestModel::ResolveYtDlp,
            Request::ResolveFfmpeg => RequestModel::ResolveFfmpeg,
            Request::Run { program, args } => RequestModel::Run {
                program: program@,
                args: texts(args@),
            },
            Request::PickFolder { file_name } => RequestModel::PickFolder { file_name: file_name@ },
            Request::Idle => RequestModel::Idle,
            Request::Stop => RequestModel::Stop,
        }
    }
}

/// Where a download stands.
#[derive(Debug, PartialEq, Eq)]
pub enum DownloadState {
    /// Waiting for the extractor's path.
    ResolvingYtDlp { url: String },
    /// Waiting for the transcoder's path.
    ResolvingFfmpeg { url: String, yt_dlp: String },
    /// Waiting for the extractor to print the title.
    Probing { url: String, yt_dlp: String, ffmpeg: Option<String> },
    /// Waiting for the user to pick a folder.
    Choosing { url: String, yt_dlp: String, ffmpeg: Option<String> },
    /// Waiting for the extractor to write `out_file`.
    Extracting { out_file: String },
    /// Over, with the message for the user.
    Finished(String),
}

/// A [`DownloadState`] with its strings as sequences.
pub enum DownloadModel {
    ResolvingYtDlp { url: Seq<char> },
    ResolvingFfmpeg { url: Seq<char>, yt_dlp: Seq<char> },
    Probing { url: Seq<char>, yt_dlp: Seq<char>, ffmpeg: Option<Seq<char>> },
    Choosing { url: Seq<char>, yt_dlp: Seq<char>, ffmpeg: Option<Seq<char>> },
    Extracting { out_file: Seq<char> },
    Finished(Seq<char>),
}

impl View for DownloadState {
    type V = DownloadModel;

    open spec fn view(&self) -> DownloadModel {
        match *self {
            DownloadState::ResolvingYtDlp { url } => DownloadModel::ResolvingYtDlp { url: url@ },
            DownloadState::ResolvingFfmpeg { url, yt_dlp } => DownloadModel::ResolvingFfmpeg {
                url: url@,
                yt_dlp: yt_dlp@,
            },
            DownloadState::Probing { url, yt_dlp, ffmpeg } => DownloadModel::Probing {
                url: url@,
                yt_dlp: yt_dlp@,
                ffmpeg: opt_text(ffmpeg),
            },
            DownloadState::Choosing { url, yt_dlp, ffmpeg } => DownloadModel::Choosing {
                url: url@,
                yt_dlp: yt_dlp@,
                ffmpeg: opt_text(ffmpeg),
            },
            DownloadState::Extracting { out_file } => DownloadModel::Extracting {
                out_file: out_file@,
            },
            DownloadState::Finished(message) => DownloadModel::Finished(message@),
        }
    }
}

/// The name of the output file for a title as the extractor printed it: the
/// title without the white space around it, reduced to file-name
/// characters, with the extension of the audio format.
pub open spec fn output_name(printed: Seq<char>) -> Seq<char> {
    sanitized(trimmed(printed)) + ".mp3"@
}

/// The arguments that make the extractor print a URL's title.
pub open spec fn title_args(url: Seq<char>) -> Seq<Seq<char>> {
    seq!["--print"@, "title"@, url]
}

/// The arguments that make the extractor write a URL's audio to
/// `out_file`, with the transcoder's place where one is known.
pub open spec fn extract_args(
    url: Seq<char>,
    out_file: Seq<char>,
    ffmpeg: Option<Seq<char>>,
) -> Seq<Seq<char>> {
    let base = seq!["-x"@, "--audio-format"@, "mp3"@, "-o"@, out_file, url];
    match ffmpeg {
        Some(path) => base + seq!["--ffmpeg-location"@, path],
        None => base,
    }
}

/// The first state of a download and its first request.
pub open spec fn download_start(url: Seq<char>, site: Site) -> (DownloadModel, RequestModel) {
    if accepts(site, url) {
        (DownloadModel::ResolvingYtDlp { url }, RequestModel::ResolveYtDlp)
    } else {
        (DownloadModel::Finished("invalid URL"@), RequestModel::Stop)
    }
}

/// One step of a download.
pub open spec fn download_step(state: DownloadModel, reply: ReplyModel) -> (
    DownloadModel,
    RequestModel,
) {
    match state {
        DownloadModel::ResolvingYtDlp { url } => match reply {
            ReplyModel::YtDlp(Ok(yt_dlp)) => (
                DownloadModel::ResolvingFfmpeg { url, yt_dlp },
                RequestModel::ResolveFfmpeg,
            ),
            ReplyModel::YtDlp(Err(error)) => (
                DownloadModel::Finished("yt-dlp error: "@ + error.message),
                RequestModel::Stop,
            ),
            _ => (state, RequestModel::Idle),
        },
        DownloadModel::ResolvingFfmpeg { url, yt_dlp } => match reply {
            ReplyModel::Ffmpeg(outcome) => (
                DownloadModel::Probing {
                    url,
                    yt_dlp,
                    ffmpeg: match outcome {
                        Ok(found) => found,
                        Err(_) => None,
                    },
                },
                RequestModel::Run { program: yt_dlp, args: title_args(url) },
            ),
            _ => (state, RequestModel::Idle),
        },
        DownloadModel::Probing { url, yt_dlp, ffmpeg } => match reply {
            ReplyModel::Ran { success, stdout, stderr } => if success {
                (
                    DownloadModel::Choosing { url, yt_dlp, ffmpeg },
                    RequestModel::PickFolder { file_name: output_name(stdout) },
                )
            } else {
                (DownloadModel::Finished("yt-dlp title error: "@ + stderr), RequestModel::Stop)
            },
            ReplyModel::RunFailed { cause } => (
                DownloadModel::Finished("yt-dlp exec error: "@ + cause),
                RequestModel::Stop,
            ),
            _ => (state, RequestModel::Idle),
        },
        DownloadModel::Choosing { url, yt_dlp, ffmpeg } => match reply {
            ReplyModel::Picked { file: Some(out_file) } => (
                DownloadModel::Extracting { out_file },
                RequestModel::Run { program: yt_dlp, args: extract_args(url, out_file, ffmpeg) },
            ),
            ReplyModel::Picked { file: None } => (
                DownloadModel::Finished("canceled"@),
                RequestModel::Stop,
            ),
            _ => (state, RequestModel::Idle),
        },
        DownloadModel::Extracting { out_file } => match reply {
            ReplyModel::Ran { success, stdout, stderr } => if success {
                (DownloadModel::Finished("Ok: path="@ + out_file), RequestModel::Stop)
            } else {
                (DownloadModel::Finished("yt-dlp failed: "@ + stderr), RequestModel::Stop)
            },
            ReplyModel::RunFailed { cause } => (
                DownloadModel::Finished("yt-dlp exec error: "@ + cause),
                RequestModel::Stop,
            ),
            _ => (state, RequestModel::Idle),
        },
        DownloadModel::Finished(_) => (state, RequestModel::Stop),
    }
}

/// Begins the download of `url`, which is to belong to `site`.
pub fn start_download(url: String, site: Site) -> (r: (DownloadState, Request))
    ensures
        (r.0@, r.1@) == download_start(url@, site),
{
    if is_valid(site, url.as_str()) {
        (DownloadState::ResolvingYtDlp { url }, Request::ResolveYtDlp)
    } else {
        (DownloadState::Finished("invalid URL".to_owned()), Request::Stop)
    }
}

/// Begins the download of a YouTube URL.
pub fn download_youtube(url: String) -> (r: (DownloadState, Request))
    ensures
        (r.0@, r.1@) == download_start(url@, Site::YouTube),
{
    start_download(url, Site::YouTube)
}

/// Begins the download of a SoundCloud URL.
pub fn download_soundcloud(url: String) -> (r: (DownloadState, Request))
    ensures
        (r.0@, r.1@) == download_start(url@, Site::SoundCloud),
{
    start_download(url, Site::SoundCloud)
}

/// The name of the output file for the title that the extractor printed.
pub fn output_file_name(printed: &str) -> (name: String)
    ensures
        name@ == output_name(printed@),
{
    let mut name = sanitize_filename(printed.trim());
    name.append(".mp3");
    name
}

/// The request to run the extractor for the title of `url`.
fn probe_request(yt_dlp: &String, url: &String) -> (request: Request)
    ensures
        request@ == (RequestModel::Run { program: yt_dlp@, args: title_args(url@) }),
{
    let mut args: Vec<String> = Vec::new();
    args.push("--print".to_owned());
    args.push("title".to_owned());
    args.push(url.clone());
    assert(texts(args@) =~= title_args(url@));
    Request::Run { program: yt_dlp.clone(), args }
}

/// The request to run the extractor for the audio of `url`.
fn extract_request(
    yt_dlp: String,
    url: String,
    out_file: &String,
    ffmpeg: Option<String>,
) -> (request: Request)
    ensures
        request@ == (RequestModel::Run {
            program: yt_dlp@,
            args: extract_args(url@, out_file@, opt_text(ffmpeg)),
        }),
{
    let mut args: Vec<String> = Vec::new();
    args.push("-x".to_owned());
    args.push("--audio-format".to_owned());
    args.push("mp3".to_owned());
    args.push("-o".to_owned());
    args.push(out_file.clone());
    args.push(url);
    match ffmpeg {
        Some(path) => {
            args.push("--ffmpeg-location".to_owned());
            args.push(path);
            assert(texts(args@) =~= extract_args(url@, out_file@, Some(path@)));
        },
        None => {
            assert(texts(args@) =~= extract_args(url@, out_file@, None));
        },
    }
    Request::Run { program: yt_dlp, args }
}

/// Takes a download one step further.
pub fn download_audio(state: DownloadState, reply: Reply) -> (r: (DownloadState, Request))
    ensures
        (r.0@, r.1@) == download_step(state@, reply@),
{
    match state {
        DownloadState::ResolvingYtDlp { url } => match reply {
            Reply::YtDlp(Ok(yt_dlp)) => (
                DownloadState::ResolvingFfmpeg { url, yt_dlp },
                Request::ResolveFfmpeg,
            ),
            Reply::YtDlp(Err(error)) => (
                DownloadState::Finished(joined("yt-dlp error: ", error.message.as_str())),
                Request::Stop,
            ),
            _ => (DownloadState::ResolvingYtDlp { url }, Request::Idle),
        },
        DownloadState::ResolvingFfmpeg { url, yt_dlp } => match reply {
            Reply::Ffmpeg(outcome) => {
                let ffmpeg = match outcome {
                    Ok(found) => found,
                    Err(_) => None,
                };
                let request = probe_request(&yt_dlp, &url);
                (DownloadState::Probing { url, yt_dlp, ffmpeg }, request)
            },
            _ => (DownloadState::ResolvingFfmpeg { url, yt_dlp }, Request::Idle),
        },
        DownloadState::Probing { url, yt_dlp, ffmpeg } => match reply {
            Reply::Ran { success, stdout, stderr } => {
                if success {
                    let file_name = output_file_name(stdout.as_str());
                    (
                        DownloadState::Choosing { url, yt_dlp, ffmpeg },
                        Request::PickFolder { file_name },
                    )
                } else {
                    (
                        DownloadState::Finished(joined("yt-dlp title error: ", stderr.as_str())),
                        Request::Stop,
                    )
                }
            },
            Reply::RunFailed { cause } => (
                DownloadState::Finished(joined("yt-dlp exec error: ", cause.as_str())),
                Request::Stop,
            ),
            _ => (DownloadState::Probing { url, yt_dlp, ffmpeg }, Request::Idle),
        },
        DownloadState::Choosing { url, yt_dlp, ffmpeg } => match reply {
            Reply::Picked { file: Some(out_file) } => {
                let request = extract_request(yt_dlp, url, &out_file, ffmpeg);
                (DownloadState::Extracting { out_file }, request)
            },
            Reply::Picked { file: None } => (
                DownloadState::Finished("canceled".to_owned()),
                Request::Stop,
            ),
            _ => (DownloadState::Choosing { url, yt_dlp, ffmpeg }, Request::Idle),
        },
        DownloadState::Extracting { out_file } => match reply {
            Reply::Ran { success, stdout, stderr } => {
                if success {
                    (
                        DownloadState::Finished(joined("Ok: path=", out_file.as_str())),
                        Request::Stop,
                    )
                } else {
                    (
                        DownloadState::Finished(joined("yt-dlp failed: ", stderr.as_str())),
                        Request::Stop,
                    )
                }
            },
            Reply::RunFailed { cause } => (
                DownloadState::Finished(joined("yt-dlp exec error: ", cause.as_str())),
                Request::Stop,
            ),
            _ => (DownloadState::Extracting { out_file }, Request::Idle),
        },
        DownloadState::Finished(message) => (DownloadState::Finished(message), Request::Stop),
    }
}

/// A download needs the extractor and can do without the transcoder: a
/// failure to resolve the extractor ends the download with its cause, and
/// whatever comes of resolving the transcoder, the download goes on to ask
/// for the title.
pub proof fn law_only_the_extractor_is_needed(
    url: Seq<char>,
    yt_dlp: Seq<char>,
    error: ErrorModel,
    transcoder: Result<Option<Seq<char>>, ErrorModel>,
)
    ensures
        download_step(DownloadModel::ResolvingYtDlp { url }, ReplyModel::YtDlp(Err(error))) == (
            DownloadModel::Finished("yt-dlp error: "@ + error.message),
            RequestModel::Stop,
        ),
        download_step(
            DownloadModel::ResolvingFfmpeg { url, yt_dlp },
            ReplyModel::Ffmpeg(transcoder),
        ).0 is Probing,
        download_step(
            DownloadModel::ResolvingFfmpeg { url, yt_dlp },
            ReplyModel::Ffmpeg(transcoder),
        ).1 == (RequestModel::Run { program: yt_dlp, args: title_args(url) }),
{
}

} // verus!
