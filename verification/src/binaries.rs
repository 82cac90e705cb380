//! Acquiring the two tools: the extractor, which every download needs, and
//! the transcoder, which a download can do without.
//!
//! An acquisition is a state machine. Each step takes the state and the
//! event that the embedding program reports, and gives the next state and
//! the action that the program is to carry out next. A tool that is already
//! in the installation directory is taken as it is. Otherwise it is fetched
//! into a staging file beside its place, renamed to its place once it is
//! complete, and made executable where the platform asks for that.

use crate::archive::{
    lemma_scan_stops_first, stops_scan, unpack_model, unpack_tool, unpacked, zip_entries,
    EntryModel,
};
use crate::error::{AcquisitionError, ErrorKind, ErrorModel};
use crate::protocol::{
    failure, lemma_staging_differs, staging_of, staging_path, Action, ActionModel, Event,
    EventModel,
};
use crate::slot::{completed, requested, Decision, Slot, SlotModel, SlotState};
use vstd::pervasive::unreached;
use vstd::prelude::*;

verus! {

/// The file name of the extractor in the installation directory.
pub const YT_DLP_NAME: &'static str = "yt-dlp";

/// The file name of the transcoder in the installation directory, and the
/// name that its archive entry ends with.
pub const FFMPEG_NAME: &'static str = "ffmpeg";

/// Where the extractor is fetched from.
pub const YT_DLP_URL: &'static str =
    "https://github.com/yt-dlp/yt-dlp/releases/latest/download/yt-dlp";

/// Where the archive that holds the transcoder is fetched from.
pub const FFMPEG_ZIP_URL: &'static str = "https://evermeet.cx/ffmpeg/ffmpeg-118896-g9f0970ee35.zip";

/// Where the acquisition of the extractor stands.
#[derive(Debug, PartialEq, Eq)]
pub enum YtDlpState {
    /// Waiting to learn the extractor's place.
    Locating,
    /// Waiting for the download into the staging file.
    Fetching { path: String },
    /// Waiting for the staging file to be renamed to `path`.
    Installing { path: String },
    /// Waiting for the file to be made executable.
    Granting { path: String },
    /// Waiting for the staging file to be removed after `error`.
    Discarding { error: AcquisitionError },
    /// Over, with the extractor's path or the failure.
    Finished(Result<String, AcquisitionError>),
}

/// A [`YtDlpState`] with its strings as sequences.
pub enum YtDlpModel {
    Locating,
    Fetching { path: Seq<char> },
    Installing { path: Seq<char> },
    Granting { path: Seq<char> },
    Discarding { error: ErrorModel },
    Finished(Result<Seq<char>, ErrorModel>),
}

impl View for YtDlpState {
    type V = YtDlpModel;

    open spec fn view(&self) -> YtDlpModel {
        match *self {
            YtDlpState::Locating => YtDlpModel::Locating,
            YtDlpState::Fetching { path } => YtDlpModel::Fetching { path: path@ },
            YtDlpState::Installing { path } => YtDlpModel::Installing { path: path@ },
            YtDlpState::Granting { path } => YtDlpModel::Granting { path: path@ },
            YtDlpState::Discarding { error } => YtDlpModel::Discarding { error: error@ },
            YtDlpState::Finished(Ok(path)) => YtDlpModel::Finished(Ok(path@)),
            YtDlpState::Finished(Err(error)) => YtDlpModel::Finished(Err(error@)),
        }
    }
}

/// The first state of the extractor's acquisition and its first action.
pub open spec fn yt_dlp_start() -> (YtDlpModel, ActionModel) {
    (YtDlpModel::Locating, ActionModel::Locate { file_name: YT_DLP_NAME@ })
}

/// One step of the extractor's acquisition.
pub open spec fn yt_dlp_step(state: YtDlpModel, event: EventModel, posix: bool) -> (
    YtDlpModel,
    ActionModel,
) {
    match state {
        YtDlpModel::Locating => match event {
            EventModel::Located { path, exists } => if exists {
                (YtDlpModel::Finished(Ok(path)), ActionModel::Stop)
            } else {
                (
                    YtDlpModel::Fetching { path },
                    ActionModel::Download { url: YT_DLP_URL@, to: staging_of(path) },
                )
            },
            EventModel::Failed { cause } => (
                YtDlpModel::Finished(Err(failure(ErrorKind::DirectoryResolution, cause))),
                ActionModel::Stop,
            ),
            EventModel::NoDirectory => (
                YtDlpModel::Finished(Err(failure(ErrorKind::DirectoryResolution, "no exe dir"@))),
                ActionModel::Stop,
            ),
            _ => (state, ActionModel::Idle),
        },
        YtDlpModel::Fetching { path } => match event {
            EventModel::Exited { success } => if success {
                (
                    YtDlpModel::Installing { path },
                    ActionModel::Rename { from: staging_of(path), to: path },
                )
            } else {
                (
                    YtDlpModel::Discarding {
                        error: failure(ErrorKind::Network, "yt-dlp download failed"@),
                    },
                    ActionModel::Remove { path: staging_of(path) },
                )
            },
            EventModel::Failed { cause } => (
                YtDlpModel::Discarding { error: failure(ErrorKind::Network, cause) },
                ActionModel::Remove { path: staging_of(path) },
            ),
            _ => (state, ActionModel::Idle),
        },
        YtDlpModel::Installing { path } => match event {
            EventModel::Completed => if posix {
                (YtDlpModel::Granting { path }, ActionModel::GrantExec { path })
            } else {
                (YtDlpModel::Finished(Ok(path)), ActionModel::Stop)
            },
            EventModel::Failed { cause } => (
                YtDlpModel::Discarding { error: failure(ErrorKind::Install, cause) },
                ActionModel::Remove { path: staging_of(path) },
            ),
            _ => (state, ActionModel::Idle),
        },
        YtDlpModel::Granting { path } => match event {
            EventModel::Completed => (YtDlpModel::Finished(Ok(path)), ActionModel::Stop),
            EventModel::Failed { cause } => (
                YtDlpModel::Finished(Err(failure(ErrorKind::PermissionGrant, cause))),
                ActionModel::Stop,
            ),
            _ => (state, ActionModel::Idle),
        },
        YtDlpModel::Discarding { error } => match event {
            EventModel::Completed | EventModel::Failed { .. } => (
                YtDlpModel::Finished(Err(error)),
                ActionModel::Stop,
            ),
            _ => (state, ActionModel::Idle),
        },
        YtDlpModel::Finished(_) => (state, ActionModel::Stop),
    }
}

/// Begins the acquisition of the extractor.
pub fn start_yt_dlp() -> (r: (YtDlpState, Action))
    ensures
        (r.0@, r.1@) == yt_dlp_start(),
{
    (YtDlpState::Locating, Action::Locate { file_name: YT_DLP_NAME.to_owned() })
}

/// Takes the acquisition of the extractor one step further.
///
/// `posix` says whether the platform keeps an execute permission.
pub fn ensure_yt_dlp(state: YtDlpState, event: Event, posix: bool) -> (r: (YtDlpState, Action))
    ensures
        (r.0@, r.1@) == yt_dlp_step(state@, event@, posix),
{
    match state {
        YtDlpState::Locating => match event {
            Event::Located { path, exists } => {
                if exists {
                    (YtDlpState::Finished(Ok(path)), Action::Stop)
                } else {
                    let to = staging_path(path.as_str());
                    (
                        YtDlpState::Fetching { path },
                        Action::Download { url: YT_DLP_URL.to_owned(), to },
                    )
                }
            },
            Event::Failed { cause } => (
                YtDlpState::Finished(
                    Err(AcquisitionError::new(ErrorKind::DirectoryResolution, cause)),
                ),
                Action::Stop,
            ),
            Event::NoDirectory => (
                YtDlpState::Finished(
                    Err(
                        AcquisitionError::new(
                            ErrorKind::DirectoryResolution,
                            "no exe dir".to_owned(),
                        ),
                    ),
                ),
                Action::Stop,
            ),
            _ => (YtDlpState::Locating, Action::Idle),
        },
        YtDlpState::Fetching { path } => match event {
            Event::Exited { success } => {
                let staging = staging_path(path.as_str());
                if success {
                    (
                        YtDlpState::Installing { path: path.clone() },
                        Action::Rename { from: staging, to: path },
                    )
                } else {
                    (
                        YtDlpState::Discarding {
                            error: AcquisitionError::new(
                                ErrorKind::Network,
                                "yt-dlp download failed".to_owned(),
                            ),
                        },
                        Action::Remove { path: staging },
                    )
                }
            },
            Event::Failed { cause } => {
                let staging = staging_path(path.as_str());
                (
                    YtDlpState::Discarding {
                        error: AcquisitionError::new(ErrorKind::Network, cause),
                    },
                    Action::Remove { path: staging },
                )
            },
            _ => (YtDlpState::Fetching { path }, Action::Idle),
        },
        YtDlpState::Installing { path } => match event {
            Event::Completed => {
                if posix {
                    (
                        YtDlpState::Granting { path: path.clone() },
                        Action::GrantExec { path },
                    )
                } else {
                    (YtDlpState::Finished(Ok(path)), Action::Stop)
                }
            },
            Event::Failed { cause } => {
                let staging = staging_path(path.as_str());
                (
                    YtDlpState::Discarding {
                        error: AcquisitionError::new(ErrorKind::Install, cause),
                    },
                    Action::Remove { path: staging },
                )
            },
            _ => (YtDlpState::Installing { path }, Action::Idle),
        },
        YtDlpState::Granting { path } => match event {
            Event::Completed => (YtDlpState::Finished(Ok(path)), Action::Stop),
            Event::Failed { cause } => (
                YtDlpState::Finished(
                    Err(AcquisitionError::new(ErrorKind::PermissionGrant, cause)),
                ),
                Action::Stop,
            ),
            _ => (YtDlpState::Granting { path }, Action::Idle),
        },
        YtDlpState::Discarding { error } => match event {
            Event::Completed | Event::Failed { .. } => (
                YtDlpState::Finished(Err(error)),
                Action::Stop,
            ),
            _ => (YtDlpState::Discarding { error }, Action::Idle),
        },
        YtDlpState::Finished(outcome) => (YtDlpState::Finished(outcome), Action::Stop),
    }
}

/// Where the acquisition of the transcoder stands.
#[derive(Debug, PartialEq, Eq)]
pub enum FfmpegState {
    /// Waiting to learn the transcoder's place.
    Locating,
    /// Waiting for the archive's body.
    Fetching { path: String },
    /// Waiting for the transcoder's bytes to be written to the staging file.
    Writing { path: String },
    /// Waiting for the staging file to be renamed to `path`.
    Installing { path: String },
    /// Waiting for the file to be made executable.
    Granting { path: String },
    /// Waiting for the staging file to be removed after `error`.
    Discarding { error: AcquisitionError },
    /// Over: with the transcoder's path, with `None` where the archive
    /// holds no transcoder, or with the failure.
    Finished(Result<Option<String>, AcquisitionError>),
}

/// A [`FfmpegState`] with its strings as sequences.
pub enum FfmpegModel {
    Locating,
    Fetching { path: Seq<char> },
    Writing { path: Seq<char> },
    Installing { path: Seq<char> },
    Granting { path: Seq<char> },
    Discarding { error: ErrorModel },
    Finished(Result<Option<Seq<char>>, ErrorModel>),
}

impl View for FfmpegState {
    type V = FfmpegModel;

    open spec fn view(&self) -> FfmpegModel {
        match *self {
            FfmpegState::Locating => FfmpegModel::Locating,
            FfmpegState::Fetching { path } => FfmpegModel::Fetching { path: path@ },
            FfmpegState::Writing { path } => FfmpegModel::Writing { path: path@ },
            FfmpegState::Installing { path } => FfmpegModel::Installing { path: path@ },
            FfmpegState::Granting { path } => FfmpegModel::Granting { path: path@ },
            FfmpegState::Discarding { error } => FfmpegModel::Discarding { error: error@ },
            FfmpegState::Finished(Ok(Some(path))) => FfmpegModel::Finished(Ok(Some(path@))),
            FfmpegState::Finished(Ok(None)) => FfmpegModel::Finished(Ok(None)),
            FfmpegState::Finished(Err(error)) => FfmpegModel::Finished(Err(error@)),
        }
    }
}

/// The first state of the transcoder's acquisition and its first action.
pub open spec fn ffmpeg_start() -> (FfmpegModel, ActionModel) {
    (FfmpegModel::Locating, ActionModel::Locate { file_name: FFMPEG_NAME@ })
}

/// The step that follows the unpacking of the fetched archive: the
/// transcoder's bytes go to the staging file, an archive without a
/// transcoder ends the acquisition with `None`, a failure ends it with an
/// error of the failure's kind. The error's text is left empty here: it is
/// the archive reader's.
pub open spec fn ffmpeg_unpacked(path: Seq<char>, outcome: Result<Option<Seq<u8>>, ErrorKind>) -> (
    FfmpegModel,
    ActionModel,
) {
    match outcome {
        Ok(Some(data)) => (
            FfmpegModel::Writing { path },
            ActionModel::Write { to: staging_of(path), data },
        ),
        Ok(None) => (FfmpegModel::Finished(Ok(None)), ActionModel::Stop),
        Err(kind) => (
            FfmpegModel::Finished(Err(failure(kind, Seq::empty()))),
            ActionModel::Stop,
        ),
    }
}

/// One step of the transcoder's acquisition.
pub open spec fn ffmpeg_step(state: FfmpegModel, event: EventModel, posix: bool) -> (
    FfmpegModel,
    ActionModel,
) {
    match state {
        FfmpegModel::Locating => match event {
            EventModel::Located { path, exists } => if exists {
                (FfmpegModel::Finished(Ok(Some(path))), ActionModel::Stop)
            } else {
                (FfmpegModel::Fetching { path }, ActionModel::Fetch { url: FFMPEG_ZIP_URL@ })
            },
            EventModel::Failed { cause } => (
                FfmpegModel::Finished(Err(failure(ErrorKind::DirectoryResolution, cause))),
                ActionModel::Stop,
            ),
            EventModel::NoDirectory => (
                FfmpegModel::Finished(Err(failure(ErrorKind::DirectoryResolution, "no exe dir"@))),
                ActionModel::Stop,
            ),
            _ => (state, ActionModel::Idle),
        },
        FfmpegModel::Fetching { path } => match event {
            EventModel::Body { bytes } => ffmpeg_unpacked(
                path,
                unpacked(zip_entries(bytes), FFMPEG_NAME@),
            ),
            EventModel::Failed { cause } => (
                FfmpegModel::Finished(
                    Err(failure(ErrorKind::Network, "download error: "@ + cause)),
                ),
                ActionModel::Stop,
            ),
            EventModel::Interrupted { cause } => (
                FfmpegModel::Finished(
                    Err(failure(ErrorKind::Network, "read body error: "@ + cause)),
                ),
                ActionModel::Stop,
            ),
            _ => (state, ActionModel::Idle),
        },
        FfmpegModel::Writing { path } => match event {
            EventModel::Completed => (
                FfmpegModel::Installing { path },
                ActionModel::Rename { from: staging_of(path), to: path },
            ),
            EventModel::Failed { cause } => (
                FfmpegModel::Discarding { error: failure(ErrorKind::Install, cause) },
                ActionModel::Remove { path: staging_of(path) },
            ),
            _ => (state, ActionModel::Idle),
        },
        FfmpegModel::Installing { path } => match event {
            EventModel::Completed => if posix {
                (FfmpegModel::Granting { path }, ActionModel::GrantExec { path })
            } else {
                (FfmpegModel::Finished(Ok(Some(path))), ActionModel::Stop)
            },
            EventModel::Failed { cause } => (
                FfmpegModel::Discarding { error: failure(ErrorKind::Install, cause) },
                ActionModel::Remove { path: staging_of(path) },
            ),
            _ => (state, ActionModel::Idle),
        },
        FfmpegModel::Granting { path } => match event {
            EventModel::Completed => (FfmpegModel::Finished(Ok(Some(path))), ActionModel::Stop),
            EventModel::Failed { cause } => (
                FfmpegModel::Finished(Err(failure(ErrorKind::PermissionGrant, cause))),
                ActionModel::Stop,
            ),
            _ => (state, ActionModel::Idle),
        },
        FfmpegModel::Discarding { error } => match event {
            EventModel::Completed | EventModel::Failed { .. } => (
                FfmpegModel::Finished(Err(error)),
                ActionModel::Stop,
            ),
            _ => (state, ActionModel::Idle),
        },
        FfmpegModel::Finished(_) => (state, ActionModel::Stop),
    }
}

/// The one step whose error text this library does not write: the
/// unpacking of the archive's body.
pub open spec fn unpacks(state: FfmpegModel, event: EventModel) -> bool {
    state is Fetching && event is Body
}

/// `actual` is the state that `ffmpeg_step` gives; where the step unpacks
/// the archive and fails, it is a failure of the same kind with a text of
/// the archive reader's.
pub open spec fn follows(
    actual: FfmpegModel,
    state: FfmpegModel,
    event: EventModel,
    posix: bool,
) -> bool {
    let expected = ffmpeg_step(state, event, posix).0;
    if unpacks(state, event) && expected is Finished && expected->Finished_0 is Err {
        &&& actual matches FfmpegModel::Finished(Err(error))
        &&& error.kind == expected->Finished_0->Err_0.kind
    } else {
        actual == expected
    }
}

/// Begins the acquisition of the transcoder.
pub fn start_ffmpeg() -> (r: (FfmpegState, Action))
    ensures
        (r.0@, r.1@) == ffmpeg_start(),
{
    (FfmpegState::Locating, Action::Locate { file_name: FFMPEG_NAME.to_owned() })
}

/// What follows the unpacking of the fetched archive, for the tool whose
/// place is `path`.
pub fn after_unpack(path: String, outcome: Result<Option<Vec<u8>>, AcquisitionError>) -> (r: (
    FfmpegState,
    Action,
))
    ensures
        r.1@ == ffmpeg_unpacked(path@, unpack_model(outcome)).1,
        match outcome {
            Ok(_) => r.0@ == ffmpeg_unpacked(path@, unpack_model(outcome)).0,
            Err(error) => r.0@ == FfmpegModel::Finished(Err(error@)),
        },
{
    match outcome {
        Ok(Some(data)) => {
            let to = staging_path(path.as_str());
            (FfmpegState::Writing { path }, Action::Write { to, data })
        },
        Ok(None) => (FfmpegState::Finished(Ok(None)), Action::Stop),
        Err(error) => (FfmpegState::Finished(Err(error)), Action::Stop),
    }
}

/// Takes the acquisition of the transcoder one step further.
///
/// `posix` says whether the platform keeps an execute permission.
pub fn ensure_ffmpeg(state: FfmpegState, event: Event, posix: bool) -> (r: (FfmpegState, Action))
    ensures
        r.1@ == ffmpeg_step(state@, event@, posix).1,
        follows(r.0@, state@, event@, posix),
{
    match state {
        FfmpegState::Locating => match event {
            Event::Located { path, exists } => {
                if exists {
                    (FfmpegState::Finished(Ok(Some(path))), Action::Stop)
                } else {
                    (
                        FfmpegState::Fetching { path },
                        Action::Fetch { url: FFMPEG_ZIP_URL.to_owned() },
                    )
                }
            },
            Event::Failed { cause } => (
                FfmpegState::Finished(
                    Err(AcquisitionError::new(ErrorKind::DirectoryResolution, cause)),
                ),
                Action::Stop,
            ),
            Event::NoDirectory => (
                FfmpegState::Finished(
                    Err(
                        AcquisitionError::new(
                            ErrorKind::DirectoryResolution,
                            "no exe dir".to_owned(),
                        ),
                    ),
                ),
                Action::Stop,
            ),
            _ => (FfmpegState::Locating, Action::Idle),
        },
        FfmpegState::Fetching { path } => match event {
            Event::Body { bytes } => {
                let outcome = unpack_tool(bytes, FFMPEG_NAME);
                after_unpack(path, outcome)
            },
            Event::Failed { cause } => (
                FfmpegState::Finished(
                    Err(
                        AcquisitionError::with_prefix(
                            ErrorKind::Network,
                            "download error: ",
                            cause.as_str(),
                        ),
                    ),
                ),
                Action::Stop,
            ),
            Event::Interrupted { cause } => (
                FfmpegState::Finished(
                    Err(
                        AcquisitionError::with_prefix(
                            ErrorKind::Network,
                            "read body error: ",
                            cause.as_str(),
                        ),
                    ),
                ),
                Action::Stop,
            ),
            _ => (FfmpegState::Fetching { path }, Action::Idle),
        },
        FfmpegState::Writing { path } => match event {
            Event::Completed => {
                let from = staging_path(path.as_str());
                (
                    FfmpegState::Installing { path: path.clone() },
                    Action::Rename { from, to: path },
                )
            },
            Event::Failed { cause } => {
                let staging = staging_path(path.as_str());
                (
                    FfmpegState::Discarding {
                        error: AcquisitionError::new(ErrorKind::Install, cause),
                    },
                    Action::Remove { path: staging },
                )
            },
            _ => (FfmpegState::Writing { path }, Action::Idle),
        },
        FfmpegState::Installing { path } => match event {
            Event::Completed => {
                if posix {
                    (
                        FfmpegState::Granting { path: path.clone() },
                        Action::GrantExec { path },
                    )
                } else {
                    (FfmpegState::Finished(Ok(Some(path))), Action::Stop)
                }
            },
            Event::Failed { cause } => {
                let staging = staging_path(path.as_str());
                (
                    FfmpegState::Discarding {
                        error: AcquisitionError::new(ErrorKind::Install, cause),
                    },
                    Action::Remove { path: staging },
                )
            },
            _ => (FfmpegState::Installing { path }, Action::Idle),
        },
        FfmpegState::Granting { path } => match event {
            Event::Completed => (FfmpegState::Finished(Ok(Some(path))), Action::Stop),
            Event::Failed { cause } => (
                FfmpegState::Finished(
                    Err(AcquisitionError::new(ErrorKind::PermissionGrant, cause)),
                ),
                Action::Stop,
            ),
            _ => (FfmpegState::Granting { path }, Action::Idle),
        },
        FfmpegState::Discarding { error } => match event {
            Event::Completed | Event::Failed { .. } => (
                FfmpegState::Finished(Err(error)),
                Action::Stop,
            ),
            _ => (FfmpegState::Discarding { error }, Action::Idle),
        },
        FfmpegState::Finished(outcome) => (FfmpegState::Finished(outcome), Action::Stop),
    }
}

/// The memoized paths of the two tools. Each tool has a slot of its own, and
/// nothing that happens to one slot touches the other.
pub struct ToolResolver {
    yt_dlp: Slot<String>,
    ffmpeg: Slot<Option<String>>,
}

/// A [`ToolResolver`] as contracts see it.
pub struct ResolverModel {
    pub yt_dlp: SlotModel<String>,
    pub ffmpeg: SlotModel<Option<String>>,
}

impl View for ToolResolver {
    type V = ResolverModel;

    closed spec fn view(&self) -> ResolverModel {
        ResolverModel { yt_dlp: self.yt_dlp@, ffmpeg: self.ffmpeg@ }
    }
}

/// The answer to a caller that asks for a tool's path.
#[derive(Debug, PartialEq, Eq)]
pub enum Lookup<T> {
    /// The memoized answer.
    Ready(T),
    /// Acquire the tool and report the outcome to the resolver.
    Acquire,
    /// Another caller is acquiring the tool: wait for its outcome.
    Wait,
}

impl<T> Lookup<T> {
    /// The decision behind the answer.
    pub open spec fn decision(self) -> Decision {
        match self {
            Lookup::Ready(_) => Decision::Ready,
            Lookup::Acquire => Decision::Acquire,
            Lookup::Wait => Decision::Wait,
        }
    }
}

impl ToolResolver {
    /// A resolver that has been asked for nothing yet.
    pub fn new() -> (resolver: Self)
        ensures
            resolver@.yt_dlp == (SlotModel::<String> { state: SlotState::Unresolved, attempts: 0 }),
            resolver@.ffmpeg == (SlotModel::<Option<String>> {
                state: SlotState::Unresolved,
                attempts: 0,
            }),
    {
        ToolResolver { yt_dlp: Slot::new(), ffmpeg: Slot::new() }
    }

    /// Reports the outcome of the extractor's acquisition. Returns whether
    /// an acquisition was under way; if none was, nothing changes.
    pub fn finish_yt_dlp(&mut self, outcome: Result<String, AcquisitionError>) -> (accepted: bool)
        ensures
            final(self)@.yt_dlp == completed(old(self)@.yt_dlp, outcome),
            final(self)@.ffmpeg == old(self)@.ffmpeg,
            accepted == (old(self)@.yt_dlp.state is Resolving),
    {
        self.yt_dlp.complete(outcome)
    }

    /// Reports the outcome of the transcoder's acquisition. Returns whether
    /// an acquisition was under way; if none was, nothing changes.
    pub fn finish_ffmpeg(
        &mut self,
        outcome: Result<Option<String>, AcquisitionError>,
    ) -> (accepted: bool)
        ensures
            final(self)@.ffmpeg == completed(old(self)@.ffmpeg, outcome),
            final(self)@.yt_dlp == old(self)@.yt_dlp,
            accepted == (old(self)@.ffmpeg.state is Resolving),
    {
        self.ffmpeg.complete(outcome)
    }

    /// The failure of the extractor's last attempt, until the next request.
    pub fn yt_dlp_failure(&self) -> (error: Option<&AcquisitionError>)
        ensures
            match self@.yt_dlp.state {
                SlotState::Failed(e) => error == Some(&e),
                _ => error is None,
            },
    {
        self.yt_dlp.failure()
    }

    /// The failure of the transcoder's last attempt, until the next request.
    pub fn ffmpeg_failure(&self) -> (error: Option<&AcquisitionError>)
        ensures
            match self@.ffmpeg.state {
                SlotState::Failed(e) => error == Some(&e),
                _ => error is None,
            },
    {
        self.ffmpeg.failure()
    }

    /// How many acquisitions of the extractor have been started.
    pub fn yt_dlp_attempts(&self) -> (n: u64)
        ensures
            n == self@.yt_dlp.attempts,
    {
        self.yt_dlp.attempts()
    }

    /// How many acquisitions of the transcoder have been started.
    pub fn ffmpeg_attempts(&self) -> (n: u64)
        ensures
            n == self@.ffmpeg.attempts,
    {
        self.ffmpeg.attempts()
    }
}

/// Asks for the extractor's path on behalf of one caller.
///
/// A resolved path is handed out as it was memoized. Otherwise the first
/// caller is told to acquire the extractor, and callers that arrive before
/// its report are told to wait.
pub fn yt_dlp_path(resolver: &mut ToolResolver) -> (lookup: Lookup<String>)
    ensures
        (final(resolver)@.yt_dlp, lookup.decision()) == requested(old(resolver)@.yt_dlp),
        final(resolver)@.ffmpeg == old(resolver)@.ffmpeg,
        lookup matches Lookup::Ready(path) ==> old(resolver)@.yt_dlp.state == SlotState::Resolved(
            path,
        ),
{
    match resolver.yt_dlp.request() {
        Decision::Ready => match resolver.yt_dlp.value() {
            Some(path) => Lookup::Ready(path.clone()),
            None => unreached(),
        },
        Decision::Acquire => Lookup::Acquire,
        Decision::Wait => Lookup::Wait,
    }
}

/// Asks for the transcoder's path on behalf of one caller.
///
/// The memoized answer may be `None`: the transcoder was looked for and is
/// not to be had, which is no failure and is not looked into again.
pub fn ffmpeg_path(resolver: &mut ToolResolver) -> (lookup: Lookup<Option<String>>)
    ensures
        (final(resolver)@.ffmpeg, lookup.decision()) == requested(old(resolver)@.ffmpeg),
        final(resolver)@.yt_dlp == old(resolver)@.yt_dlp,
        lookup matches Lookup::Ready(answer) ==> old(resolver)@.ffmpeg.state
            == SlotState::Resolved(answer),
{
    match resolver.ffmpeg.request() {
        Decision::Ready => match resolver.ffmpeg.value() {
            Some(Some(path)) => Lookup::Ready(Some(path.clone())),
            Some(None) => Lookup::Ready(None),
            None => unreached(),
        },
        Decision::Acquire => Lookup::Acquire,
        Decision::Wait => Lookup::Wait,
    }
}

/// The extractor's acquisition after the events of a run: the state, and
/// the action issued last.
pub open spec fn yt_dlp_run(events: Seq<EventModel>, posix: bool) -> (YtDlpModel, ActionModel)
    decreases events.len(),
{
    if events.len() == 0 {
        yt_dlp_start()
    } else {
        yt_dlp_step(yt_dlp_run(events.drop_last(), posix).0, events.last(), posix)
    }
}

/// The transcoder's acquisition after the events of a run: the state, and
/// the action issued last.
pub open spec fn ffmpeg_run(events: Seq<EventModel>, posix: bool) -> (FfmpegModel, ActionModel)
    decreases events.len(),
{
    if events.len() == 0 {
        ffmpeg_start()
    } else {
        ffmpeg_step(ffmpeg_run(events.drop_last(), posix).0, events.last(), posix)
    }
}

/// The action puts a file at `path`, or replaces the one there.
pub open spec fn writes_to(action: ActionModel, path: Seq<char>) -> bool {
    match action {
        ActionModel::Download { to, .. } => to == path,
        ActionModel::Write { to, .. } => to == path,
        ActionModel::Rename { to, .. } => to == path,
        _ => false,
    }
}

/// The action reaches out to the network.
pub open spec fn uses_network(action: ActionModel) -> bool {
    action is Download || action is Fetch
}

/// A tool that is found at its place is taken as it is: whatever events
/// follow, the run ends with the path that was reported, and every action
/// after the first is `Stop`. Nothing is fetched.
pub proof fn law_installed_tool_needs_no_fetch(
    events: Seq<EventModel>,
    path: Seq<char>,
    posix: bool,
)
    requires
        events.len() >= 1,
        events[0] == (EventModel::Located { path, exists: true }),
    ensures
        yt_dlp_run(events, posix) == (YtDlpModel::Finished(Ok(path)), ActionModel::Stop),
        ffmpeg_run(events, posix) == (FfmpegModel::Finished(Ok(Some(path))), ActionModel::Stop),
        !uses_network(yt_dlp_run(Seq::empty(), posix).1),
        !uses_network(ffmpeg_run(Seq::empty(), posix).1),
    decreases events.len(),
{
    reveal_with_fuel(yt_dlp_run, 2);
    reveal_with_fuel(ffmpeg_run, 2);
    if events.len() == 1 {
        assert(events.drop_last().len() == 0);
        assert(events.last() == events[0]);
    } else {
        assert(events.drop_last()[0] == events[0]);
        law_installed_tool_needs_no_fetch(events.drop_last(), path, posix);
    }
}

/// Where the extractor's download fails, the acquisition fails with a
/// network error, and no action of the run puts a file at the extractor's
/// place: the download went to the staging file, which is removed.
///
/// The events are any beginning of such a run, so the claim holds of every
/// action in it.
pub proof fn law_failed_download_leaves_no_file(
    events: Seq<EventModel>,
    path: Seq<char>,
    posix: bool,
)
    requires
        events.len() >= 1 ==> events[0] == (EventModel::Located { path, exists: false }),
        events.len() >= 2 ==> events[1] is Failed || events[1] == (EventModel::Exited {
            success: false,
        }),
    ensures
        !writes_to(yt_dlp_run(events, posix).1, path),
        !(yt_dlp_run(events, posix).0 matches YtDlpModel::Finished(Ok(_))),
        events.len() >= 2 ==> match yt_dlp_run(events, posix).0 {
            YtDlpModel::Discarding { error } => error.kind == ErrorKind::Network,
            YtDlpModel::Finished(Err(error)) => error.kind == ErrorKind::Network,
            _ => false,
        },
        events.len() == 2 ==> yt_dlp_run(events, posix).1 == (ActionModel::Remove {
            path: staging_of(path),
        }),
        events.len() >= 3 && (events[2] is Completed || events[2] is Failed) ==> yt_dlp_run(
            events,
            posix,
        ).0 is Finished,
    decreases events.len(),
{
    lemma_staging_differs(path);
    reveal_with_fuel(yt_dlp_run, 3);
    if events.len() == 0 {
    } else if events.len() == 1 {
        assert(events.drop_last().len() == 0);
        assert(events.last() == events[0]);
    } else {
        let before = events.drop_last();
        assert(before[0] == events[0]);
        if events.len() == 2 {
            assert(events.last() == events[1]);
            assert(before.drop_last().len() == 0);
            assert(before.last() == events[0]);
            assert(yt_dlp_run(before, posix).0 == (YtDlpModel::Fetching { path }));
        } else {
            assert(before[1] == events[1]);
            if events.len() == 3 {
                assert(events.last() == events[2]);
            } else {
                assert(before[2] == events[2]);
            }
            law_failed_download_leaves_no_file(before, path, posix);
        }
    }
}

/// A file is put at the extractor's place by one action alone: the rename
/// of the staging file, issued when the download into it has ended with
/// success. The download itself goes to the staging file.
pub proof fn law_place_is_written_once_complete(state: YtDlpModel, event: EventModel, posix: bool)
    ensures
        match yt_dlp_step(state, event, posix).1 {
            ActionModel::Rename { from, to } => {
                &&& state == (YtDlpModel::Fetching { path: to })
                &&& event == (EventModel::Exited { success: true })
                &&& from == staging_of(to)
            },
            ActionModel::Download { url, to } => {
                &&& state is Locating
                &&& event matches EventModel::Located { path, exists }
                &&& !exists
                &&& to == staging_of(path)
                &&& to != path
            },
            ActionModel::Write { .. } | ActionModel::Fetch { .. } | ActionModel::Locate { .. } => {
                false
            },
            _ => true,
        },
{
    if let EventModel::Located { path, exists } = event {
        lemma_staging_differs(path);
    }
}

/// The transcoder's bytes reach its place by the rename of the staging
/// file alone, issued when they have been written there in full.
pub proof fn law_transcoder_is_written_once_complete(
    state: FfmpegModel,
    event: EventModel,
    posix: bool,
)
    ensures
        match ffmpeg_step(state, event, posix).1 {
            ActionModel::Rename { from, to } => {
                &&& state == (FfmpegModel::Writing { path: to })
                &&& event is Completed
                &&& from == staging_of(to)
            },
            ActionModel::Write { to, data } => {
                &&& state matches FfmpegModel::Fetching { path }
                &&& event matches EventModel::Body { bytes }
                &&& to == staging_of(path)
                &&& to != path
                &&& unpacked(zip_entries(bytes), FFMPEG_NAME@) == Ok::<_, ErrorKind>(Some(data))
            },
            ActionModel::Download { .. } | ActionModel::Locate { .. } => false,
            _ => true,
        },
{
    if let FfmpegModel::Fetching { path } = state {
        lemma_staging_differs(path);
    }
}

/// On a platform that keeps an execute permission, a tool that had to be
/// fetched is handed out only after it has been made executable: an
/// acquisition succeeds in a step either because the tool was found at its
/// place, or because the grant was carried out. The grant is asked for the
/// tool's own path.
pub proof fn law_fetched_tool_is_made_executable(
    extractor: YtDlpModel,
    transcoder: FfmpegModel,
    event: EventModel,
)
    ensures
        yt_dlp_step(extractor, event, true).0 matches YtDlpModel::Finished(Ok(path)) ==> {
            ||| extractor == YtDlpModel::Finished(Ok(path))
            ||| extractor is Locating && event == (EventModel::Located { path, exists: true })
            ||| extractor == (YtDlpModel::Granting { path }) && event is Completed
        },
        ffmpeg_step(transcoder, event, true).0 matches FfmpegModel::Finished(Ok(Some(path))) ==> {
            ||| transcoder == FfmpegModel::Finished(Ok(Some(path)))
            ||| transcoder is Locating && event == (EventModel::Located { path, exists: true })
            ||| transcoder == (FfmpegModel::Granting { path }) && event is Completed
        },
        yt_dlp_step(extractor, event, true).0 matches YtDlpModel::Granting { path } ==> {
            ||| extractor == (YtDlpModel::Granting { path })
            ||| yt_dlp_step(extractor, event, true).1 == (ActionModel::GrantExec { path })
        },
        ffmpeg_step(transcoder, event, true).0 matches FfmpegModel::Granting { path } ==> {
            ||| transcoder == (FfmpegModel::Granting { path })
            ||| ffmpeg_step(transcoder, event, true).1 == (ActionModel::GrantExec { path })
        },
{
}

/// An archive in which every entry can be opened and none has a name that
/// ends with the transcoder's yields `None`, not an error, and the
/// acquisition that is handed such an archive ends with `None`.
pub proof fn law_absent_transcoder_is_no_error(
    entries: Seq<EntryModel>,
    path: Seq<char>,
    bytes: Seq<u8>,
    posix: bool,
)
    requires
        forall|i: int| 0 <= i < entries.len() ==> !stops_scan(#[trigger] entries[i], FFMPEG_NAME@),
    ensures
        unpacked(Some(entries), FFMPEG_NAME@) == Ok::<Option<Seq<u8>>, ErrorKind>(None),
        zip_entries(bytes) == Some(entries) ==> ffmpeg_step(
            FfmpegModel::Fetching { path },
            EventModel::Body { bytes },
            posix,
        ) == (FfmpegModel::Finished(Ok(None)), ActionModel::Stop),
{
    lemma_scan_stops_first(entries, FFMPEG_NAME@, 0);
}

/// Once an acquisition is over, no event changes its outcome, and nothing
/// more is asked for.
pub proof fn law_finished_is_final(
    extractor: YtDlpModel,
    transcoder: FfmpegModel,
    event: EventModel,
    posix: bool,
)
    requires
        extractor is Finished,
        transcoder is Finished,
    ensures
        yt_dlp_step(extractor, event, posix) == (extractor, ActionModel::Stop),
        ffmpeg_step(transcoder, event, posix) == (transcoder, ActionModel::Stop),
{
}

/// Some action of the extractor's run asks for `path` to be made
/// executable.
pub open spec fn yt_dlp_grant_asked(events: Seq<EventModel>, path: Seq<char>) -> bool {
    exists|k: int|
        0 <= k <= events.len() && (#[trigger] yt_dlp_run(events.take(k), true)).1 == (
            ActionModel::GrantExec { path }
        )
}

/// Some action of the transcoder's run asks for `path` to be made
/// executable.
pub open spec fn ffmpeg_grant_asked(events: Seq<EventModel>, path: Seq<char>) -> bool {
    exists|k: int|
        0 <= k <= events.len() && (#[trigger] ffmpeg_run(events.take(k), true)).1 == (
            ActionModel::GrantExec { path }
        )
}

/// What holds throughout a run that began with the tool missing: the run
/// stays with the one path, and it is past the grant only if the grant was
/// asked for.
proof fn lemma_yt_dlp_run_keeps_path(events: Seq<EventModel>, path: Seq<char>)
    requires
        events.len() >= 1,
        events[0] == (EventModel::Located { path, exists: false }),
    ensures
        match yt_dlp_run(events, true).0 {
            YtDlpModel::Locating => false,
            YtDlpModel::Fetching { path: p } => p == path,
            YtDlpModel::Installing { path: p } => p == path,
            YtDlpModel::Granting { path: p } => p == path && yt_dlp_grant_asked(events, path),
            YtDlpModel::Finished(Ok(p)) => p == path && yt_dlp_grant_asked(events, path),
            _ => true,
        },
    decreases events.len(),
{
    reveal_with_fuel(yt_dlp_run, 2);
    let before = events.drop_last();
    if events.len() == 1 {
        assert(before.len() == 0);
        assert(events.last() == events[0]);
    } else {
        assert(before[0] == events[0]);
        lemma_yt_dlp_run_keeps_path(before, path);
        let now = yt_dlp_run(events, true);
        if now.1 == (ActionModel::GrantExec { path }) {
            assert(events.take(events.len() as int) == events);
        } else if yt_dlp_grant_asked(before, path) {
            let k = choose|k: int|
                0 <= k <= before.len() && (#[trigger] yt_dlp_run(before.take(k), true)).1 == (
                    ActionModel::GrantExec { path }
                );
            assert(events.take(k) == before.take(k));
        }
    }
}

/// The transcoder's run, likewise.
proof fn lemma_ffmpeg_run_keeps_path(events: Seq<EventModel>, path: Seq<char>)
    requires
        events.len() >= 1,
        events[0] == (EventModel::Located { path, exists: false }),
    ensures
        match ffmpeg_run(events, true).0 {
            FfmpegModel::Locating => false,
            FfmpegModel::Fetching { path: p } => p == path,
            FfmpegModel::Writing { path: p } => p == path,
            FfmpegModel::Installing { path: p } => p == path,
            FfmpegModel::Granting { path: p } => p == path && ffmpeg_grant_asked(events, path),
            FfmpegModel::Finished(Ok(Some(p))) => p == path && ffmpeg_grant_asked(events, path),
            _ => true,
        },
    decreases events.len(),
{
    reveal_with_fuel(ffmpeg_run, 2);
    let before = events.drop_last();
    if events.len() == 1 {
        assert(before.len() == 0);
        assert(events.last() == events[0]);
    } else {
        assert(before[0] == events[0]);
        lemma_ffmpeg_run_keeps_path(before, path);
        let now = ffmpeg_run(events, true);
        if now.1 == (ActionModel::GrantExec { path }) {
            assert(events.take(events.len() as int) == events);
        } else if ffmpeg_grant_asked(before, path) {
            let k = choose|k: int|
                0 <= k <= before.len() && (#[trigger] ffmpeg_run(before.take(k), true)).1 == (
                    ActionModel::GrantExec { path }
                );
            assert(events.take(k) == before.take(k));
        }
    }
}

/// On a platform that keeps an execute permission, a run that found the
/// tool missing and ends with its path has asked for that very path to be
/// made executable, whatever the events in between.
pub proof fn law_fetched_tool_was_granted(events: Seq<EventModel>, path: Seq<char>)
    requires
        events.len() >= 1,
        events[0] == (EventModel::Located { path, exists: false }),
    ensures
        yt_dlp_run(events, true).0 matches YtDlpModel::Finished(Ok(p)) ==> p == path
            && yt_dlp_grant_asked(events, path),
        ffmpeg_run(events, true).0 matches FfmpegModel::Finished(Ok(Some(p))) ==> p == path
            && ffmpeg_grant_asked(events, path),
{
    lemma_yt_dlp_run_keeps_path(events, path);
    lemma_ffmpeg_run_keeps_path(events, path);
}

} // verus!
