use vstd::prelude::*;
use crate::caption::{caption_jobs, caption_plan, jobs_match, CaptionJob};
use crate::message::{same_info, Message, VideoInfo};
use crate::progress::{percent_done, progress_percentage};
use crate::sanitize::{sanitize_filename, sanitized};
use crate::text::{after_last_dot, contains_text, has_piece, last_extension};

verus! {

/// Where one video's lifecycle stands.
#[derive(Clone, Copy, Debug, PartialEq, Eq, Structural)]
pub enum Phase {
    Idle,
    FetchingMetadata,
    MetadataReady,
    FetchingThumbnail,
    ThumbnailReady,
    Downloading,
    Completed,
}

/// The metadata is at hand and no fetch is under way.
pub open spec fn has_metadata(p: Phase) -> bool {
    p == Phase::MetadataReady || p == Phase::ThumbnailReady || p == Phase::Completed
}

/// The thumbnail is at hand and no fetch is under way.
pub open spec fn thumbnail_ready(p: Phase) -> bool {
    p == Phase::ThumbnailReady || p == Phase::Completed
}

/// Outside work is under way; its outcome is owed before the next command.
pub open spec fn is_busy(p: Phase) -> bool {
    p == Phase::FetchingMetadata || p == Phase::FetchingThumbnail || p == Phase::Downloading
}

/// What the worker emits, by kind.
#[derive(Clone, Copy, Debug, PartialEq, Eq, Structural)]
pub enum EventKind {
    Nothing,
    Status,
    Info,
    Thumbnail,
    Video,
    Installed,
    Updated,
    Progress,
    Other,
}

/// The kind of a message.
pub open spec fn kind_of(m: Message) -> EventKind {
    match m {
        Message::StatusMessage(_) => EventKind::Status,
        Message::InfoFetched(_) => EventKind::Info,
        Message::ThumbnailFetched(_) => EventKind::Thumbnail,
        Message::VideoDownloaded(_) => EventKind::Video,
        Message::LibrariesInstalled => EventKind::Installed,
        Message::LibrariesUpdated => EventKind::Updated,
        Message::ProgressUpdated(_, _) => EventKind::Progress,
        _ => EventKind::Other,
    }
}

/// What the worker is to download, and where it goes.
#[derive(Debug)]
pub struct DownloadPlan {
    pub url: String,
    pub output_dir: String,
    pub file_name: String,
    pub video_format_id: Option<String>,
    pub audio_format_id: Option<String>,
    pub captions: Vec<CaptionJob>,
}

/// The outside work a command calls for.
#[derive(Debug)]
pub enum WorkerAction {
    /// The command is done.
    Nothing,
    /// The message is no command; it is logged and dropped.
    Unhandled,
    /// Publish this event; there is nothing else to do.
    Emit(Message),
    /// Install the helper executables into this directory.
    InstallLibraries(String),
    /// Update the helper executables in this directory.
    UpdateLibraries(String),
    /// Fetch the metadata of this URL.
    FetchMetadata(String),
    /// Save the thumbnail of `url` under `file_name`.
    FetchThumbnail { url: String, file_name: String },
    /// Download the video, then clean up and write the captions. A failed
    /// clean-up or caption fetch fails the whole download: a partial set of
    /// captions is never reported as success.
    Download(DownloadPlan),
}

/// The kind of event an action publishes at once.
pub open spec fn action_event(a: WorkerAction) -> EventKind {
    match a {
        WorkerAction::Emit(m) => kind_of(m),
        _ => EventKind::Nothing,
    }
}

/// Where the worker stands: the phase, and the phase that outside work under
/// way returns to when it fails (the phase itself while nothing is under way).
pub type Stage = (Phase, Phase);

/// The stage at rest in `p`.
pub open spec fn at_rest(p: Phase) -> Stage {
    (p, p)
}

/// The stage a command leads to.
pub open spec fn command_stage(s: Stage, m: Message) -> Stage {
    match m {
        Message::UrlChanged(_) => at_rest(Phase::Idle),
        Message::FetchInfo => (Phase::FetchingMetadata, s.0),
        Message::FetchThumbnail => if has_metadata(s.0) {
            (Phase::FetchingThumbnail, s.0)
        } else {
            s
        },
        Message::DownloadVideo => if thumbnail_ready(s.0) {
            (Phase::Downloading, s.0)
        } else {
            s
        },
        _ => s,
    }
}

/// The event a command publishes at once: a status where the session is not
/// ready for it.
pub open spec fn command_event(p: Phase, m: Message) -> EventKind {
    match m {
        Message::FetchThumbnail => if has_metadata(p) {
            EventKind::Nothing
        } else {
            EventKind::Status
        },
        Message::DownloadVideo => if thumbnail_ready(p) {
            EventKind::Nothing
        } else {
            EventKind::Status
        },
        _ => EventKind::Nothing,
    }
}

/// One input of the worker: a command, or the outcome of the outside work
/// that one started.
pub enum Step {
    Command(Message),
    Metadata(bool),
    Thumbnail(bool),
    Download(bool),
}

/// The stage after an outcome of the work under way in `busy`: at rest in
/// `done` on success, back where the work started on failure.
pub open spec fn outcome_stage(s: Stage, busy: Phase, ok: bool, done: Phase) -> Stage {
    if s.0 != busy {
        s
    } else if ok {
        at_rest(done)
    } else {
        at_rest(s.1)
    }
}

/// The stage after a step.
pub open spec fn step_stage(s: Stage, st: Step) -> Stage {
    match st {
        Step::Command(m) => command_stage(s, m),
        Step::Metadata(ok) => outcome_stage(s, Phase::FetchingMetadata, ok, Phase::MetadataReady),
        Step::Thumbnail(ok) => outcome_stage(s, Phase::FetchingThumbnail, ok, Phase::ThumbnailReady),
        Step::Download(ok) => outcome_stage(s, Phase::Downloading, ok, Phase::Completed),
    }
}

/// The event of an outcome of the work under way in `busy`.
pub open spec fn outcome_event(p: Phase, busy: Phase, ok: bool, success: EventKind) -> EventKind {
    if p != busy {
        EventKind::Nothing
    } else if ok {
        success
    } else {
        EventKind::Status
    }
}

/// The event a step publishes.
pub open spec fn step_event(p: Phase, st: Step) -> EventKind {
    match st {
        Step::Command(m) => command_event(p, m),
        Step::Metadata(ok) => outcome_event(p, Phase::FetchingMetadata, ok, EventKind::Info),
        Step::Thumbnail(ok) => outcome_event(p, Phase::FetchingThumbnail, ok, EventKind::Thumbnail),
        Step::Download(ok) => outcome_event(p, Phase::Downloading, ok, EventKind::Video),
    }
}

/// The events a run of steps publishes, in order.
pub open spec fn run_events(s: Stage, steps: Seq<Step>) -> Seq<EventKind>
    decreases steps.len(),
{
    if steps.len() == 0 {
        seq![]
    } else {
        let e = step_event(s.0, steps[0]);
        let rest = run_events(step_stage(s, steps[0]), steps.drop_first());
        if e == EventKind::Nothing {
            rest
        } else {
            seq![e] + rest
        }
    }
}

/// Changing the URL and fetching its metadata with success publishes exactly
/// one metadata event, before anything that follows, a thumbnail included.
pub proof fn lemma_info_before_thumbnail(s: Stage, url: String, rest: Seq<Step>)
    ensures
        run_events(
            s,
            seq![Step::Command(Message::UrlChanged(url)), Step::Command(Message::FetchInfo), Step::Metadata(true)]
                + rest,
        ) == seq![EventKind::Info] + run_events(at_rest(Phase::MetadataReady), rest),
{
    let steps = seq![Step::Command(Message::UrlChanged(url)), Step::Command(Message::FetchInfo), Step::Metadata(true)]
        + rest;
    let s1 = steps.drop_first();
    let s2 = s1.drop_first();
    assert(s1 =~= seq![Step::Command(Message::FetchInfo), Step::Metadata(true)] + rest);
    assert(s2 =~= seq![Step::Metadata(true)] + rest);
    assert(s2.drop_first() =~= rest);
    assert(steps[0] == Step::Command(Message::UrlChanged(url)));
    assert(s1[0] == Step::Command(Message::FetchInfo));
    assert(s2[0] == Step::Metadata(true));
    assert(run_events((Phase::FetchingMetadata, Phase::Idle), s2) == seq![EventKind::Info] + run_events(
        at_rest(Phase::MetadataReady),
        rest,
    ));
    assert(run_events(at_rest(Phase::Idle), s1) == run_events((Phase::FetchingMetadata, Phase::Idle), s2));
    assert(run_events(s, steps) == run_events(at_rest(Phase::Idle), s1));
}

/// A failed outside step returns the worker to the stage it was at rest in
/// before the command that started it.
pub proof fn lemma_failure_restores_stage(p: Phase, m: Message, outcome: Step)
    requires
        !is_busy(p),
        is_busy(command_stage(at_rest(p), m).0),
        outcome == Step::Metadata(false) || outcome == Step::Thumbnail(false) || outcome == Step::Download(false),
        outcome_matches(command_stage(at_rest(p), m).0, outcome),
    ensures
        step_stage(command_stage(at_rest(p), m), outcome) == at_rest(p),
{
}

/// A metadata request whose fetch fails leaves the session exactly as it was
/// before the request: metadata, stem, paths and selections included.
pub proof fn lemma_failed_fetch_keeps_session(before: VideoDownloader, during: VideoDownloader, after: VideoDownloader)
    requires
        before.wf(),
        !is_busy(before.phase),
        during == (VideoDownloader { phase: Phase::FetchingMetadata, resume_phase: before.phase, ..before }),
        after == (VideoDownloader { phase: during.resume_phase, ..during }),
    ensures
        after == before,
{
}

/// The outcome belongs to the work under way in `busy`.
pub open spec fn outcome_matches(busy: Phase, outcome: Step) -> bool {
    match outcome {
        Step::Metadata(_) => busy == Phase::FetchingMetadata,
        Step::Thumbnail(_) => busy == Phase::FetchingThumbnail,
        Step::Download(_) => busy == Phase::Downloading,
        Step::Command(_) => false,
    }
}

/// The outcome of a finished download.
#[derive(Debug)]
pub struct DownloadedVideoInfo {
    pub thumbnail_path: Option<String>,
    pub video_path: Option<String>,
}

/// One video's session, owned by the worker alone.
#[derive(Debug)]
pub struct VideoDownloader {
    pub executables_dir: String,
    pub output_dir: String,
    pub video_url: String,
    /// The sanitised title; empty until the metadata is fetched.
    pub output_file_name: String,
    pub video_info: Option<VideoInfo>,
    pub selected_video_format_id: Option<String>,
    pub selected_audio_format_id: Option<String>,
    pub thumbnail_path: Option<String>,
    pub video_path: Option<String>,
    pub phase: Phase,
    /// Where a failed fetch or download returns to; the phase itself while
    /// nothing is under way.
    pub resume_phase: Phase,
}

impl VideoDownloader {
    /// The stage the session is at.
    pub open spec fn stage(&self) -> Stage {
        (self.phase, self.resume_phase)
    }

    /// The metadata is held exactly when it has been fetched (during a
    /// re-fetch, exactly when the phase returned to on failure has it), the
    /// output stem is then the sanitised title, and work under way returns on
    /// failure to a phase at which it could start.
    pub open spec fn wf(&self) -> bool {
        &&& (!is_busy(self.phase) ==> self.resume_phase == self.phase)
        &&& (self.phase == Phase::FetchingMetadata ==> !is_busy(self.resume_phase))
        &&& (self.phase == Phase::FetchingThumbnail ==> has_metadata(self.resume_phase))
        &&& (self.phase == Phase::Downloading ==> thumbnail_ready(self.resume_phase))
        &&& (self.video_info is Some <==> (if self.phase == Phase::FetchingMetadata {
            self.resume_phase != Phase::Idle
        } else {
            self.phase != Phase::Idle
        }))
        &&& (self.video_info matches Some(i) ==> self.output_file_name@ == sanitized(i.title@))
    }

    /// A fresh session for `video_url`, with nothing fetched.
    pub fn new(executables_dir: &str, output_dir: &str, video_url: &str) -> (r: Self)
        ensures
            r.wf(),
            r.stage() == at_rest(Phase::Idle),
            r.executables_dir@ == executables_dir@,
            r.output_dir@ == output_dir@,
            r.video_url@ == video_url@,
            r.output_file_name@.len() == 0,
            r.video_info is None,
            r.selected_video_format_id is None,
            r.selected_audio_format_id is None,
            r.thumbnail_path is None,
            r.video_path is None,
    {
        VideoDownloader {
            executables_dir: String::from_str(executables_dir),
            output_dir: String::from_str(output_dir),
            video_url: String::from_str(video_url),
            output_file_name: String::new(),
            video_info: None,
            selected_video_format_id: None,
            selected_audio_format_id: None,
            thumbnail_path: None,
            video_path: None,
            phase: Phase::Idle,
            resume_phase: Phase::Idle,
        }
    }

    /// Forget what was fetched for the previous URL.
    fn clear_fetched(&mut self)
        ensures
            final(self).phase == old(self).phase,
            final(self).executables_dir == old(self).executables_dir,
            final(self).output_dir == old(self).output_dir,
            final(self).video_url == old(self).video_url,
            final(self).output_file_name@.len() == 0,
            final(self).video_info is None,
            final(self).selected_video_format_id is None,
            final(self).selected_audio_format_id is None,
            final(self).thumbnail_path is None,
            final(self).video_path is None,
    {
        self.output_file_name = String::new();
        self.video_info = None;
        self.selected_video_format_id = None;
        self.selected_audio_format_id = None;
        self.thumbnail_path = None;
        self.video_path = None;
    }

    /// The path the metadata dump is written to: `<output dir>/<stem>.txt`.
    pub fn info_file_path(&self) -> (r: String)
        ensures
            r@ == self.output_dir@ + "/"@ + self.output_file_name@ + ".txt"@,
    {
        let mut p = self.output_dir.clone();
        p.append("/");
        p.append(self.output_file_name.as_str());
        p.append(".txt");
        p
    }

    /// Decide what a received command calls for, and move the session on.
    pub fn handle_command(&mut self, msg: Message) -> (a: WorkerAction)
        requires
            old(self).wf(),
            !is_busy(old(self).phase),
        ensures
            final(self).wf(),
            final(self).stage() == command_stage(old(self).stage(), msg),
            action_event(a) == command_event(old(self).phase, msg),
            final(self).executables_dir == old(self).executables_dir,
            final(self).output_dir == old(self).output_dir,
            msg matches Message::UrlChanged(u) ==> {
                &&& final(self).video_url == u
                &&& final(self).video_info is None
                &&& final(self).output_file_name@.len() == 0
                &&& final(self).selected_video_format_id is None
                &&& final(self).selected_audio_format_id is None
                &&& final(self).thumbnail_path is None
                &&& final(self).video_path is None
                &&& a is Nothing
            },
            msg is FetchInfo ==> {
                &&& *final(self) == VideoDownloader {
                    phase: Phase::FetchingMetadata,
                    resume_phase: old(self).phase,
                    ..*old(self)
                }
                &&& a == WorkerAction::FetchMetadata(old(self).video_url)
            },
            msg is FetchThumbnail && has_metadata(old(self).phase) ==> {
                &&& *final(self) == VideoDownloader {
                    phase: Phase::FetchingThumbnail,
                    resume_phase: old(self).phase,
                    ..*old(self)
                }
                &&& a matches WorkerAction::FetchThumbnail { url, file_name } && url
                    == old(self).video_url && file_name@ == old(self).output_file_name@ + "."@
                    + after_last_dot(old(self).video_info->Some_0.thumbnail@)
            },
            msg is DownloadVideo && thumbnail_ready(old(self).phase) ==> {
                &&& *final(self) == VideoDownloader {
                    phase: Phase::Downloading,
                    resume_phase: old(self).phase,
                    ..*old(self)
                }
                &&& a matches WorkerAction::Download(plan) && plan.url == old(self).video_url
                    && plan.output_dir == old(self).output_dir && plan.file_name@
                    == old(self).output_file_name@ + ".mp4"@ && plan.video_format_id
                    == old(self).selected_video_format_id && plan.audio_format_id
                    == old(self).selected_audio_format_id && jobs_match(
                    plan.captions@,
                    caption_plan(
                        old(self).video_info->Some_0.captions@,
                        old(self).output_dir@,
                        old(self).output_file_name@,
                    ),
                )
            },
            msg is FetchThumbnail && !has_metadata(old(self).phase) ==> *final(self) == *old(self) && (a matches WorkerAction::Emit(
                Message::StatusMessage(t),
            ) && t@ == "Failed to fetch video thumbnail: no video info has been fetched"@),
            msg is DownloadVideo && !thumbnail_ready(old(self).phase) ==> *final(self) == *old(self) && (a matches WorkerAction::Emit(
                Message::StatusMessage(t),
            ) && t@ == "Failed to download video: the thumbnail has not been fetched"@),
            msg matches Message::SelectVideoFormat(f) ==> {
                &&& *final(self) == VideoDownloader { selected_video_format_id: Some(f.format_id), ..*old(self) }
                &&& a is Nothing
            },
            msg matches Message::SelectAudioFormat(f) ==> {
                &&& *final(self) == VideoDownloader { selected_audio_format_id: Some(f.format_id), ..*old(self) }
                &&& a is Nothing
            },
            msg is InstallLibraries ==> *final(self) == *old(self) && a == WorkerAction::InstallLibraries(
                old(self).executables_dir,
            ),
            msg is UpdateLibraries ==> *final(self) == *old(self) && a == WorkerAction::UpdateLibraries(
                old(self).executables_dir,
            ),
            msg is Number ==> *final(self) == *old(self) && a is Nothing,
            !(msg is UrlChanged || msg is FetchInfo || msg is FetchThumbnail || msg is DownloadVideo
                || msg is SelectVideoFormat || msg is SelectAudioFormat || msg is InstallLibraries
                || msg is UpdateLibraries || msg is Number) ==> a is Unhandled && *final(self)
                == *old(self),
    {
        match msg {
            Message::InstallLibraries => WorkerAction::InstallLibraries(self.executables_dir.clone()),
            Message::UpdateLibraries => WorkerAction::UpdateLibraries(self.executables_dir.clone()),
            Message::UrlChanged(url) => {
                change_video_url(self, url);
                WorkerAction::Nothing
            },
            Message::FetchInfo => {
                self.resume_phase = self.phase;
                self.phase = Phase::FetchingMetadata;
                WorkerAction::FetchMetadata(self.video_url.clone())
            },
            Message::FetchThumbnail => {
                if self.phase == Phase::MetadataReady || self.phase == Phase::ThumbnailReady
                    || self.phase == Phase::Completed {
                    let ext = match &self.video_info {
                        Some(info) => last_extension(info.thumbnail.as_str()),
                        None => String::new(),
                    };
                    let mut file_name = self.output_file_name.clone();
                    file_name.append(".");
                    file_name.append(ext.as_str());
                    self.resume_phase = self.phase;
                    self.phase = Phase::FetchingThumbnail;
                    WorkerAction::FetchThumbnail { url: self.video_url.clone(), file_name }
                } else {
                    WorkerAction::Emit(
                        Message::StatusMessage(
                            String::from_str(
                                "Failed to fetch video thumbnail: no video info has been fetched",
                            ),
                        ),
                    )
                }
            },
            Message::DownloadVideo => {
                if self.phase == Phase::ThumbnailReady || self.phase == Phase::Completed {
                    let captions = match &self.video_info {
                        Some(info) => caption_jobs(
                            &info.captions,
                            self.output_dir.as_str(),
                            self.output_file_name.as_str(),
                        ),
                        None => Vec::new(),
                    };
                    let mut file_name = self.output_file_name.clone();
                    file_name.append(".mp4");
                    self.resume_phase = self.phase;
                    self.phase = Phase::Downloading;
                    WorkerAction::Download(
                        DownloadPlan {
                            url: self.video_url.clone(),
                            output_dir: self.output_dir.clone(),
                            file_name,
                            video_format_id: copy_id(&self.selected_video_format_id),
                            audio_format_id: copy_id(&self.selected_audio_format_id),
                            captions,
                        },
                    )
                } else {
                    WorkerAction::Emit(
                        Message::StatusMessage(
                            String::from_str(
                                "Failed to download video: the thumbnail has not been fetched",
                            ),
                        ),
                    )
                }
            },
            Message::SelectVideoFormat(f) => {
                self.selected_video_format_id = Some(f.format_id);
                WorkerAction::Nothing
            },
            Message::SelectAudioFormat(f) => {
                self.selected_audio_format_id = Some(f.format_id);
                WorkerAction::Nothing
            },
            Message::Number(_) => WorkerAction::Nothing,
            _ => WorkerAction::Unhandled,
        }
    }

    /// Take in the outcome of a metadata fetch.
    pub fn finish_info(&mut self, fetched: Result<VideoInfo, String>) -> (r: Message)
        requires
            old(self).wf(),
            old(self).phase == Phase::FetchingMetadata,
        ensures
            final(self).wf(),
            final(self).stage() == step_stage(old(self).stage(), Step::Metadata(fetched is Ok)),
            kind_of(r) == step_event(old(self).phase, Step::Metadata(fetched is Ok)),
            final(self).video_url == old(self).video_url,
            final(self).executables_dir == old(self).executables_dir,
            final(self).output_dir == old(self).output_dir,
            fetched matches Ok(i) ==> {
                &&& *final(self) == VideoDownloader {
                    phase: Phase::MetadataReady,
                    resume_phase: Phase::MetadataReady,
                    video_info: Some(i),
                    output_file_name: final(self).output_file_name,
                    ..*old(self)
                }
                &&& final(self).output_file_name@ == sanitized(i.title@)
                &&& r matches Message::InfoFetched(j) && same_info(j, i)
            },
            fetched matches Err(e) ==> {
                &&& *final(self) == VideoDownloader { phase: old(self).resume_phase, ..*old(self) }
                &&& r matches Message::StatusMessage(t) && t@ == "Failed to fetch video info: "@ + e@
            },
    {
        match fetched {
            Ok(info) => {
                let event = Message::InfoFetched(info.clone());
                self.output_file_name = sanitize_filename(info.title.as_str());
                self.video_info = Some(info);
                self.phase = Phase::MetadataReady;
                self.resume_phase = Phase::MetadataReady;
                event
            },
            Err(e) => {
                self.phase = self.resume_phase;
                Message::StatusMessage(failure_text("Failed to fetch video info: ", &e))
            },
        }
    }

    /// Take in the outcome of a thumbnail fetch.
    pub fn finish_thumbnail(&mut self, fetched: Result<String, String>) -> (r: Message)
        requires
            old(self).wf(),
            old(self).phase == Phase::FetchingThumbnail,
        ensures
            final(self).wf(),
            final(self).stage() == step_stage(old(self).stage(), Step::Thumbnail(fetched is Ok)),
            kind_of(r) == step_event(old(self).phase, Step::Thumbnail(fetched is Ok)),
            final(self).video_info == old(self).video_info,
            final(self).output_file_name == old(self).output_file_name,
            fetched matches Ok(path) ==> {
                &&& *final(self) == VideoDownloader {
                    phase: Phase::ThumbnailReady,
                    resume_phase: Phase::ThumbnailReady,
                    thumbnail_path: Some(path),
                    ..*old(self)
                }
                &&& r == Message::ThumbnailFetched(Some(path))
            },
            fetched matches Err(e) ==> {
                &&& *final(self) == VideoDownloader { phase: old(self).resume_phase, ..*old(self) }
                &&& r matches Message::StatusMessage(t) && t@ == "Failed to fetch video thumbnail: "@ + e@
            },
    {
        match fetched {
            Ok(path) => {
                self.thumbnail_path = Some(path.clone());
                self.phase = Phase::ThumbnailReady;
                self.resume_phase = Phase::ThumbnailReady;
                Message::ThumbnailFetched(Some(path))
            },
            Err(e) => {
                self.phase = self.resume_phase;
                Message::StatusMessage(failure_text("Failed to fetch video thumbnail: ", &e))
            },
        }
    }

    /// Take in the outcome of a download.
    pub fn finish_download(&mut self, outcome: Result<String, String>) -> (r: Message)
        requires
            old(self).wf(),
            old(self).phase == Phase::Downloading,
        ensures
            final(self).wf(),
            final(self).stage() == step_stage(old(self).stage(), Step::Download(outcome is Ok)),
            kind_of(r) == step_event(old(self).phase, Step::Download(outcome is Ok)),
            final(self).video_info == old(self).video_info,
            final(self).output_file_name == old(self).output_file_name,
            final(self).thumbnail_path == old(self).thumbnail_path,
            outcome matches Ok(path) ==> {
                &&& *final(self) == VideoDownloader {
                    phase: Phase::Completed,
                    resume_phase: Phase::Completed,
                    video_path: Some(path),
                    ..*old(self)
                }
                &&& r == Message::VideoDownloaded(Some(path))
            },
            outcome matches Err(e) ==> {
                &&& *final(self) == VideoDownloader { phase: old(self).resume_phase, ..*old(self) }
                &&& r matches Message::StatusMessage(t) && t@ == "Failed to download video: "@ + e@
            },
    {
        match outcome {
            Ok(path) => {
                self.video_path = Some(path.clone());
                self.phase = Phase::Completed;
                self.resume_phase = Phase::Completed;
                Message::VideoDownloaded(Some(path))
            },
            Err(e) => {
                self.phase = self.resume_phase;
                Message::StatusMessage(failure_text("Failed to download video: ", &e))
            },
        }
    }
}

/// The default session: executables under `libs`, output under `output`.
impl Default for VideoDownloader {
    fn default() -> (r: Self)
        ensures
            r.wf(),
            r.stage() == at_rest(Phase::Idle),
            r.executables_dir@ == "libs"@,
            r.output_dir@ == "output"@,
            r.video_url@ == "https://www.youtube.com/watch?v=1A6uPztchXk"@,
            r.output_file_name@.len() == 0,
            r.video_info is None,
            r.selected_video_format_id is None,
            r.selected_audio_format_id is None,
            r.thumbnail_path is None,
            r.video_path is None,
    {
        VideoDownloader::new("libs", "output", "https://www.youtube.com/watch?v=1A6uPztchXk")
    }
}

fn copy_id(id: &Option<String>) -> (r: Option<String>)
    ensures
        r == *id,
{
    match id {
        Some(s) => Some(s.clone()),
        None => None,
    }
}

/// `prefix` followed by the error's text.
fn failure_text(prefix: &str, e: &String) -> (r: String)
    ensures
        r@ == prefix@ + e@,
{
    let mut t = String::from_str(prefix);
    t.append(e.as_str());
    t
}

/// Point the session at another URL and forget what was fetched for the
/// previous one.
pub fn change_video_url(video_downloader: &mut VideoDownloader, video_url: String)
    ensures
        final(video_downloader).wf(),
        final(video_downloader).stage() == at_rest(Phase::Idle),
        final(video_downloader).video_url == video_url,
        final(video_downloader).executables_dir == old(video_downloader).executables_dir,
        final(video_downloader).output_dir == old(video_downloader).output_dir,
        final(video_downloader).output_file_name@.len() == 0,
        final(video_downloader).video_info is None,
        final(video_downloader).selected_video_format_id is None,
        final(video_downloader).selected_audio_format_id is None,
        final(video_downloader).thumbnail_path is None,
        final(video_downloader).video_path is None,
{
    video_downloader.clear_fetched();
    video_downloader.video_url = video_url;
    video_downloader.phase = Phase::Idle;
    video_downloader.resume_phase = Phase::Idle;
}

/// The event for an install run.
pub fn finish_install(outcome: Result<(), String>) -> (r: Message)
    ensures
        outcome is Ok ==> r is LibrariesInstalled,
        outcome matches Err(e) ==> r matches Message::StatusMessage(t) && t@
            == "Failed to install libraries: "@ + e@,
{
    match outcome {
        Ok(()) => Message::LibrariesInstalled,
        Err(e) => Message::StatusMessage(failure_text("Failed to install libraries: ", &e)),
    }
}

/// The event for an update run.
pub fn finish_update(outcome: Result<(), String>) -> (r: Message)
    ensures
        outcome is Ok ==> r is LibrariesUpdated,
        outcome matches Err(e) ==> r matches Message::StatusMessage(t) && t@
            == "Failed to update libraries: "@ + e@,
{
    match outcome {
        Ok(()) => Message::LibrariesUpdated,
        Err(e) => Message::StatusMessage(failure_text("Failed to update libraries: ", &e)),
    }
}

/// The event for one progress sample of a transfer.
pub fn progress_event(downloaded: u64, total: u64) -> (r: Message)
    ensures
        r matches Message::ProgressUpdated(d, p) && d == downloaded && p as nat == percent_done(
            downloaded as nat,
            total as nat,
        ),
{
    Message::ProgressUpdated(downloaded, progress_percentage(downloaded, total))
}

/// An intermediate muxing file, removed from the output directory once the
/// download is done.
pub fn is_temp_artifact(file_name: &str) -> (r: bool)
    ensures
        r == (has_piece(file_name@, "temp_audio_"@) || has_piece(file_name@, "temp_video_"@)),
{
    contains_text(file_name, "temp_audio_") || contains_text(file_name, "temp_video_")
}

} // verus!
