use vstd::prelude::*;
use crate::format::{
    audio_list, is_audio_pick, is_first_with_id, no_audio_pick, pick_lists, select_audio_format,
    select_video_format, video_list, FormatListItem,
};
use crate::message::Message;

verus! {

/// What the interactive side shows and remembers.
#[derive(Debug)]
pub struct DownloaderUIState {
    pub status_message: String,
    pub disabled: bool,
    pub executables_dir: String,
    pub output_dir: String,
    pub video_url: String,
    pub video_id: String,
    pub video_title: String,
    pub video_description: String,
    pub video_channel: String,
    pub video_channel_id: String,
    pub video_tags: Vec<String>,
    pub video_categories: Vec<String>,
    pub yt_dlp_version: String,
    pub thumbnail_path: Option<String>,
    pub video_path: Option<String>,
    pub show_download_button: bool,
    pub is_video_downloading: bool,
    pub is_video_downloaded: bool,
    pub video_size: u64,
    pub downloaded_size: u64,
    pub progress: u8,
    pub video_formats: Vec<FormatListItem>,
    pub format_selection_list_video: Vec<FormatListItem>,
    pub format_selection_list_audio: Vec<FormatListItem>,
    pub selected_format_video: Option<FormatListItem>,
    pub selected_format_audio: Option<FormatListItem>,
}

/// What handling a message asks of the surrounding loop.
#[derive(Debug)]
pub struct UpdateEffects {
    /// Commands to publish to the worker, in order.
    pub to_worker: Vec<Message>,
    /// A message to handle next.
    pub follow_up: Option<Message>,
}

/// The video default: the first listed rendition with the suggested id.
pub open spec fn video_default(list: Seq<FormatListItem>, best: Option<FormatListItem>) -> Option<
    FormatListItem,
> {
    match best {
        None => None,
        Some(b) => if exists|k: int| is_first_with_id(list, b.format_id@, k) {
            Some(list[choose|k: int| is_first_with_id(list, b.format_id@, k)])
        } else {
            None
        },
    }
}

/// The audio default: the earliest best-scoring listed rendition.
pub open spec fn audio_default(list: Seq<FormatListItem>, best: Option<FormatListItem>) -> Option<
    FormatListItem,
> {
    match best {
        None => None,
        Some(b) => if no_audio_pick(list, b) {
            None
        } else {
            Some(list[choose|k: int| is_audio_pick(list, b, k)])
        },
    }
}

/// The selection commands for the defaults that exist, video first.
pub open spec fn selection_commands(v: Option<FormatListItem>, a: Option<FormatListItem>) -> Seq<
    Message,
> {
    (match v {
        Some(x) => seq![Message::SelectVideoFormat(x)],
        None => seq![],
    }) + (match a {
        Some(x) => seq![Message::SelectAudioFormat(x)],
        None => seq![],
    })
}

proof fn lemma_first_with_id_unique(list: Seq<FormatListItem>, id: Seq<char>, k1: int, k2: int)
    requires
        is_first_with_id(list, id, k1),
        is_first_with_id(list, id, k2),
    ensures
        k1 == k2,
{
    if k1 < k2 {
        assert(list[k1].format_id@ != id);
    } else if k2 < k1 {
        assert(list[k2].format_id@ != id);
    }
}

proof fn lemma_audio_pick_unique(list: Seq<FormatListItem>, b: FormatListItem, k1: int, k2: int)
    requires
        is_audio_pick(list, b, k1),
        is_audio_pick(list, b, k2),
    ensures
        k1 == k2,
{
    if k1 < k2 {
        assert(crate::format::audio_score(list[k1], b) < crate::format::audio_score(list[k2], b));
        assert(crate::format::audio_score(list[k2], b) <= crate::format::audio_score(list[k1], b));
    } else if k2 < k1 {
        assert(crate::format::audio_score(list[k2], b) < crate::format::audio_score(list[k1], b));
        assert(crate::format::audio_score(list[k1], b) <= crate::format::audio_score(list[k2], b));
    }
}

/// On a tie for the top score in the audio pick-list, the interactive side's
/// default is the earlier candidate.
pub proof fn lemma_audio_default_tie_keeps_first(list: Seq<FormatListItem>, best: FormatListItem, i: int, j: int)
    requires
        0 <= i < j < list.len(),
        crate::format::audio_score(list[i], best) > 0,
        crate::format::audio_score(list[j], best) == crate::format::audio_score(list[i], best),
        forall|t: int|
            0 <= t < list.len() ==> crate::format::audio_score(#[trigger] list[t], best)
                <= crate::format::audio_score(list[i], best),
        forall|t: int|
            0 <= t < i ==> crate::format::audio_score(#[trigger] list[t], best)
                < crate::format::audio_score(list[i], best),
    ensures
        audio_default(list, Some(best)) == Some(list[i]),
{
    assert(is_audio_pick(list, best, i));
    assert(!no_audio_pick(list, best));
    let k = choose|k: int| is_audio_pick(list, best, k);
    crate::format::lemma_audio_tie_keeps_first(list, best, i, j, k);
}

fn video_default_of(list: &Vec<FormatListItem>, best: &Option<FormatListItem>) -> (r: Option<FormatListItem>)
    ensures
        r == video_default(list@, *best),
{
    match best {
        None => None,
        Some(b) => match select_video_format(list, &b.format_id) {
            Some(k) => {
                proof {
                    assert forall|j: int| is_first_with_id(list@, b.format_id@, j) implies j == k by {
                        lemma_first_with_id_unique(list@, b.format_id@, j, k as int);
                    }
                }
                Some(list[k].clone())
            },
            None => {
                assert(!exists|k: int| is_first_with_id(list@, b.format_id@, k));
                None
            },
        },
    }
}

fn audio_default_of(list: &Vec<FormatListItem>, best: &Option<FormatListItem>) -> (r: Option<FormatListItem>)
    ensures
        r == audio_default(list@, *best),
{
    match best {
        None => None,
        Some(b) => match select_audio_format(list, b) {
            Some(k) => {
                proof {
                    assert forall|j: int| is_audio_pick(list@, *b, j) implies j == k by {
                        lemma_audio_pick_unique(list@, *b, j, k as int);
                    }
                    assert(!no_audio_pick(list@, *b)) by {
                        assert(crate::format::audio_score(list@[k as int], *b) > 0);
                    }
                }
                Some(list[k].clone())
            },
            None => None,
        },
    }
}

fn no_effects() -> (r: UpdateEffects)
    ensures
        r.to_worker@.len() == 0,
        r.follow_up is None,
{
    UpdateEffects { to_worker: Vec::new(), follow_up: None }
}

fn send_only(m: Message) -> (r: UpdateEffects)
    ensures
        r.to_worker@ == seq![m],
        r.follow_up is None,
{
    let mut v: Vec<Message> = Vec::new();
    v.push(m);
    UpdateEffects { to_worker: v, follow_up: None }
}

/// The status text shown once a video is downloaded.
fn downloaded_text(path: &Option<String>) -> (r: String)
    ensures
        path matches Some(p) ==> r@ == "Video Downloaded to "@ + p@ + "."@,
        path is None ==> r@ == "Video Downloaded."@,
{
    match path {
        Some(p) => {
            let mut t = String::from_str("Video Downloaded to ");
            t.append(p.as_str());
            t.append(".");
            t
        },
        None => String::from_str("Video Downloaded."),
    }
}

impl Default for DownloaderUIState {
    fn default() -> (r: Self)
        ensures
            r.status_message@ == "Ready"@,
            !r.disabled,
            r.executables_dir@ == "libs"@,
            r.output_dir@ == "output"@,
            r.video_url@ == "https://www.youtube.com/watch?v=1A6uPztchXk"@,
            r.video_formats@.len() == 0,
            r.format_selection_list_video@.len() == 0,
            r.format_selection_list_audio@.len() == 0,
            r.selected_format_video is None,
            r.selected_format_audio is None,
            r.thumbnail_path is None,
            r.video_path is None,
            !r.show_download_button,
            !r.is_video_downloading,
            !r.is_video_downloaded,
            r.downloaded_size == 0,
            r.progress == 0,
    {
        DownloaderUIState {
            status_message: String::from_str("Ready"),
            disabled: false,
            executables_dir: String::from_str("libs"),
            output_dir: String::from_str("output"),
            video_url: String::from_str("https://www.youtube.com/watch?v=1A6uPztchXk"),
            video_id: String::new(),
            video_title: String::new(),
            video_description: String::new(),
            video_channel: String::new(),
            video_channel_id: String::new(),
            video_tags: Vec::new(),
            video_categories: Vec::new(),
            yt_dlp_version: String::new(),
            thumbnail_path: None,
            video_path: None,
            show_download_button: false,
            is_video_downloading: false,
            is_video_downloaded: false,
            video_size: 0,
            downloaded_size: 0,
            progress: 0,
            video_formats: Vec::new(),
            format_selection_list_video: Vec::new(),
            format_selection_list_audio: Vec::new(),
            selected_format_video: None,
            selected_format_audio: None,
        }
    }
}

/// Handle one message on the interactive side: update what is shown, and say
/// which commands go to the worker and what to handle next.
#[verifier::rlimit(40)]
pub fn update(downloader_ui_state: &mut DownloaderUIState, message: Message) -> (r: UpdateEffects)
    ensures
        ({
            let old_s = *old(downloader_ui_state);
            let s = *final(downloader_ui_state);
            &&& message matches Message::StatusMessage(t) ==> {
                &&& s == DownloaderUIState { status_message: t, ..old_s }
                &&& r.to_worker@.len() == 0 && r.follow_up is None
            }
            &&& message matches Message::Disabled(d) ==> {
                &&& s == DownloaderUIState { disabled: d, ..old_s }
                &&& r.to_worker@.len() == 0 && r.follow_up is None
            }
            &&& message is InstallLibraries ==> {
                &&& s == DownloaderUIState { status_message: s.status_message, disabled: true, ..old_s }
                &&& s.status_message@ == "Installing libraries..."@
                &&& r.to_worker@ == seq![Message::InstallLibraries] && r.follow_up is None
            }
            &&& message is LibrariesInstalled ==> {
                &&& s == DownloaderUIState { status_message: s.status_message, disabled: false, ..old_s }
                &&& s.status_message@ == "Libraries installed."@
                &&& r.to_worker@.len() == 0 && r.follow_up is None
            }
            &&& message is UpdateLibraries ==> {
                &&& s == DownloaderUIState { status_message: s.status_message, disabled: true, ..old_s }
                &&& s.status_message@ == "Updating libraries..."@
                &&& r.to_worker@ == seq![Message::UpdateLibraries] && r.follow_up is None
            }
            &&& message is LibrariesUpdated ==> {
                &&& s == DownloaderUIState { status_message: s.status_message, disabled: false, ..old_s }
                &&& s.status_message@ == "Libraries updated."@
                &&& r.to_worker@.len() == 0 && r.follow_up is None
            }
            &&& message matches Message::UrlChanged(url) ==> {
                &&& s == DownloaderUIState {
                    video_url: url,
                    disabled: false,
                    is_video_downloaded: false,
                    is_video_downloading: false,
                    ..old_s
                }
                &&& r.to_worker@ == seq![Message::UrlChanged(url)] && r.follow_up is None
            }
            &&& message is FetchInfo ==> {
                &&& s == DownloaderUIState {
                    status_message: s.status_message,
                    disabled: true,
                    video_id: s.video_id,
                    video_title: s.video_title,
                    video_channel: s.video_channel,
                    video_channel_id: s.video_channel_id,
                    video_description: s.video_description,
                    thumbnail_path: None,
                    ..old_s
                }
                &&& s.status_message@ == "Fetching Video Info..."@
                &&& s.video_id@.len() == 0 && s.video_title@.len() == 0
                &&& s.video_channel@.len() == 0 && s.video_channel_id@.len() == 0
                &&& s.video_description@.len() == 0
                &&& r.to_worker@ == seq![Message::FetchInfo] && r.follow_up is None
            }
            &&& message matches Message::InfoFetched(info) ==> {
                let vlist = video_list(info.formats@);
                let alist = audio_list(info.formats@);
                let v = video_default(vlist, info.best_video);
                let a = audio_default(alist, info.best_audio);
                &&& s == DownloaderUIState {
                    status_message: s.status_message,
                    disabled: false,
                    video_id: info.id,
                    video_title: info.title,
                    video_channel: info.channel,
                    video_channel_id: info.channel_id,
                    video_description: info.description,
                    video_formats: info.formats,
                    format_selection_list_video: s.format_selection_list_video,
                    format_selection_list_audio: s.format_selection_list_audio,
                    selected_format_video: if v is Some { v } else { old_s.selected_format_video },
                    selected_format_audio: if a is Some { a } else { old_s.selected_format_audio },
                    ..old_s
                }
                &&& s.status_message@ == "Video Info Fetched."@
                &&& s.format_selection_list_video@ == vlist
                &&& s.format_selection_list_audio@ == alist
                &&& r.to_worker@ == selection_commands(v, a)
                &&& r.follow_up == Some(Message::FetchThumbnail)
            }
            &&& message is FetchThumbnail ==> {
                &&& s == DownloaderUIState { status_message: s.status_message, disabled: true, ..old_s }
                &&& s.status_message@ == "Fetching Video Thumbnail..."@
                &&& r.to_worker@ == seq![Message::FetchThumbnail] && r.follow_up is None
            }
            &&& message matches Message::ThumbnailFetched(p) ==> {
                &&& s == DownloaderUIState {
                    status_message: s.status_message,
                    disabled: false,
                    thumbnail_path: p,
                    show_download_button: true,
                    ..old_s
                }
                &&& s.status_message@ == "Video Thumbnail Fetched."@
                &&& r.to_worker@.len() == 0 && r.follow_up is None
            }
            &&& message matches Message::SelectAudioFormat(f) ==> {
                &&& s == DownloaderUIState { selected_format_audio: Some(f), ..old_s }
                &&& r.to_worker@ == seq![Message::SelectAudioFormat(f)] && r.follow_up is None
            }
            &&& message matches Message::SelectVideoFormat(f) ==> {
                &&& s == DownloaderUIState { selected_format_video: Some(f), ..old_s }
                &&& r.to_worker@ == seq![Message::SelectVideoFormat(f)] && r.follow_up is None
            }
            &&& message is DownloadVideo ==> {
                &&& s == DownloaderUIState {
                    status_message: s.status_message,
                    disabled: true,
                    is_video_downloading: true,
                    ..old_s
                }
                &&& s.status_message@ == "Downloading Video..."@
                &&& r.to_worker@ == seq![Message::DownloadVideo] && r.follow_up is None
            }
            &&& message matches Message::VideoDownloaded(p) ==> {
                &&& s == DownloaderUIState {
                    status_message: s.status_message,
                    disabled: false,
                    video_path: p,
                    is_video_downloading: false,
                    is_video_downloaded: true,
                    ..old_s
                }
                &&& (p matches Some(path) ==> s.status_message@ == "Video Downloaded to "@ + path@ + "."@)
                &&& (p is None ==> s.status_message@ == "Video Downloaded."@)
                &&& r.to_worker@.len() == 0 && r.follow_up is None
            }
            &&& message matches Message::ProgressUpdated(d, pc) ==> {
                &&& s == DownloaderUIState { downloaded_size: d, progress: pc, ..old_s }
                &&& r.to_worker@.len() == 0 && r.follow_up is None
            }
            &&& (message is Number || message is UIUpdated) ==> {
                &&& s == old_s
                &&& r.to_worker@.len() == 0 && r.follow_up is None
            }
        }),
{
    let st = downloader_ui_state;
    match message {
        Message::StatusMessage(msg) => {
            st.status_message = msg;
            no_effects()
        },
        Message::Disabled(disabled) => {
            st.disabled = disabled;
            no_effects()
        },
        Message::InstallLibraries => {
            st.status_message = String::from_str("Installing libraries...");
            st.disabled = true;
            send_only(Message::InstallLibraries)
        },
        Message::LibrariesInstalled => {
            st.status_message = String::from_str("Libraries installed.");
            st.disabled = false;
            no_effects()
        },
        Message::UpdateLibraries => {
            st.status_message = String::from_str("Updating libraries...");
            st.disabled = true;
            send_only(Message::UpdateLibraries)
        },
        Message::LibrariesUpdated => {
            st.status_message = String::from_str("Libraries updated.");
            st.disabled = false;
            no_effects()
        },
        Message::UrlChanged(url) => {
            st.video_url = url.clone();
            st.disabled = false;
            st.is_video_downloaded = false;
            st.is_video_downloading = false;
            send_only(Message::UrlChanged(url))
        },
        Message::FetchInfo => {
            st.status_message = String::from_str("Fetching Video Info...");
            st.disabled = true;
            st.video_id = String::new();
            st.video_title = String::new();
            st.video_channel = String::new();
            st.video_channel_id = String::new();
            st.video_description = String::new();
            st.thumbnail_path = None;
            send_only(Message::FetchInfo)
        },
        Message::InfoFetched(video_info) => {
            st.status_message = String::from_str("Video Info Fetched.");
            st.disabled = false;
            let (videos, audios) = pick_lists(&video_info.formats);
            let v = video_default_of(&videos, &video_info.best_video);
            let a = audio_default_of(&audios, &video_info.best_audio);
            let mut to_worker: Vec<Message> = Vec::new();
            match v {
                Some(item) => {
                    st.selected_format_video = Some(item.clone());
                    to_worker.push(Message::SelectVideoFormat(item));
                },
                None => {},
            }
            match a {
                Some(item) => {
                    st.selected_format_audio = Some(item.clone());
                    to_worker.push(Message::SelectAudioFormat(item));
                },
                None => {},
            }
            assert(to_worker@ =~= selection_commands(v, a));
            st.video_id = video_info.id;
            st.video_title = video_info.title;
            st.video_channel = video_info.channel;
            st.video_channel_id = video_info.channel_id;
            st.video_description = video_info.description;
            st.video_formats = video_info.formats;
            st.format_selection_list_video = videos;
            st.format_selection_list_audio = audios;
            UpdateEffects { to_worker, follow_up: Some(Message::FetchThumbnail) }
        },
        Message::FetchThumbnail => {
            st.status_message = String::from_str("Fetching Video Thumbnail...");
            st.disabled = true;
            send_only(Message::FetchThumbnail)
        },
        Message::ThumbnailFetched(thumbnail_path) => {
            st.status_message = String::from_str("Video Thumbnail Fetched.");
            st.disabled = false;
            st.thumbnail_path = thumbnail_path;
            st.show_download_button = true;
            no_effects()
        },
        Message::SelectAudioFormat(format) => {
            st.selected_format_audio = Some(format.clone());
            send_only(Message::SelectAudioFormat(format))
        },
        Message::SelectVideoFormat(format) => {
            st.selected_format_video = Some(format.clone());
            send_only(Message::SelectVideoFormat(format))
        },
        Message::DownloadVideo => {
            st.is_video_downloading = true;
            st.status_message = String::from_str("Downloading Video...");
            st.disabled = true;
            send_only(Message::DownloadVideo)
        },
        Message::VideoDownloaded(video_path) => {
            st.status_message = downloaded_text(&video_path);
            st.disabled = false;
            st.video_path = video_path;
            st.is_video_downloading = false;
            st.is_video_downloaded = true;
            no_effects()
        },
        Message::ProgressUpdated(downloaded_size, progress) => {
            st.downloaded_size = downloaded_size;
            st.progress = progress;
            no_effects()
        },
        _ => no_effects(),
    }
}

} // verus!
