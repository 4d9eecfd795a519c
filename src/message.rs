use vstd::prelude::*;
use crate::caption::CaptionTrack;
use crate::format::FormatListItem;

verus! {

/// The metadata fetched for one video.
#[derive(Debug)]
pub struct VideoInfo {
    pub id: String,
    pub title: String,
    pub channel: String,
    pub channel_id: String,
    pub description: String,
    pub tags: Vec<String>,
    pub categories: Vec<String>,
    /// Where the thumbnail is found; its extension names the saved file's.
    pub thumbnail: String,
    /// Every rendition, in the order the host lists them.
    pub formats: Vec<FormatListItem>,
    /// The host's suggested video rendition.
    pub best_video: Option<FormatListItem>,
    /// The host's suggested audio rendition.
    pub best_audio: Option<FormatListItem>,
    /// The automatic caption tracks, each under its language tag.
    pub captions: Vec<CaptionTrack>,
}

/// Two metadata records hold the same values.
pub open spec fn same_info(a: VideoInfo, b: VideoInfo) -> bool {
    &&& a.id == b.id
    &&& a.title == b.title
    &&& a.channel == b.channel
    &&& a.channel_id == b.channel_id
    &&& a.description == b.description
    &&& a.tags@ == b.tags@
    &&& a.categories@ == b.categories@
    &&& a.thumbnail == b.thumbnail
    &&& a.formats@ == b.formats@
    &&& a.best_video == b.best_video
    &&& a.best_audio == b.best_audio
    &&& a.captions@ == b.captions@
}

fn copy_strings(v: &Vec<String>) -> (r: Vec<String>)
    ensures
        r@ == v@,
{
    let mut r: Vec<String> = Vec::new();
    let mut i: usize = 0;
    while i < v.len()
        invariant
            i <= v@.len(),
            r@ == v@.subrange(0, i as int),
        decreases v.len() - i,
    {
        r.push(v[i].clone());
        assert(v@.subrange(0, i + 1) =~= v@.subrange(0, i as int).push(v@[i as int]));
        i += 1;
    }
    assert(v@.subrange(0, v@.len() as int) =~= v@);
    r
}

fn copy_formats(v: &Vec<FormatListItem>) -> (r: Vec<FormatListItem>)
    ensures
        r@ == v@,
{
    let mut r: Vec<FormatListItem> = Vec::new();
    let mut i: usize = 0;
    while i < v.len()
        invariant
            i <= v@.len(),
            r@ == v@.subrange(0, i as int),
        decreases v.len() - i,
    {
        r.push(v[i].clone());
        assert(v@.subrange(0, i + 1) =~= v@.subrange(0, i as int).push(v@[i as int]));
        i += 1;
    }
    assert(v@.subrange(0, v@.len() as int) =~= v@);
    r
}

fn copy_tracks(v: &Vec<CaptionTrack>) -> (r: Vec<CaptionTrack>)
    ensures
        r@ == v@,
{
    let mut r: Vec<CaptionTrack> = Vec::new();
    let mut i: usize = 0;
    while i < v.len()
        invariant
            i <= v@.len(),
            r@ == v@.subrange(0, i as int),
        decreases v.len() - i,
    {
        r.push(v[i].clone());
        assert(v@.subrange(0, i + 1) =~= v@.subrange(0, i as int).push(v@[i as int]));
        i += 1;
    }
    assert(v@.subrange(0, v@.len() as int) =~= v@);
    r
}

fn copy_format_opt(f: &Option<FormatListItem>) -> (r: Option<FormatListItem>)
    ensures
        r == *f,
{
    match f {
        Some(x) => Some(x.clone()),
        None => None,
    }
}

impl Clone for VideoInfo {
    fn clone(&self) -> (r: Self)
        ensures
            same_info(r, *self),
    {
        VideoInfo {
            id: self.id.clone(),
            title: self.title.clone(),
            channel: self.channel.clone(),
            channel_id: self.channel_id.clone(),
            description: self.description.clone(),
            tags: copy_strings(&self.tags),
            categories: copy_strings(&self.categories),
            thumbnail: self.thumbnail.clone(),
            formats: copy_formats(&self.formats),
            best_video: copy_format_opt(&self.best_video),
            best_audio: copy_format_opt(&self.best_audio),
            captions: copy_tracks(&self.captions),
        }
    }
}

/// What travels on the bus: commands from the interactive side to the
/// worker, events back, and the interactive side's own notifications.
#[derive(Debug, Clone)]
pub enum Message {
    Number(i32),
    StatusMessage(String),
    Disabled(bool),
    InstallLibraries,
    LibrariesInstalled,
    UpdateLibraries,
    LibrariesUpdated,
    UIUpdated,
    UrlChanged(String),
    FetchInfo,
    InfoFetched(VideoInfo),
    FetchThumbnail,
    ThumbnailFetched(Option<String>),
    DownloadVideo,
    VideoDownloaded(Option<String>),
    /// Bytes so far, and the whole percent done.
    ProgressUpdated(u64, u8),
    SelectAudioFormat(FormatListItem),
    SelectVideoFormat(FormatListItem),
}

} // verus!
