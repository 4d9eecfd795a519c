use youtube_downloader::format::{FormatKind, FormatListItem};
use youtube_downloader::message::{Message, VideoInfo};
use youtube_downloader::ui::{update, DownloaderUIState};

fn fmt(id: &str, note: &str, kind: FormatKind, codec: &str, ext: &str, q: i64) -> FormatListItem {
    FormatListItem {
        format_id: id.to_string(),
        format_note: note.to_string(),
        container: "webm".to_string(),
        audio_codec: codec.to_string(),
        audio_ext: ext.to_string(),
        video_codec: String::new(),
        video_ext: String::new(),
        width: 0,
        height: 0,
        fps_milli: 0,
        quality_milli: q,
        file_size: 0,
        kind,
    }
}

fn info() -> VideoInfo {
    let formats = vec![
        fmt("sb", "storyboard", FormatKind::Video, "", "", 0),
        fmt("137", "1080p", FormatKind::Video, "", "", 0),
        fmt("248", "1080p", FormatKind::Video, "", "", 0),
        fmt("140", "medium", FormatKind::Audio, "mp4a", "m4a", 3000),
        fmt("251", "medium", FormatKind::Audio, "opus", "webm", 3000),
    ];
    VideoInfo {
        id: "vid".to_string(),
        title: "Title".to_string(),
        channel: "Chan".to_string(),
        channel_id: "C1".to_string(),
        description: "D".to_string(),
        tags: Vec::new(),
        categories: Vec::new(),
        thumbnail: "t.jpg".to_string(),
        best_video: Some(formats[2].clone()),
        best_audio: Some(formats[4].clone()),
        formats,
        captions: Vec::new(),
    }
}

#[test]
fn ui_default_state() {
    let s = DownloaderUIState::default();
    assert_eq!(s.status_message, "Ready");
    assert!(!s.disabled);
    assert_eq!(s.output_dir, "output");
}

#[test]
fn ui_info_fetched_selects_defaults() {
    let mut s = DownloaderUIState::default();
    let fx = update(&mut s, Message::InfoFetched(info()));
    assert_eq!(s.status_message, "Video Info Fetched.");
    assert!(!s.disabled);
    assert_eq!(s.video_title, "Title");
    assert_eq!(s.video_channel_id, "C1");
    assert_eq!(s.format_selection_list_video.len(), 2);
    assert_eq!(s.format_selection_list_audio.len(), 2);
    assert_eq!(s.selected_format_video.as_ref().unwrap().format_id, "248");
    assert_eq!(s.selected_format_audio.as_ref().unwrap().format_id, "251");
    assert_eq!(fx.to_worker.len(), 2);
    match &fx.to_worker[0] {
        Message::SelectVideoFormat(f) => assert_eq!(f.format_id, "248"),
        other => panic!("unexpected {:?}", other),
    }
    match &fx.to_worker[1] {
        Message::SelectAudioFormat(f) => assert_eq!(f.format_id, "251"),
        other => panic!("unexpected {:?}", other),
    }
    assert!(matches!(fx.follow_up, Some(Message::FetchThumbnail)));
}

#[test]
fn ui_info_without_suggestions_selects_nothing() {
    let mut s = DownloaderUIState::default();
    let mut i = info();
    i.best_video = None;
    i.best_audio = None;
    let fx = update(&mut s, Message::InfoFetched(i));
    assert!(s.selected_format_video.is_none());
    assert!(s.selected_format_audio.is_none());
    assert!(fx.to_worker.is_empty());
}

#[test]
fn ui_commands_are_forwarded() {
    let mut s = DownloaderUIState::default();
    let fx = update(&mut s, Message::FetchInfo);
    assert_eq!(s.status_message, "Fetching Video Info...");
    assert!(s.disabled);
    assert!(matches!(fx.to_worker[..], [Message::FetchInfo]));
    let fx = update(&mut s, Message::UrlChanged("U".to_string()));
    assert_eq!(s.video_url, "U");
    assert!(!s.disabled);
    match &fx.to_worker[..] {
        [Message::UrlChanged(u)] => assert_eq!(u, "U"),
        other => panic!("unexpected {:?}", other),
    }
    let fx = update(&mut s, Message::InstallLibraries);
    assert_eq!(s.status_message, "Installing libraries...");
    assert!(matches!(fx.to_worker[..], [Message::InstallLibraries]));
    let fx = update(&mut s, Message::DownloadVideo);
    assert!(s.is_video_downloading);
    assert!(matches!(fx.to_worker[..], [Message::DownloadVideo]));
}

#[test]
fn ui_events_update_state() {
    let mut s = DownloaderUIState::default();
    update(&mut s, Message::ThumbnailFetched(Some("output/T.jpg".to_string())));
    assert!(s.show_download_button);
    assert_eq!(s.thumbnail_path.as_deref(), Some("output/T.jpg"));
    update(&mut s, Message::ProgressUpdated(2048, 42));
    assert_eq!(s.downloaded_size, 2048);
    assert_eq!(s.progress, 42);
    let fx = update(&mut s, Message::VideoDownloaded(Some("output/T.mp4".to_string())));
    assert!(fx.to_worker.is_empty());
    assert_eq!(s.status_message, "Video Downloaded to output/T.mp4.");
    assert!(s.is_video_downloaded);
    assert!(!s.is_video_downloading);
    update(&mut s, Message::StatusMessage("oops".to_string()));
    assert_eq!(s.status_message, "oops");
    update(&mut s, Message::LibrariesUpdated);
    assert_eq!(s.status_message, "Libraries updated.");
}

#[test]
fn ui_progress_and_selection_change_nothing_else() {
    let mut s = DownloaderUIState::default();
    update(&mut s, Message::UrlChanged("U".to_string()));
    update(&mut s, Message::DownloadVideo);
    update(&mut s, Message::ProgressUpdated(10, 1));
    assert_eq!(s.video_url, "U");
    assert!(s.is_video_downloading);
    assert_eq!(s.status_message, "Downloading Video...");
    let i = info();
    let f = i.formats[3].clone();
    update(&mut s, Message::SelectAudioFormat(f));
    assert_eq!(s.selected_format_audio.as_ref().unwrap().format_id, "140");
    assert_eq!(s.downloaded_size, 10);
    assert_eq!(s.progress, 1);
    assert!(s.disabled);
}
