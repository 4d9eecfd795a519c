use youtube_downloader::caption::CaptionTrack;
use youtube_downloader::format::{FormatKind, FormatListItem};
use youtube_downloader::message::{Message, VideoInfo};
use youtube_downloader::session::{
    change_video_url, finish_install, finish_update, is_temp_artifact, DownloadedVideoInfo, Phase,
    VideoDownloader, WorkerAction,
};

fn info(title: &str, thumbnail: &str) -> VideoInfo {
    VideoInfo {
        id: "abc".to_string(),
        title: title.to_string(),
        channel: "chan".to_string(),
        channel_id: "cid".to_string(),
        description: "desc".to_string(),
        tags: vec!["t".to_string()],
        categories: vec!["Music".to_string()],
        thumbnail: thumbnail.to_string(),
        formats: Vec::new(),
        best_video: None,
        best_audio: None,
        captions: vec![
            CaptionTrack { language: "en".to_string(), extension: "vtt".to_string(), url: "u1".to_string() },
            CaptionTrack { language: "fr".to_string(), extension: "vtt".to_string(), url: "u2".to_string() },
        ],
    }
}

fn audio(id: &str) -> FormatListItem {
    FormatListItem {
        format_id: id.to_string(),
        format_note: String::new(),
        container: String::new(),
        audio_codec: String::new(),
        audio_ext: String::new(),
        video_codec: String::new(),
        video_ext: String::new(),
        width: 0,
        height: 0,
        fps_milli: 0,
        quality_milli: 0,
        file_size: 0,
        kind: FormatKind::Audio,
    }
}

fn fetched_session() -> VideoDownloader {
    let mut s = VideoDownloader::new("libs", "output", "https://example.com/v");
    s.handle_command(Message::UrlChanged("X".to_string()));
    s.handle_command(Message::FetchInfo);
    s.finish_info(Ok(info("A: Title?", "https://i.example.com/vi/abc/maxres.webp")));
    s
}

#[test]
fn default_session_is_idle() {
    let s = VideoDownloader::default();
    assert_eq!(s.phase, Phase::Idle);
    assert_eq!(s.executables_dir, "libs");
    assert_eq!(s.output_dir, "output");
    assert!(s.video_info.is_none());
}

#[test]
fn url_change_then_fetch_info_emits_info_first() {
    let mut s = VideoDownloader::new("libs", "output", "old");
    let a = s.handle_command(Message::UrlChanged("X".to_string()));
    assert!(matches!(a, WorkerAction::Nothing));
    assert_eq!(s.video_url, "X");
    assert_eq!(s.phase, Phase::Idle);
    let a = s.handle_command(Message::FetchInfo);
    match a {
        WorkerAction::FetchMetadata(url) => assert_eq!(url, "X"),
        other => panic!("unexpected {:?}", other),
    }
    assert_eq!(s.phase, Phase::FetchingMetadata);
    let e = s.finish_info(Ok(info("A: Title?", "t.jpg")));
    match e {
        Message::InfoFetched(i) => {
            assert_eq!(i.title, "A: Title?");
            assert_eq!(i.captions.len(), 2);
        }
        other => panic!("unexpected {:?}", other),
    }
    assert_eq!(s.phase, Phase::MetadataReady);
    assert_eq!(s.output_file_name, "A Title");
    let a = s.handle_command(Message::FetchThumbnail);
    assert!(matches!(a, WorkerAction::FetchThumbnail { .. }));
    let e = s.finish_thumbnail(Ok("output/A Title.jpg".to_string()));
    match e {
        Message::ThumbnailFetched(Some(p)) => assert_eq!(p, "output/A Title.jpg"),
        other => panic!("unexpected {:?}", other),
    }
    assert_eq!(s.phase, Phase::ThumbnailReady);
}

#[test]
fn metadata_failure_reports_and_returns_to_idle() {
    let mut s = VideoDownloader::new("libs", "output", "X");
    s.handle_command(Message::FetchInfo);
    match s.finish_info(Err("network down".to_string())) {
        Message::StatusMessage(t) => assert_eq!(t, "Failed to fetch video info: network down"),
        other => panic!("unexpected {:?}", other),
    }
    assert_eq!(s.phase, Phase::Idle);
    assert!(s.video_info.is_none());
}

#[test]
fn thumbnail_file_name_uses_stem_and_extension() {
    let mut s = fetched_session();
    match s.handle_command(Message::FetchThumbnail) {
        WorkerAction::FetchThumbnail { url, file_name } => {
            assert_eq!(url, "X");
            assert_eq!(file_name, "A Title.webp");
        }
        other => panic!("unexpected {:?}", other),
    }
    assert_eq!(s.phase, Phase::FetchingThumbnail);
    match s.finish_thumbnail(Err("404".to_string())) {
        Message::StatusMessage(t) => assert_eq!(t, "Failed to fetch video thumbnail: 404"),
        other => panic!("unexpected {:?}", other),
    }
    assert_eq!(s.phase, Phase::MetadataReady);
}

#[test]
fn thumbnail_before_metadata_is_refused() {
    let mut s = VideoDownloader::new("libs", "output", "X");
    match s.handle_command(Message::FetchThumbnail) {
        WorkerAction::Emit(Message::StatusMessage(t)) => {
            assert_eq!(t, "Failed to fetch video thumbnail: no video info has been fetched")
        }
        other => panic!("unexpected {:?}", other),
    }
    assert_eq!(s.phase, Phase::Idle);
}

#[test]
fn download_before_thumbnail_is_refused() {
    let mut s = fetched_session();
    match s.handle_command(Message::DownloadVideo) {
        WorkerAction::Emit(Message::StatusMessage(t)) => {
            assert_eq!(t, "Failed to download video: the thumbnail has not been fetched")
        }
        other => panic!("unexpected {:?}", other),
    }
    assert_eq!(s.phase, Phase::MetadataReady);
}

#[test]
fn download_plan_and_completion() {
    let mut s = fetched_session();
    s.handle_command(Message::FetchThumbnail);
    s.finish_thumbnail(Ok("output/A Title.webp".to_string()));
    s.handle_command(Message::SelectAudioFormat(audio("251")));
    s.handle_command(Message::SelectVideoFormat(audio("137")));
    match s.handle_command(Message::DownloadVideo) {
        WorkerAction::Download(plan) => {
            assert_eq!(plan.url, "X");
            assert_eq!(plan.output_dir, "output");
            assert_eq!(plan.file_name, "A Title.mp4");
            assert_eq!(plan.video_format_id.as_deref(), Some("137"));
            assert_eq!(plan.audio_format_id.as_deref(), Some("251"));
            assert_eq!(plan.captions.len(), 1);
            assert_eq!(plan.captions[0].url, "u1");
            assert_eq!(plan.captions[0].path, "output/A Title.en.vtt");
        }
        other => panic!("unexpected {:?}", other),
    }
    assert_eq!(s.phase, Phase::Downloading);
    match s.finish_download(Ok("output/A Title.mp4".to_string())) {
        Message::VideoDownloaded(Some(p)) => assert_eq!(p, "output/A Title.mp4"),
        other => panic!("unexpected {:?}", other),
    }
    assert_eq!(s.phase, Phase::Completed);
    assert_eq!(s.video_path.as_deref(), Some("output/A Title.mp4"));
}

#[test]
fn download_failure_reports() {
    let mut s = fetched_session();
    s.handle_command(Message::FetchThumbnail);
    s.finish_thumbnail(Ok("p".to_string()));
    s.handle_command(Message::DownloadVideo);
    match s.finish_download(Err("disk full".to_string())) {
        Message::StatusMessage(t) => assert_eq!(t, "Failed to download video: disk full"),
        other => panic!("unexpected {:?}", other),
    }
    assert_eq!(s.phase, Phase::ThumbnailReady);
}

#[test]
fn url_change_resets_session() {
    let mut s = fetched_session();
    change_video_url(&mut s, "Y".to_string());
    assert_eq!(s.video_url, "Y");
    assert_eq!(s.phase, Phase::Idle);
    assert!(s.video_info.is_none());
    assert_eq!(s.output_file_name, "");
}

#[test]
fn library_commands_and_outcomes() {
    let mut s = VideoDownloader::new("bin", "out", "X");
    match s.handle_command(Message::InstallLibraries) {
        WorkerAction::InstallLibraries(d) => assert_eq!(d, "bin"),
        other => panic!("unexpected {:?}", other),
    }
    match s.handle_command(Message::UpdateLibraries) {
        WorkerAction::UpdateLibraries(d) => assert_eq!(d, "bin"),
        other => panic!("unexpected {:?}", other),
    }
    assert!(matches!(finish_install(Ok(())), Message::LibrariesInstalled));
    assert!(matches!(finish_update(Ok(())), Message::LibrariesUpdated));
    match finish_install(Err("no network".to_string())) {
        Message::StatusMessage(t) => assert_eq!(t, "Failed to install libraries: no network"),
        other => panic!("unexpected {:?}", other),
    }
    match finish_update(Err("x".to_string())) {
        Message::StatusMessage(t) => assert_eq!(t, "Failed to update libraries: x"),
        other => panic!("unexpected {:?}", other),
    }
}

#[test]
fn events_on_command_channel_are_unhandled() {
    let mut s = VideoDownloader::new("libs", "output", "X");
    assert!(matches!(s.handle_command(Message::LibrariesInstalled), WorkerAction::Unhandled));
    assert!(matches!(s.handle_command(Message::Number(3)), WorkerAction::Nothing));
    assert_eq!(s.phase, Phase::Idle);
}

#[test]
fn info_file_path_is_stem_txt() {
    let s = fetched_session();
    assert_eq!(s.info_file_path(), "output/A Title.txt");
}

#[test]
fn temp_artifacts_recognised() {
    assert!(is_temp_artifact("temp_audio_123.m4a"));
    assert!(is_temp_artifact("x.temp_video_9.webm"));
    assert!(!is_temp_artifact("temp_audi_.m4a"));
    assert!(!is_temp_artifact("My Video.mp4"));
}

#[test]
fn downloaded_video_info_holds_paths() {
    let d = DownloadedVideoInfo { thumbnail_path: Some("t.jpg".to_string()), video_path: None };
    assert_eq!(d.thumbnail_path.as_deref(), Some("t.jpg"));
    assert!(d.video_path.is_none());
}

#[test]
fn failed_thumbnail_keeps_session() {
    let mut s = fetched_session();
    s.handle_command(Message::SelectAudioFormat(audio("251")));
    s.handle_command(Message::FetchThumbnail);
    s.finish_thumbnail(Err("timeout".to_string()));
    assert_eq!(s.phase, Phase::MetadataReady);
    assert_eq!(s.video_url, "X");
    assert!(s.thumbnail_path.is_none());
    assert_eq!(s.selected_audio_format_id.as_deref(), Some("251"));
    assert_eq!(s.output_file_name, "A Title");
    s.handle_command(Message::FetchThumbnail);
    s.finish_thumbnail(Ok("p.webp".to_string()));
    assert_eq!(s.video_url, "X");
    assert_eq!(s.selected_audio_format_id.as_deref(), Some("251"));
    assert_eq!(s.thumbnail_path.as_deref(), Some("p.webp"));
}

#[test]
fn default_session_has_no_outputs() {
    let s = VideoDownloader::default();
    assert_eq!(s.output_file_name, "");
    assert!(s.thumbnail_path.is_none());
    assert!(s.video_path.is_none());
    assert!(s.selected_video_format_id.is_none());
    assert!(s.selected_audio_format_id.is_none());
}

#[test]
fn failed_refetch_keeps_metadata() {
    let mut s = fetched_session();
    s.handle_command(Message::FetchThumbnail);
    s.finish_thumbnail(Ok("output/A Title.webp".to_string()));
    s.handle_command(Message::SelectVideoFormat(audio("137")));
    match s.handle_command(Message::FetchInfo) {
        WorkerAction::FetchMetadata(url) => assert_eq!(url, "X"),
        other => panic!("unexpected {:?}", other),
    }
    match s.finish_info(Err("offline".to_string())) {
        Message::StatusMessage(t) => assert_eq!(t, "Failed to fetch video info: offline"),
        other => panic!("unexpected {:?}", other),
    }
    assert_eq!(s.phase, Phase::ThumbnailReady);
    assert_eq!(s.resume_phase, Phase::ThumbnailReady);
    assert_eq!(s.video_info.as_ref().unwrap().title, "A: Title?");
    assert_eq!(s.output_file_name, "A Title");
    assert_eq!(s.thumbnail_path.as_deref(), Some("output/A Title.webp"));
    assert_eq!(s.selected_video_format_id.as_deref(), Some("137"));
    assert!(matches!(s.handle_command(Message::DownloadVideo), WorkerAction::Download(_)));
}

#[test]
fn failed_thumbnail_after_download_stays_completed() {
    let mut s = fetched_session();
    s.handle_command(Message::FetchThumbnail);
    s.finish_thumbnail(Ok("t".to_string()));
    s.handle_command(Message::DownloadVideo);
    s.finish_download(Ok("v.mp4".to_string()));
    assert_eq!(s.phase, Phase::Completed);
    s.handle_command(Message::FetchThumbnail);
    assert_eq!(s.phase, Phase::FetchingThumbnail);
    s.finish_thumbnail(Err("gone".to_string()));
    assert_eq!(s.phase, Phase::Completed);
    assert_eq!(s.thumbnail_path.as_deref(), Some("t"));
    assert_eq!(s.video_path.as_deref(), Some("v.mp4"));
    assert!(matches!(s.handle_command(Message::DownloadVideo), WorkerAction::Download(_)));
    match s.finish_download(Err("disk".to_string())) {
        Message::StatusMessage(_) => {}
        other => panic!("unexpected {:?}", other),
    }
    assert_eq!(s.phase, Phase::Completed);
}
