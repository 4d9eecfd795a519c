use youtube_downloader::format::{
    audio_match_score, file_size_in_unit, SizeUnit, pick_lists, select_audio_format, select_video_format, FormatKind,
    FormatListItem,
};

fn item(id: &str, note: &str, kind: FormatKind, codec: &str, ext: &str, quality: i64) -> FormatListItem {
    FormatListItem {
        format_id: id.to_string(),
        format_note: note.to_string(),
        container: String::new(),
        audio_codec: codec.to_string(),
        audio_ext: ext.to_string(),
        video_codec: String::new(),
        video_ext: String::new(),
        width: 0,
        height: 0,
        fps_milli: 0,
        quality_milli: quality,
        file_size: 0,
        kind,
    }
}

fn best_audio() -> FormatListItem {
    item("251", "medium", FormatKind::Audio, "opus", "webm", 3000)
}

#[test]
fn score_counts_each_match() {
    let best = best_audio();
    assert_eq!(audio_match_score(&best, &best), 4);
    let original = item("140-1", "English original (default)", FormatKind::Audio, "mp4a", "m4a", 1000);
    assert_eq!(audio_match_score(&original, &best), 2);
    let nothing = item("9", "low", FormatKind::Audio, "aac", "m4a", 0);
    assert_eq!(audio_match_score(&nothing, &best), 0);
    let original_and_codec = item("250", "original", FormatKind::Audio, "opus", "webm", 3000);
    assert_eq!(audio_match_score(&original_and_codec, &best), 5);
    let everything = item("251", "original", FormatKind::Audio, "opus", "webm", 3000);
    assert_eq!(audio_match_score(&everything, &best), 6);
}

#[test]
fn audio_selector_prefers_highest_score() {
    let best = best_audio();
    let items = vec![
        item("140", "English original", FormatKind::Audio, "mp4a", "m4a", 1000),
        item("251", "medium", FormatKind::Audio, "opus", "webm", 3000),
    ];
    assert_eq!(audio_match_score(&items[0], &best), 2);
    assert_eq!(audio_match_score(&items[1], &best), 4);
    assert_eq!(select_audio_format(&items, &best), Some(1));
}

#[test]
fn audio_selector_tie_keeps_first() {
    let best = best_audio();
    let items = vec![
        item("1", "x", FormatKind::Audio, "opus", "m4a", 0),
        item("2", "y", FormatKind::Audio, "aac", "webm", 0),
        item("3", "z", FormatKind::Audio, "opus", "m4a", 0),
    ];
    assert_eq!(audio_match_score(&items[0], &best), 1);
    assert_eq!(audio_match_score(&items[1], &best), 1);
    assert_eq!(select_audio_format(&items, &best), Some(0));
}

#[test]
fn audio_selector_none_when_nothing_scores() {
    let best = best_audio();
    let items = vec![item("9", "low", FormatKind::Audio, "aac", "m4a", 0)];
    assert_eq!(select_audio_format(&items, &best), None);
    assert_eq!(select_audio_format(&Vec::new(), &best), None);
}

#[test]
fn video_selector_first_exact_id() {
    let items = vec![
        item("137", "1080p", FormatKind::Video, "", "", 0),
        item("248", "1080p", FormatKind::Video, "", "", 0),
        item("248", "1080p dup", FormatKind::Video, "", "", 0),
    ];
    assert_eq!(select_video_format(&items, &"248".to_string()), Some(1));
    assert_eq!(select_video_format(&items, &"24".to_string()), None);
}

#[test]
fn pick_lists_split_and_skip_storyboards() {
    let formats = vec![
        item("sb0", "storyboard", FormatKind::Video, "", "", 0),
        item("137", "1080p", FormatKind::Video, "", "", 0),
        item("140", "medium", FormatKind::Audio, "mp4a", "m4a", 0),
        item("18", "360p", FormatKind::AudioVideo, "mp4a", "m4a", 0),
        item("sb1", "storyboard", FormatKind::Audio, "", "", 0),
        item("251", "medium", FormatKind::Audio, "opus", "webm", 0),
        item("hls", "", FormatKind::Manifest, "", "", 0),
    ];
    let (videos, audios) = pick_lists(&formats);
    let vids: Vec<&str> = videos.iter().map(|f| f.format_id.as_str()).collect();
    let auds: Vec<&str> = audios.iter().map(|f| f.format_id.as_str()).collect();
    assert_eq!(vids, vec!["137"]);
    assert_eq!(auds, vec!["140", "251"]);
}

#[test]
fn format_item_clone_is_equal_fieldwise() {
    let a = item("251", "medium", FormatKind::Audio, "opus", "webm", 3000);
    let b = a.clone();
    assert_eq!(a.format_id, b.format_id);
    assert_eq!(a.quality_milli, b.quality_milli);
    assert_eq!(a.kind, b.kind);
}

#[test]
fn file_size_units() {
    assert_eq!(file_size_in_unit(0), (0, SizeUnit::B));
    assert_eq!(file_size_in_unit(1024), (1024, SizeUnit::B));
    assert_eq!(file_size_in_unit(1025), (1, SizeUnit::KB));
    assert_eq!(file_size_in_unit(5 * 1024 * 1024), (5, SizeUnit::MB));
    assert_eq!(file_size_in_unit(3 * 1024 * 1024 * 1024 + 7), (3, SizeUnit::GB));
    assert_eq!(file_size_in_unit(u64::MAX), (17179869183, SizeUnit::GB));
}

#[test]
fn label_minimal() {
    let f = item("sb0", "storyboard", FormatKind::Storyboard, "", "", 0);
    assert_eq!(f.label(), "sb0 (storyboard: ) -");
}

#[test]
fn label_full_video_and_audio() {
    let mut f = item("18", "360p", FormatKind::AudioVideo, "mp4a.40.2", "m4a", 2500);
    f.container = "mp4".to_string();
    f.video_codec = "avc1".to_string();
    f.video_ext = "mp4".to_string();
    f.width = 640;
    f.height = 360;
    f.fps_milli = 29970;
    f.file_size = 5 * 1024 * 1024 + 10;
    assert_eq!(
        f.label(),
        "18 (360p: mp4) - video: avc1 (mp4) audio: mp4a.40.2 (m4a) 640x360 29.97fps Q: 2.5 5MB"
    );
}

#[test]
fn label_whole_numbers_and_small_sizes() {
    let mut f = item("251", "medium", FormatKind::Audio, "opus", "webm", 3000);
    f.fps_milli = 30000;
    f.file_size = 1000;
    assert_eq!(f.label(), "251 (medium: ) - audio: opus (webm) 30fps Q: 3 1000B");
    f.quality_milli = -1000;
    f.fps_milli = 1;
    f.file_size = 0;
    assert_eq!(f.label(), "251 (medium: ) - audio: opus (webm) 0.001fps");
}
