use youtube_downloader::caption::{caption_jobs, suffix_for, CaptionTrack};

fn track(lang: &str, ext: &str, url: &str) -> CaptionTrack {
    CaptionTrack { language: lang.to_string(), extension: ext.to_string(), url: url.to_string() }
}

#[test]
fn caption_extractor_keeps_english_and_original() {
    let tracks = vec![
        track("en", "srt", "u/en.srt"),
        track("en", "vtt", "u/en.vtt"),
        track("en", "ass", "u/en.ass"),
        track("fr", "srt", "u/fr.srt"),
        track("fr", "vtt", "u/fr.vtt"),
        track("en-orig", "srt", "u/enorig.srt"),
        track("en-orig", "vtt", "u/enorig.vtt"),
        track("en-orig", "ass", "u/enorig.ass"),
    ];
    let jobs = caption_jobs(&tracks, "output", "My Video");
    let got: Vec<(&str, &str)> = jobs.iter().map(|j| (j.url.as_str(), j.path.as_str())).collect();
    assert_eq!(
        got,
        vec![
            ("u/en.srt", "output/My Video.en.srt"),
            ("u/en.vtt", "output/My Video.en.vtt"),
            ("u/enorig.srt", "output/My Video.en.srt"),
            ("u/enorig.vtt", "output/My Video.en.vtt"),
        ]
    );
}

#[test]
fn caption_original_language_suffix() {
    assert_eq!(suffix_for("pt-orig"), "pt");
    assert_eq!(suffix_for("orig"), "orig");
    assert_eq!(suffix_for("de"), "en");
    let jobs = caption_jobs(&vec![track("ja-orig", "vtt", "u")], "out", "s");
    assert_eq!(jobs.len(), 1);
    assert_eq!(jobs[0].path, "out/s.ja.vtt");
}

#[test]
fn caption_farsi_written_as_en() {
    let jobs = caption_jobs(&vec![track("fa", "srt", "u/fa")], "out", "s");
    assert_eq!(jobs.len(), 1);
    assert_eq!(jobs[0].path, "out/s.en.srt");
}

#[test]
fn caption_nothing_wanted() {
    let jobs = caption_jobs(&vec![track("de", "srt", "u"), track("en", "json3", "u")], "out", "s");
    assert!(jobs.is_empty());
    assert!(caption_jobs(&Vec::new(), "out", "s").is_empty());
}
