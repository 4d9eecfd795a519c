use vstd::prelude::*;
use crate::text::{contains_text, has_piece, remove_matches, removed_all};

verus! {

/// One caption track offered for a video, under its language tag.
#[derive(Debug)]
pub struct CaptionTrack {
    pub language: String,
    pub extension: String,
    pub url: String,
}

impl Clone for CaptionTrack {
    fn clone(&self) -> (r: Self)
        ensures
            r == *self,
    {
        CaptionTrack {
            language: self.language.clone(),
            extension: self.extension.clone(),
            url: self.url.clone(),
        }
    }
}

/// A caption to fetch from `url` and write to `path`.
#[derive(Debug)]
pub struct CaptionJob {
    pub url: String,
    pub path: String,
}

/// The language tags whose tracks are kept.
pub open spec fn language_wanted(tag: Seq<char>) -> bool {
    has_piece(tag, "en"@) || has_piece(tag, "orig"@) || has_piece(tag, "fa"@)
}

/// The caption formats that are kept.
pub open spec fn extension_wanted(ext: Seq<char>) -> bool {
    ext == "srt"@ || ext == "vtt"@
}

/// The language part of a caption's file name: the tag without `-orig` for
/// an original-language track, else `en`.
pub open spec fn language_suffix(tag: Seq<char>) -> Seq<char> {
    if has_piece(tag, "orig"@) {
        removed_all(tag, "-orig"@)
    } else {
        "en"@
    }
}

/// `<dir>/<stem>.<suffix>.<ext>`.
pub open spec fn caption_path(dir: Seq<char>, stem: Seq<char>, tag: Seq<char>, ext: Seq<char>) -> Seq<char> {
    dir + "/"@ + stem + "."@ + language_suffix(tag) + "."@ + ext
}

/// A track is written.
pub open spec fn track_wanted(t: CaptionTrack) -> bool {
    language_wanted(t.language@) && extension_wanted(t.extension@)
}

/// The (url, path) pairs to fetch and write, in track order.
pub open spec fn caption_plan(tracks: Seq<CaptionTrack>, dir: Seq<char>, stem: Seq<char>) -> Seq<(Seq<char>, Seq<char>)>
    decreases tracks.len(),
{
    if tracks.len() == 0 {
        seq![]
    } else {
        let t = tracks.last();
        let rest = caption_plan(tracks.drop_last(), dir, stem);
        if track_wanted(t) {
            rest.push((t.url@, caption_path(dir, stem, t.language@, t.extension@)))
        } else {
            rest
        }
    }
}

/// The (url, path) pair a kept track is fetched from and written to.
pub open spec fn caption_job_of(t: CaptionTrack, dir: Seq<char>, stem: Seq<char>) -> (Seq<char>, Seq<char>) {
    (t.url@, caption_path(dir, stem, t.language@, t.extension@))
}

/// The `i`-th planned pair is that of some kept track.
pub open spec fn planned_from_kept(
    plan: Seq<(Seq<char>, Seq<char>)>,
    tracks: Seq<CaptionTrack>,
    dir: Seq<char>,
    stem: Seq<char>,
    i: int,
) -> bool {
    exists|t: int|
        0 <= t < tracks.len() && track_wanted(#[trigger] tracks[t]) && plan[i] == caption_job_of(
            tracks[t],
            dir,
            stem,
        )
}

/// The `t`-th track's pair is planned.
pub open spec fn kept_is_planned(
    plan: Seq<(Seq<char>, Seq<char>)>,
    tracks: Seq<CaptionTrack>,
    dir: Seq<char>,
    stem: Seq<char>,
    t: int,
) -> bool {
    exists|i: int| 0 <= i < plan.len() && #[trigger] plan[i] == caption_job_of(tracks[t], dir, stem)
}

/// Every planned pair comes from a kept track, and every kept track has its
/// pair planned: nothing else is fetched or written, whatever the order of
/// the tracks.
pub proof fn lemma_caption_plan_exact(tracks: Seq<CaptionTrack>, dir: Seq<char>, stem: Seq<char>)
    ensures
        forall|i: int|
            0 <= i < caption_plan(tracks, dir, stem).len() ==> #[trigger] planned_from_kept(
                caption_plan(tracks, dir, stem),
                tracks,
                dir,
                stem,
                i,
            ),
        forall|t: int|
            0 <= t < tracks.len() && track_wanted(tracks[t]) ==> #[trigger] kept_is_planned(
                caption_plan(tracks, dir, stem),
                tracks,
                dir,
                stem,
                t,
            ),
    decreases tracks.len(),
{
    if tracks.len() > 0 {
        let rest = tracks.drop_last();
        let n = tracks.len() - 1;
        lemma_caption_plan_exact(rest, dir, stem);
        let pr = caption_plan(rest, dir, stem);
        let pl = caption_plan(tracks, dir, stem);
        let job = caption_job_of(tracks[n], dir, stem);
        assert(pl == (if track_wanted(tracks[n]) { pr.push(job) } else { pr }));
        assert forall|i: int| 0 <= i < pl.len() implies #[trigger] planned_from_kept(
            pl,
            tracks,
            dir,
            stem,
            i,
        ) by {
            if i < pr.len() {
                assert(planned_from_kept(pr, rest, dir, stem, i));
                let t = choose|t: int|
                    0 <= t < rest.len() && track_wanted(#[trigger] rest[t]) && pr[i] == caption_job_of(
                        rest[t],
                        dir,
                        stem,
                    );
                assert(rest[t] == tracks[t]);
                assert(pl[i] == pr[i]);
            } else {
                assert(pl[i] == job);
                assert(track_wanted(tracks[n]));
            }
        }
        assert forall|t: int| 0 <= t < tracks.len() && track_wanted(tracks[t]) implies #[trigger] kept_is_planned(
            pl,
            tracks,
            dir,
            stem,
            t,
        ) by {
            if t < n {
                assert(rest[t] == tracks[t]);
                assert(kept_is_planned(pr, rest, dir, stem, t));
                let i = choose|i: int| 0 <= i < pr.len() && #[trigger] pr[i] == caption_job_of(rest[t], dir, stem);
                assert(pl[i] == pr[i]);
            } else {
                assert(pl[pr.len() as int] == job);
            }
        }
    }
}

/// `en` and `en-orig` tracks are kept and both named `en`; `fr` tracks and
/// the `ass` format are not kept.
pub proof fn lemma_english_and_original_tags()
    ensures
        language_wanted("en"@),
        language_suffix("en"@) == "en"@,
        language_wanted("en-orig"@),
        language_suffix("en-orig"@) == "en"@,
        !language_wanted("fr"@),
        extension_wanted("srt"@),
        extension_wanted("vtt"@),
        !extension_wanted("ass"@),
{
    reveal_strlit("en");
    reveal_strlit("en-orig");
    reveal_strlit("fr");
    reveal_strlit("orig");
    reveal_strlit("fa");
    reveal_strlit("-orig");
    reveal_strlit("ass");
    reveal_strlit("srt");
    reveal_strlit("vtt");
    assert("en"@.subrange(0, 2) =~= "en"@);
    assert(crate::text::occurs_at("en"@, "en"@, 0));
    assert forall|i: int| !crate::text::occurs_at("en"@, "orig"@, i) by {}
    let s = "en-orig"@;
    let p = "-orig"@;
    assert(s.subrange(3, 7) =~= "orig"@);
    assert(crate::text::occurs_at(s, "orig"@, 3));
    assert(s.subrange(0, 2) =~= "en"@);
    assert(crate::text::occurs_at(s, "en"@, 0));
    assert(s.subrange(0, 5)[0] != p[0]);
    let s1 = s.subrange(1, 7);
    assert(s1.subrange(0, 5)[0] != p[0]);
    let s2 = s1.subrange(1, 6);
    assert(s2 =~= p);
    assert(s2.subrange(0, 5) =~= p);
    assert(removed_all(s2.subrange(5, 5), p) =~= Seq::<char>::empty());
    assert(removed_all(s2, p) =~= Seq::<char>::empty());
    assert(removed_all(s1, p) =~= seq!['n']);
    assert(removed_all(s, p) =~= seq!['e', 'n']);
    assert(removed_all(s, p) =~= "en"@);
    let f = "fr"@;
    assert forall|i: int| !crate::text::occurs_at(f, "en"@, i) by {
        if crate::text::occurs_at(f, "en"@, i) {
            assert(i == 0);
            assert(f.subrange(0, 2)[0] != "en"@[0]);
        }
    }
    assert forall|i: int| !crate::text::occurs_at(f, "fa"@, i) by {
        if crate::text::occurs_at(f, "fa"@, i) {
            assert(i == 0);
            assert(f.subrange(0, 2)[1] != "fa"@[1]);
        }
    }
    assert forall|i: int| !crate::text::occurs_at(f, "orig"@, i) by {}
    assert("ass"@[0] != "srt"@[0]);
    assert("ass"@[0] != "vtt"@[0]);
}

/// The jobs match the plan, one for one.
pub open spec fn jobs_match(jobs: Seq<CaptionJob>, plan: Seq<(Seq<char>, Seq<char>)>) -> bool {
    jobs.len() == plan.len() && forall|i: int|
        0 <= i < jobs.len() ==> (#[trigger] jobs[i]).url@ == plan[i].0 && jobs[i].path@ == plan[i].1
}

/// Whether the tag's tracks are kept.
pub fn is_language_wanted(tag: &str) -> (r: bool)
    ensures
        r == language_wanted(tag@),
{
    contains_text(tag, "en") || contains_text(tag, "orig") || contains_text(tag, "fa")
}

/// Whether a caption format is kept.
pub fn is_extension_wanted(ext: &String) -> (r: bool)
    ensures
        r == extension_wanted(ext@),
{
    let srt = String::from_str("srt");
    let vtt = String::from_str("vtt");
    *ext == srt || *ext == vtt
}

/// The language part of a caption's file name.
pub fn suffix_for(tag: &str) -> (r: String)
    ensures
        r@ == language_suffix(tag@),
{
    if contains_text(tag, "orig") {
        proof {
            reveal_strlit("-orig");
        }
        remove_matches(tag, "-orig")
    } else {
        String::from_str("en")
    }
}

/// The path a caption is written to.
pub fn path_for(dir: &str, stem: &str, tag: &str, ext: &str) -> (r: String)
    ensures
        r@ == caption_path(dir@, stem@, tag@, ext@),
{
    let suffix = suffix_for(tag);
    let mut p = String::from_str(dir);
    p.append("/");
    p.append(stem);
    p.append(".");
    p.append(suffix.as_str());
    p.append(".");
    p.append(ext);
    p
}

/// The captions to fetch and write for a video whose file stem is `stem`,
/// under `dir`: each track whose tag holds `en`, `orig` or `fa` and whose
/// format is `srt` or `vtt`, in track order.
pub fn caption_jobs(tracks: &Vec<CaptionTrack>, dir: &str, stem: &str) -> (r: Vec<CaptionJob>)
    ensures
        jobs_match(r@, caption_plan(tracks@, dir@, stem@)),
{
    let mut jobs: Vec<CaptionJob> = Vec::new();
    let mut i: usize = 0;
    while i < tracks.len()
        invariant
            i <= tracks@.len(),
            jobs_match(jobs@, caption_plan(tracks@.subrange(0, i as int), dir@, stem@)),
        decreases tracks.len() - i,
    {
        let t = &tracks[i];
        assert(tracks@.subrange(0, i + 1).drop_last() =~= tracks@.subrange(0, i as int));
        if is_language_wanted(t.language.as_str()) && is_extension_wanted(&t.extension) {
            let path = path_for(dir, stem, t.language.as_str(), t.extension.as_str());
            jobs.push(CaptionJob { url: t.url.clone(), path });
        }
        i += 1;
    }
    assert(tracks@.subrange(0, tracks@.len() as int) =~= tracks@);
    jobs
}

} // verus!
