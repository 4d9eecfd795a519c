use vstd::prelude::*;
use crate::text::{contains_text, decimal, has_piece, push_decimal, push_thousandths, thousandths};

verus! {

/// What a rendition carries.
#[derive(Clone, Copy, Debug, PartialEq, Eq, Structural)]
pub enum FormatKind {
    Audio,
    Video,
    AudioVideo,
    Manifest,
    Storyboard,
    Unknown,
}

/// One rendition offered for a video. Frame rate and quality score are kept in
/// thousandths.
#[derive(Debug)]
pub struct FormatListItem {
    pub format_id: String,
    pub format_note: String,
    pub container: String,
    pub audio_codec: String,
    pub audio_ext: String,
    pub video_codec: String,
    pub video_ext: String,
    pub width: u32,
    pub height: u32,
    pub fps_milli: u64,
    pub quality_milli: i64,
    pub file_size: u64,
    pub kind: FormatKind,
}

impl Clone for FormatListItem {
    fn clone(&self) -> (r: Self)
        ensures
            r == *self,
    {
        FormatListItem {
            format_id: self.format_id.clone(),
            format_note: self.format_note.clone(),
            container: self.container.clone(),
            audio_codec: self.audio_codec.clone(),
            audio_ext: self.audio_ext.clone(),
            video_codec: self.video_codec.clone(),
            video_ext: self.video_ext.clone(),
            width: self.width,
            height: self.height,
            fps_milli: self.fps_milli,
            quality_milli: self.quality_milli,
            file_size: self.file_size,
            kind: self.kind,
        }
    }
}

/// The unit a file size is shown in.
#[derive(Clone, Copy, Debug, PartialEq, Eq, Structural)]
pub enum SizeUnit {
    B,
    KB,
    MB,
    GB,
}

/// A size shown in the largest unit, up to gigabytes, in which it is still
/// above 1024 of the next smaller one; whole units, rounded down.
pub open spec fn scaled_size(n: nat) -> (nat, SizeUnit) {
    if n <= 1024 {
        (n, SizeUnit::B)
    } else if n / 1024 <= 1024 {
        (n / 1024, SizeUnit::KB)
    } else if n / 1024 / 1024 <= 1024 {
        (n / 1024 / 1024, SizeUnit::MB)
    } else {
        (n / 1024 / 1024 / 1024, SizeUnit::GB)
    }
}

/// A file size in the unit it is shown in.
pub fn file_size_in_unit(size: u64) -> (r: (u64, SizeUnit))
    ensures
        (r.0 as nat, r.1) == scaled_size(size as nat),
{
    let mut n = size;
    let mut unit = SizeUnit::B;
    if n > 1024 {
        n = n / 1024;
        unit = SizeUnit::KB;
    }
    if n > 1024 {
        n = n / 1024;
        unit = SizeUnit::MB;
    }
    if n > 1024 {
        n = n / 1024;
        unit = SizeUnit::GB;
    }
    (n, unit)
}

/// The unit's symbol.
pub open spec fn unit_symbol(u: SizeUnit) -> Seq<char> {
    match u {
        SizeUnit::B => "B"@,
        SizeUnit::KB => "KB"@,
        SizeUnit::MB => "MB"@,
        SizeUnit::GB => "GB"@,
    }
}

/// ` <kind>: <codec> (<ext>)` where the codec is known.
pub open spec fn codec_part(kind: Seq<char>, codec: Seq<char>, ext: Seq<char>) -> Seq<char> {
    if codec.len() > 0 {
        " "@ + kind + ": "@ + codec + " ("@ + ext + ")"@
    } else {
        seq![]
    }
}

/// ` <width>x<height>` where the width is known.
pub open spec fn resolution_part(width: u32, height: u32) -> Seq<char> {
    if width > 0 {
        " "@ + decimal(width as nat) + "x"@ + decimal(height as nat)
    } else {
        seq![]
    }
}

/// ` <fps>fps` where the frame rate is known.
pub open spec fn fps_part(fps_milli: u64) -> Seq<char> {
    if fps_milli > 0 {
        " "@ + thousandths(fps_milli as nat) + "fps"@
    } else {
        seq![]
    }
}

/// ` Q: <quality>` where the quality is above zero.
pub open spec fn quality_part(quality_milli: i64) -> Seq<char> {
    if quality_milli > 0 {
        " Q: "@ + thousandths(quality_milli as nat)
    } else {
        seq![]
    }
}

/// ` <size><unit>` where the size is known.
pub open spec fn size_part(size: u64) -> Seq<char> {
    if size > 0 {
        " "@ + decimal(scaled_size(size as nat).0) + unit_symbol(scaled_size(size as nat).1)
    } else {
        seq![]
    }
}

/// The text a pick-list shows for a rendition: id, note and container, then
/// each of codecs, resolution, frame rate, quality and size that is known.
pub open spec fn item_label(f: FormatListItem) -> Seq<char> {
    f.format_id@ + " ("@ + f.format_note@ + ": "@ + f.container@ + ") -"@ + codec_part(
        "video"@,
        f.video_codec@,
        f.video_ext@,
    ) + codec_part("audio"@, f.audio_codec@, f.audio_ext@) + resolution_part(f.width, f.height)
        + fps_part(f.fps_milli) + quality_part(f.quality_milli) + size_part(f.file_size)
}

fn push_codec(t: &mut String, kind: &str, codec: &String, ext: &String)
    ensures
        final(t)@ == old(t)@ + codec_part(kind@, codec@, ext@),
{
    if codec.as_str().unicode_len() > 0 {
        t.append(" ");
        t.append(kind);
        t.append(": ");
        t.append(codec.as_str());
        t.append(" (");
        t.append(ext.as_str());
        t.append(")");
        assert(final(t)@ =~= old(t)@ + codec_part(kind@, codec@, ext@));
    } else {
        assert(old(t)@ + codec_part(kind@, codec@, ext@) =~= old(t)@);
    }
}

fn push_resolution(t: &mut String, width: u32, height: u32)
    ensures
        final(t)@ == old(t)@ + resolution_part(width, height),
{
    if width > 0 {
        t.append(" ");
        push_decimal(t, width as u64);
        t.append("x");
        push_decimal(t, height as u64);
        assert(final(t)@ =~= old(t)@ + resolution_part(width, height));
    } else {
        assert(old(t)@ + resolution_part(width, height) =~= old(t)@);
    }
}

fn push_fps(t: &mut String, fps_milli: u64)
    ensures
        final(t)@ == old(t)@ + fps_part(fps_milli),
{
    if fps_milli > 0 {
        t.append(" ");
        push_thousandths(t, fps_milli);
        t.append("fps");
        assert(final(t)@ =~= old(t)@ + fps_part(fps_milli));
    } else {
        assert(old(t)@ + fps_part(fps_milli) =~= old(t)@);
    }
}

fn push_quality(t: &mut String, quality_milli: i64)
    ensures
        final(t)@ == old(t)@ + quality_part(quality_milli),
{
    if quality_milli > 0 {
        t.append(" Q: ");
        push_thousandths(t, quality_milli as u64);
        assert(final(t)@ =~= old(t)@ + quality_part(quality_milli));
    } else {
        assert(old(t)@ + quality_part(quality_milli) =~= old(t)@);
    }
}

fn push_size(t: &mut String, size: u64)
    ensures
        final(t)@ == old(t)@ + size_part(size),
{
    if size > 0 {
        let (n, unit) = file_size_in_unit(size);
        t.append(" ");
        push_decimal(t, n);
        match unit {
            SizeUnit::B => t.append("B"),
            SizeUnit::KB => t.append("KB"),
            SizeUnit::MB => t.append("MB"),
            SizeUnit::GB => t.append("GB"),
        }
        assert(final(t)@ =~= old(t)@ + size_part(size));
    } else {
        assert(old(t)@ + size_part(size) =~= old(t)@);
    }
}

impl FormatListItem {
    /// The text a pick-list shows for this rendition.
    pub fn label(&self) -> (r: String)
        ensures
            r@ == item_label(*self),
    {
        let mut t = self.format_id.clone();
        t.append(" (");
        t.append(self.format_note.as_str());
        t.append(": ");
        t.append(self.container.as_str());
        t.append(") -");
        push_codec(&mut t, "video", &self.video_codec, &self.video_ext);
        push_codec(&mut t, "audio", &self.audio_codec, &self.audio_ext);
        push_resolution(&mut t, self.width, self.height);
        push_fps(&mut t, self.fps_milli);
        push_quality(&mut t, self.quality_milli);
        push_size(&mut t, self.file_size);
        assert(t@ =~= item_label(*self));
        t
    }
}

/// Points a candidate earns against the suggested best audio rendition.
pub open spec fn audio_score(c: FormatListItem, best: FormatListItem) -> nat {
    (if c.quality_milli == best.quality_milli { 1nat } else { 0nat })
        + (if c.audio_ext@ == best.audio_ext@ { 1nat } else { 0nat })
        + (if has_piece(c.format_note@, "original"@) { 2nat } else { 0nat })
        + (if c.audio_codec@ == best.audio_codec@ { 1nat } else { 0nat })
        + (if c.format_id@ == best.format_id@ { 1nat } else { 0nat })
}

/// `k` is the audio default of `items`: it scores above zero, no candidate
/// scores more, and every earlier candidate scores less.
pub open spec fn is_audio_pick(items: Seq<FormatListItem>, best: FormatListItem, k: int) -> bool {
    0 <= k < items.len() && audio_score(items[k], best) > 0 && (forall|i: int|
        0 <= i < items.len() ==> audio_score(#[trigger] items[i], best) <= audio_score(
            items[k],
            best,
        )) && (forall|i: int|
        0 <= i < k ==> audio_score(#[trigger] items[i], best) < audio_score(items[k], best))
}

/// Every candidate scores zero.
pub open spec fn no_audio_pick(items: Seq<FormatListItem>, best: FormatListItem) -> bool {
    forall|i: int| 0 <= i < items.len() ==> audio_score(#[trigger] items[i], best) == 0
}

/// `k` is the first position of `items` whose id is `id`.
pub open spec fn is_first_with_id(items: Seq<FormatListItem>, id: Seq<char>, k: int) -> bool {
    0 <= k < items.len() && items[k].format_id@ == id && forall|i: int|
        0 <= i < k ==> (#[trigger] items[i]).format_id@ != id
}

/// A rendition offered in the video pick-list.
pub open spec fn listed_as_video(f: FormatListItem) -> bool {
    f.kind == FormatKind::Video && f.format_note@ != "storyboard"@
}

/// A rendition offered in the audio pick-list.
pub open spec fn listed_as_audio(f: FormatListItem) -> bool {
    f.kind == FormatKind::Audio && f.format_note@ != "storyboard"@
}

/// The video pick-list, in catalog order.
pub open spec fn video_list(formats: Seq<FormatListItem>) -> Seq<FormatListItem> {
    formats.filter(|f: FormatListItem| listed_as_video(f))
}

/// The audio pick-list, in catalog order.
pub open spec fn audio_list(formats: Seq<FormatListItem>) -> Seq<FormatListItem> {
    formats.filter(|f: FormatListItem| listed_as_audio(f))
}

/// Of two top-scoring candidates with equal points, the earlier one is the
/// audio default: where `i` scores highest of all, strictly above every
/// earlier candidate, and a later `j` scores as much, the pick is `i`.
pub proof fn lemma_audio_tie_keeps_first(
    items: Seq<FormatListItem>,
    best: FormatListItem,
    i: int,
    j: int,
    k: int,
)
    requires
        0 <= i < j < items.len(),
        audio_score(items[i], best) > 0,
        audio_score(items[j], best) == audio_score(items[i], best),
        forall|t: int| 0 <= t < items.len() ==> audio_score(#[trigger] items[t], best) <= audio_score(items[i], best),
        forall|t: int| 0 <= t < i ==> audio_score(#[trigger] items[t], best) < audio_score(items[i], best),
        is_audio_pick(items, best, k),
    ensures
        k == i,
        k != j,
{
    if k < i {
        assert(audio_score(items[k], best) < audio_score(items[i], best));
        assert(audio_score(items[i], best) <= audio_score(items[k], best));
    } else if k > i {
        assert(audio_score(items[i], best) < audio_score(items[k], best));
    }
}

/// The points `c` earns against `best`.
pub fn audio_match_score(c: &FormatListItem, best: &FormatListItem) -> (r: u64)
    ensures
        r == audio_score(*c, *best),
{
    let mut score: u64 = 0;
    if c.quality_milli == best.quality_milli {
        score += 1;
    }
    if c.audio_ext == best.audio_ext {
        score += 1;
    }
    if contains_text(c.format_note.as_str(), "original") {
        score += 2;
    }
    if c.audio_codec == best.audio_codec {
        score += 1;
    }
    if c.format_id == best.format_id {
        score += 1;
    }
    score
}

/// The audio default among `items`: the strictly highest score seen while
/// scanning in order, so that ties keep the earliest; none where every
/// candidate scores zero.
pub fn select_audio_format(items: &Vec<FormatListItem>, best: &FormatListItem) -> (r: Option<usize>)
    ensures
        r is None <==> no_audio_pick(items@, *best),
        r matches Some(k) ==> is_audio_pick(items@, *best, k as int),
{
    let mut pick: Option<usize> = None;
    let mut top: u64 = 0;
    let mut i: usize = 0;
    while i < items.len()
        invariant
            i <= items@.len(),
            pick is None ==> top == 0,
            pick is None <==> no_audio_pick(items@.subrange(0, i as int), *best),
            pick matches Some(k) ==> k < i && top == audio_score(items@[k as int], *best),
            pick matches Some(k) ==> is_audio_pick(items@.subrange(0, i as int), *best, k as int),
            top <= 6,
        decreases items.len() - i,
    {
        let s = audio_match_score(&items[i], best);
        let ghost pre = items@.subrange(0, i as int);
        let ghost post = items@.subrange(0, i + 1);
        assert(forall|j: int| 0 <= j < i ==> post[j] == pre[j]);
        assert(post[i as int] == items@[i as int]);
        if s > top {
            pick = Some(i);
            top = s;
        }
        i += 1;
    }
    assert(items@.subrange(0, items@.len() as int) =~= items@);
    pick
}

/// The video default among `items`: the first whose id is `id`.
pub fn select_video_format(items: &Vec<FormatListItem>, id: &String) -> (r: Option<usize>)
    ensures
        r is None <==> forall|i: int| 0 <= i < items@.len() ==> (#[trigger] items@[i]).format_id@ != id@,
        r matches Some(k) ==> is_first_with_id(items@, id@, k as int),
{
    let mut i: usize = 0;
    while i < items.len()
        invariant
            i <= items@.len(),
            forall|j: int| 0 <= j < i ==> (#[trigger] items@[j]).format_id@ != id@,
        decreases items.len() - i,
    {
        if items[i].format_id == *id {
            return Some(i);
        }
        i += 1;
    }
    None
}

proof fn lemma_filter_push(s: Seq<FormatListItem>, x: FormatListItem, p: spec_fn(FormatListItem) -> bool)
    ensures
        s.push(x).filter(p) == (if p(x) { s.filter(p).push(x) } else { s.filter(p) }),
{
    reveal(Seq::filter);
    assert(s.push(x).drop_last() =~= s);
}

/// Whether a rendition's note marks it as a storyboard.
fn is_storyboard_note(note: &String) -> (r: bool)
    ensures
        r == (note@ == "storyboard"@),
{
    let storyboard = String::from_str("storyboard");
    *note == storyboard
}

/// The video and the audio pick-lists of a catalog, each in catalog order.
pub fn pick_lists(formats: &Vec<FormatListItem>) -> (r: (Vec<FormatListItem>, Vec<FormatListItem>))
    ensures
        r.0@ == video_list(formats@),
        r.1@ == audio_list(formats@),
{
    let mut videos: Vec<FormatListItem> = Vec::new();
    let mut audios: Vec<FormatListItem> = Vec::new();
    let mut i: usize = 0;
    while i < formats.len()
        invariant
            i <= formats@.len(),
            videos@ == video_list(formats@.subrange(0, i as int)),
            audios@ == audio_list(formats@.subrange(0, i as int)),
        decreases formats.len() - i,
    {
        let f = &formats[i];
        let ghost pre = formats@.subrange(0, i as int);
        assert(formats@.subrange(0, i + 1) =~= pre.push(*f));
        proof {
            lemma_filter_push(pre, *f, |g: FormatListItem| listed_as_video(g));
            lemma_filter_push(pre, *f, |g: FormatListItem| listed_as_audio(g));
        }
        let storyboard = is_storyboard_note(&f.format_note);
        if f.kind == FormatKind::Video && !storyboard {
            videos.push(f.clone());
        }
        if f.kind == FormatKind::Audio && !storyboard {
            audios.push(f.clone());
        }
        i += 1;
    }
    assert(formats@.subrange(0, formats@.len() as int) =~= formats@);
    (videos, audios)
}

} // verus!
