use vstd::prelude::*;

verus! {

/// One stream of the loaded file, as listed in the engine's track list.
///
/// `media_type` is the engine's name for the kind: `"video"`, `"audio"` or
/// `"sub"`.
#[derive(Debug)]
pub struct Track {
    pub id: i64,
    pub media_type: String,
    pub title: Option<String>,
    pub lang: Option<String>,
}

pub open spec fn is_audio(t: Track) -> bool {
    t.media_type@ == "audio"@
}

pub open spec fn is_subtitle(t: Track) -> bool {
    t.media_type@ == "sub"@
}

/// Whether `s` holds exactly the characters of `lit`.
pub fn text_is(s: &String, lit: &str) -> (r: bool)
    ensures
        r == (s@ == lit@),
{
    let a = s.as_str();
    let n = a.unicode_len();
    if n != lit.unicode_len() {
        return false;
    }
    let mut i: usize = 0;
    while i < n
        invariant
            n == a@.len(),
            n == lit@.len(),
            a@ == s@,
            i <= n,
            forall|j: int| 0 <= j < i ==> a@[j] == lit@[j],
        decreases n - i,
    {
        if a.get_char(i) != lit.get_char(i) {
            return false;
        }
        i += 1;
    }
    assert(s@ =~= lit@);
    true
}

proof fn lemma_filter_push(s: Seq<Track>, x: Track, pred: spec_fn(Track) -> bool)
    ensures
        s.push(x).filter(pred) == (if pred(x) {
            s.filter(pred).push(x)
        } else {
            s.filter(pred)
        }),
{
    reveal(Seq::filter);
    assert(s.push(x).drop_last() =~= s);
}

/// Splits a track list into its audio tracks and its subtitle tracks, each in
/// the order of the list; video tracks, and tracks of any other kind, are
/// dropped.
pub fn partition_tracks(tracks: Vec<Track>) -> (r: (Vec<Track>, Vec<Track>))
    ensures
        r.0@ == tracks@.filter(|t: Track| is_audio(t)),
        r.1@ == tracks@.filter(|t: Track| is_subtitle(t)),
{
    let ghost all = tracks@;
    let mut rest = tracks;
    let mut audio: Vec<Track> = Vec::new();
    let mut subtitles: Vec<Track> = Vec::new();
    let ghost mut done: int = 0;
    while rest.len() > 0
        invariant
            0 <= done <= all.len(),
            rest@ == all.subrange(done, all.len() as int),
            audio@ == all.subrange(0, done).filter(|t: Track| is_audio(t)),
            subtitles@ == all.subrange(0, done).filter(|t: Track| is_subtitle(t)),
        decreases rest.len(),
    {
        let t = rest.remove(0);
        proof {
            assert(t == all[done]);
            assert(all.subrange(0, done + 1) =~= all.subrange(0, done).push(t));
            lemma_filter_push(all.subrange(0, done), t, |t: Track| is_audio(t));
            lemma_filter_push(all.subrange(0, done), t, |t: Track| is_subtitle(t));
            done = done + 1;
        }
        if text_is(&t.media_type, "audio") {
            proof {
                reveal_strlit("audio");
                reveal_strlit("sub");
                assert("audio"@.len() != "sub"@.len());
            }
            audio.push(t);
        } else if text_is(&t.media_type, "sub") {
            subtitles.push(t);
        }
        assert(rest@ =~= all.subrange(done, all.len() as int));
    }
    assert(all.subrange(0, all.len() as int) =~= all);
    (audio, subtitles)
}

} // verus!
