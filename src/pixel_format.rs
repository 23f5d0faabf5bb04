use vstd::prelude::*;

verus! {

/// What the choice of a pixel format looks at in one candidate offered by the
/// platform: whether it supports transparency, and its number of samples.
#[derive(Clone, Copy, Debug, PartialEq, Eq, Structural)]
pub struct FormatTraits {
    pub transparent: bool,
    pub samples: u8,
}

/// Whether `candidate` replaces `current` as the choice so far: it adds
/// transparency, or it has fewer samples.
pub open spec fn prefers(candidate: FormatTraits, current: FormatTraits) -> bool {
    (candidate.transparent && !current.transparent) || candidate.samples < current.samples
}

/// Index of the choice after going through `s` from the first candidate,
/// which starts as the choice, to the last.
pub open spec fn chosen_index(s: Seq<FormatTraits>) -> int
    decreases s.len(),
{
    if s.len() <= 1 {
        0
    } else {
        let i = chosen_index(s.drop_last());
        if prefers(s.last(), s[i]) {
            s.len() - 1
        } else {
            i
        }
    }
}

proof fn lemma_chosen_in_range(s: Seq<FormatTraits>)
    requires
        s.len() >= 1,
    ensures
        0 <= chosen_index(s) < s.len(),
    decreases s.len(),
{
    if s.len() > 1 {
        lemma_chosen_in_range(s.drop_last());
    }
}

/// Picks among the candidate pixel formats, in the order offered: the first
/// is the choice to begin with, and each later one replaces the choice so far
/// when it adds transparency or has fewer samples. `None` when there is no
/// candidate.
pub fn pick_format(candidates: &Vec<FormatTraits>) -> (r: Option<usize>)
    ensures
        match r {
            Some(i) => candidates@.len() > 0 && i == chosen_index(candidates@),
            None => candidates@.len() == 0,
        },
{
    if candidates.len() == 0 {
        return None;
    }
    let mut best: usize = 0;
    let mut i: usize = 1;
    while i < candidates.len()
        invariant
            1 <= i <= candidates@.len(),
            best == chosen_index(candidates@.subrange(0, i as int)),
            best < i,
        decreases candidates.len() - i,
    {
        let c = candidates[i];
        let cur = candidates[best];
        proof {
            let next = candidates@.subrange(0, i + 1);
            assert(next.drop_last() =~= candidates@.subrange(0, i as int));
            assert(next[best as int] == cur);
        }
        if (c.transparent && !cur.transparent) || c.samples < cur.samples {
            best = i;
        }
        i += 1;
    }
    assert(candidates@.subrange(0, i as int) =~= candidates@);
    Some(best)
}

} // verus!
