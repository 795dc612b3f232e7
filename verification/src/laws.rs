use vstd::prelude::*;
use crate::grapheme::GraphemeView;
use crate::grapheme::in_cat;
use crate::rng::PROB_ONE;
use crate::syllable::SyllableView;
use crate::syllable::coda_ok;
use crate::syllable::is_syllable;
use crate::syllable::nucleus_ok;
use crate::syllable::opt_text;
use crate::syllable::slot_pick_ok;
use crate::syllable::syllable_parts_ok;

verus! {

/// All entries of the category `cat` have non-empty text.
pub open spec fn all_texts_nonempty(cat: Seq<GraphemeView>) -> bool {
    forall|i: int| 0 <= i < cat.len() ==> (#[trigger] cat[i]).text.len() > 0
}

/// A generated syllable is never empty: the nucleus slot is unconditional,
/// so as long as every nucleus and nucleus-cluster fragment has text, every
/// syllable has text. (A configuration whose nucleus fragments include the
/// empty string can emit an empty syllable, so those are left out.)
pub proof fn lemma_syllable_nonempty(v: SyllableView, s: Seq<char>)
    requires
        is_syllable(v, s),
        all_texts_nonempty(v.nucleus),
        all_texts_nonempty(v.nucleus_clusters),
    ensures
        s.len() > 0,
{
    let (o, n, c) = choose|o: Option<Seq<char>>, n: Seq<char>, c: Option<Seq<char>>|
        #[trigger] syllable_parts_ok(v, o, n, c) && s == opt_text(o) + n + opt_text(c);
    if in_cat(v.nucleus, n) {
        let i = choose|i: int| 0 <= i < v.nucleus.len() && v.nucleus[i].text == n;
        assert(v.nucleus[i].text.len() > 0);
    } else {
        let i = choose|i: int| 0 <= i < v.nucleus_clusters.len() && v.nucleus_clusters[i].text == n;
        assert(v.nucleus_clusters[i].text.len() > 0);
    }
    assert(s.len() >= n.len());
}

/// With a zero onset-existence probability a syllable never has an onset:
/// it is exactly a nucleus contribution followed by an optional coda
/// contribution.
pub proof fn lemma_onset_never(v: SyllableView, s: Seq<char>)
    requires
        is_syllable(v, s),
        v.probability_onset_exists == 0,
    ensures
        exists|n: Seq<char>, c: Option<Seq<char>>|
            #[trigger] nucleus_ok(v, n) && #[trigger] coda_ok(v, c) && s == n + opt_text(c),
{
    let (o, n, c) = choose|o: Option<Seq<char>>, n: Seq<char>, c: Option<Seq<char>>|
        #[trigger] syllable_parts_ok(v, o, n, c) && s == opt_text(o) + n + opt_text(c);
    assert(o is None);
    assert(s =~= n + opt_text(c));
    assert(nucleus_ok(v, n) && coda_ok(v, c));
}

/// With a saturated onset-existence probability every syllable begins with
/// an onset or onset-cluster fragment of the configured categories.
pub proof fn lemma_onset_always(v: SyllableView, s: Seq<char>)
    requires
        is_syllable(v, s),
        v.probability_onset_exists >= PROB_ONE,
    ensures
        exists|t: Seq<char>|
            #[trigger] slot_pick_ok(v.onsets, v.onset_clusters, v.probability_onset_is_cluster, t)
                && t.len() <= s.len() && s.subrange(0, t.len() as int) == t,
{
    let (o, n, c) = choose|o: Option<Seq<char>>, n: Seq<char>, c: Option<Seq<char>>|
        #[trigger] syllable_parts_ok(v, o, n, c) && s == opt_text(o) + n + opt_text(c);
    assert(o is Some);
    let t = opt_text(o);
    assert(slot_pick_ok(v.onsets, v.onset_clusters, v.probability_onset_is_cluster, t));
    assert(s =~= t + (n + opt_text(c)));
    assert(s.subrange(0, t.len() as int) =~= t);
}

/// With an empty onset-cluster category an onset is never drawn from the
/// cluster list, whatever the cluster probability: any onset contribution
/// is a member of the single-onset category.
pub proof fn lemma_empty_clusters_force_singles(v: SyllableView, s: Seq<char>)
    requires
        is_syllable(v, s),
        v.onset_clusters.len() == 0,
    ensures
        exists|o: Option<Seq<char>>, n: Seq<char>, c: Option<Seq<char>>|
            #[trigger] syllable_parts_ok(v, o, n, c) && s == opt_text(o) + n + opt_text(c)
                && (o matches Option::Some(t) ==> in_cat(v.onsets, t)),
{
    let (o, n, c) = choose|o: Option<Seq<char>>, n: Seq<char>, c: Option<Seq<char>>|
        #[trigger] syllable_parts_ok(v, o, n, c) && s == opt_text(o) + n + opt_text(c);
    assert(o matches Option::Some(t) ==> in_cat(v.onsets, t));
}

} // verus!
