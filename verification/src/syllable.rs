use vstd::prelude::*;
use vstd::string::StringExecFns;
use rand_xoshiro::Xoshiro256StarStar;
use crate::defaults::DEFAULT_P_CODA_EXISTS;
use crate::defaults::DEFAULT_P_CODA_IS_CLUSTER;
use crate::defaults::DEFAULT_P_NUCLEUS_IS_CLUSTER;
use crate::defaults::DEFAULT_P_ONSET_EXISTS;
use crate::defaults::DEFAULT_P_ONSET_IS_CLUSTER;
use crate::defaults::cat_of_texts;
use crate::defaults::default_coda_cluster_texts;
use crate::defaults::default_coda_clusters;
use crate::defaults::default_coda_texts;
use crate::defaults::default_codas;
use crate::defaults::default_nuclei;
use crate::defaults::default_nucleus_cluster_texts;
use crate::defaults::default_nucleus_clusters;
use crate::defaults::default_nucleus_texts;
use crate::defaults::default_onset_cluster_texts;
use crate::defaults::default_onset_clusters;
use crate::defaults::default_onset_texts;
use crate::defaults::default_onsets;
use crate::grapheme::Grapheme;
use crate::grapheme::GraphemeView;
use crate::grapheme::in_cat;
use crate::rng::PROB_ONE;
use crate::rng::draw_below;
use crate::rng::draw_weighted;
use crate::rng::new_rng;

verus! {

/// A syllable generator: six categories of fragments and five gate
/// probabilities, immutable after construction. Probabilities are parts per
/// [`PROB_ONE`]; values at or above `PROB_ONE` saturate to "always" and `0`
/// means "never".
pub struct Syllable {
    onsets: Vec<Grapheme>,
    onset_clusters: Vec<Grapheme>,
    nucleus: Vec<Grapheme>,
    nucleus_clusters: Vec<Grapheme>,
    codas: Vec<Grapheme>,
    coda_clusters: Vec<Grapheme>,
    probability_onset_exists: u32,
    probability_onset_is_cluster: u32,
    probability_nucleus_is_cluster: u32,
    probability_coda_exists: u32,
    probability_coda_is_cluster: u32,
}

/// The mathematical content of a [`Syllable`] generator: its six categories
/// and five probabilities.
#[verifier::ext_equal]
pub ghost struct SyllableView {
    pub onsets: Seq<GraphemeView>,
    pub onset_clusters: Seq<GraphemeView>,
    pub nucleus: Seq<GraphemeView>,
    pub nucleus_clusters: Seq<GraphemeView>,
    pub codas: Seq<GraphemeView>,
    pub coda_clusters: Seq<GraphemeView>,
    pub probability_onset_exists: u32,
    pub probability_onset_is_cluster: u32,
    pub probability_nucleus_is_cluster: u32,
    pub probability_coda_exists: u32,
    pub probability_coda_is_cluster: u32,
}

impl View for Syllable {
    type V = SyllableView;

    closed spec fn view(&self) -> SyllableView {
        SyllableView {
            onsets: self.onsets.deep_view(),
            onset_clusters: self.onset_clusters.deep_view(),
            nucleus: self.nucleus.deep_view(),
            nucleus_clusters: self.nucleus_clusters.deep_view(),
            codas: self.codas.deep_view(),
            coda_clusters: self.coda_clusters.deep_view(),
            probability_onset_exists: self.probability_onset_exists,
            probability_onset_is_cluster: self.probability_onset_is_cluster,
            probability_nucleus_is_cluster: self.probability_nucleus_is_cluster,
            probability_coda_exists: self.probability_coda_exists,
            probability_coda_is_cluster: self.probability_coda_is_cluster,
        }
    }
}

/// The configuration of the all-default generator.
pub open spec fn default_view() -> SyllableView {
    SyllableView {
        onsets: cat_of_texts(default_onset_texts()),
        onset_clusters: cat_of_texts(default_onset_cluster_texts()),
        nucleus: cat_of_texts(default_nucleus_texts()),
        nucleus_clusters: cat_of_texts(default_nucleus_cluster_texts()),
        codas: cat_of_texts(default_coda_texts()),
        coda_clusters: cat_of_texts(default_coda_cluster_texts()),
        probability_onset_exists: DEFAULT_P_ONSET_EXISTS,
        probability_onset_is_cluster: DEFAULT_P_ONSET_IS_CLUSTER,
        probability_nucleus_is_cluster: DEFAULT_P_NUCLEUS_IS_CLUSTER,
        probability_coda_exists: DEFAULT_P_CODA_EXISTS,
        probability_coda_is_cluster: DEFAULT_P_CODA_IS_CLUSTER,
    }
}

/// What a slot selection may return: a text of `singles`, or of `clusters`
/// when that category is non-empty. An empty cluster category or a zero
/// cluster probability forces the single category; a saturated cluster
/// probability over a non-empty cluster category forces the clusters.
pub open spec fn slot_pick_ok(
    singles: Seq<GraphemeView>,
    clusters: Seq<GraphemeView>,
    p_cluster: u32,
    t: Seq<char>,
) -> bool {
    &&& in_cat(singles, t) || (clusters.len() > 0 && in_cat(clusters, t))
    &&& (clusters.len() == 0 || p_cluster == 0) ==> in_cat(singles, t)
    &&& (clusters.len() > 0 && p_cluster >= PROB_ONE) ==> in_cat(clusters, t)
}

/// What the onset slot may contribute. `None` (no onset) can happen only
/// when the existence gate can fail, and a fragment only when it can
/// succeed.
pub open spec fn onset_ok(v: SyllableView, o: Option<Seq<char>>) -> bool {
    match o {
        Option::None => v.probability_onset_exists < PROB_ONE,
        Option::Some(t) => v.probability_onset_exists > 0 && slot_pick_ok(
            v.onsets,
            v.onset_clusters,
            v.probability_onset_is_cluster,
            t,
        ),
    }
}

/// What the nucleus slot may contribute; the nucleus has no existence gate.
pub open spec fn nucleus_ok(v: SyllableView, t: Seq<char>) -> bool {
    slot_pick_ok(v.nucleus, v.nucleus_clusters, v.probability_nucleus_is_cluster, t)
}

/// What the coda slot may contribute, mirroring the onset slot.
pub open spec fn coda_ok(v: SyllableView, c: Option<Seq<char>>) -> bool {
    match c {
        Option::None => v.probability_coda_exists < PROB_ONE,
        Option::Some(t) => v.probability_coda_exists > 0 && slot_pick_ok(
            v.codas,
            v.coda_clusters,
            v.probability_coda_is_cluster,
            t,
        ),
    }
}

/// The text an optional slot contributes: nothing when the slot is absent.
pub open spec fn opt_text(o: Option<Seq<char>>) -> Seq<char> {
    match o {
        Option::None => Seq::empty(),
        Option::Some(t) => t,
    }
}

/// One admissible choice for all three slots of a syllable.
pub open spec fn syllable_parts_ok(
    v: SyllableView,
    o: Option<Seq<char>>,
    n: Seq<char>,
    c: Option<Seq<char>>,
) -> bool {
    onset_ok(v, o) && nucleus_ok(v, n) && coda_ok(v, c)
}

/// `s` is a syllable the generator `v` can emit: an admissible onset
/// contribution, nucleus and coda contribution, concatenated in that order.
pub open spec fn is_syllable(v: SyllableView, s: Seq<char>) -> bool {
    exists|o: Option<Seq<char>>, n: Seq<char>, c: Option<Seq<char>>|
        #[trigger] syllable_parts_ok(v, o, n, c) && s == opt_text(o) + n + opt_text(c)
}

/// A slot whose categories can serve every random outcome without panicking:
/// either its existence gate never opens, or the single category is
/// non-empty, or the cluster path is non-empty and always taken.
pub open spec fn slot_safe(
    singles: Seq<GraphemeView>,
    clusters: Seq<GraphemeView>,
    p_exists: u32,
    p_cluster: u32,
) -> bool {
    p_exists == 0 || singles.len() > 0 || (clusters.len() > 0 && p_cluster >= PROB_ONE)
}

/// The generator can serve every random outcome: each slot that can be
/// selected from has a non-empty category behind every reachable branch.
pub open spec fn can_gen(v: SyllableView) -> bool {
    &&& slot_safe(v.onsets, v.onset_clusters, v.probability_onset_exists, v.probability_onset_is_cluster)
    &&& v.nucleus.len() > 0 || (v.nucleus_clusters.len() > 0 && v.probability_nucleus_is_cluster >= PROB_ONE)
    &&& slot_safe(v.codas, v.coda_clusters, v.probability_coda_exists, v.probability_coda_is_cluster)
}

/// Every sequence of `parts` is a syllable of `v`.
pub open spec fn all_syllables(v: SyllableView, parts: Seq<Seq<char>>) -> bool {
    forall|i: int| 0 <= i < parts.len() ==> is_syllable(v, #[trigger] parts[i])
}

/// The concatenation of all sequences of `parts`, in order.
pub open spec fn concat_all(parts: Seq<Seq<char>>) -> Seq<char>
    decreases parts.len(),
{
    if parts.len() == 0 {
        Seq::empty()
    } else {
        concat_all(parts.drop_last()) + parts.last()
    }
}

/// `s` is a name of `count` syllables of `v`: the concatenation of exactly
/// `count` sequences, each a syllable `v` can emit.
pub open spec fn is_name(v: SyllableView, count: nat, s: Seq<char>) -> bool {
    exists|parts: Seq<Seq<char>>|
        #[trigger] all_syllables(v, parts) && parts.len() == count && s == concat_all(parts)
}

/// Appending one more part concatenates it at the end.
pub proof fn lemma_concat_all_push(parts: Seq<Seq<char>>, x: Seq<char>)
    ensures
        concat_all(parts.push(x)) == concat_all(parts) + x,
{
    assert(parts.push(x).drop_last() =~= parts);
    assert(parts.push(x).last() == x);
}

/// Select one fragment for a slot: from `clusters` when that category is
/// non-empty and the cluster draw succeeds, otherwise uniformly from
/// `singles`.
fn pick_slot<'a>(
    rng: &mut Xoshiro256StarStar,
    singles: &'a Vec<Grapheme>,
    clusters: &'a Vec<Grapheme>,
    p_cluster: u32,
) -> (r: &'a Grapheme)
    requires
        singles@.len() > 0 || (clusters@.len() > 0 && p_cluster >= PROB_ONE),
    ensures
        slot_pick_ok(singles.deep_view(), clusters.deep_view(), p_cluster, r@.text),
{
    if clusters.len() == 0 {
        let i = draw_below(rng, singles.len());
        let r = &singles[i];
        proof {
            assert(singles.deep_view()[i as int].text == r@.text);
        }
        r
    } else {
        let is_cluster = draw_weighted(rng, p_cluster);
        if is_cluster {
            let i = draw_below(rng, clusters.len());
            let r = &clusters[i];
            proof {
                assert(clusters.deep_view()[i as int].text == r@.text);
            }
            r
        } else {
            let i = draw_below(rng, singles.len());
            let r = &singles[i];
            proof {
                assert(singles.deep_view()[i as int].text == r@.text);
            }
            r
        }
    }
}

impl Syllable {
    /// A generator from explicit categories and probabilities. Probabilities
    /// are parts per [`PROB_ONE`] and may exceed it, saturating to "always".
    pub fn from_parts(
        onsets: Vec<Grapheme>,
        onset_clusters: Vec<Grapheme>,
        nucleus: Vec<Grapheme>,
        nucleus_clusters: Vec<Grapheme>,
        codas: Vec<Grapheme>,
        coda_clusters: Vec<Grapheme>,
        probability_onset_exists: u32,
        probability_onset_is_cluster: u32,
        probability_nucleus_is_cluster: u32,
        probability_coda_exists: u32,
        probability_coda_is_cluster: u32,
    ) -> (r: Syllable)
        ensures
            r@.onsets == onsets.deep_view(),
            r@.onset_clusters == onset_clusters.deep_view(),
            r@.nucleus == nucleus.deep_view(),
            r@.nucleus_clusters == nucleus_clusters.deep_view(),
            r@.codas == codas.deep_view(),
            r@.coda_clusters == coda_clusters.deep_view(),
            r@.probability_onset_exists == probability_onset_exists,
            r@.probability_onset_is_cluster == probability_onset_is_cluster,
            r@.probability_nucleus_is_cluster == probability_nucleus_is_cluster,
            r@.probability_coda_exists == probability_coda_exists,
            r@.probability_coda_is_cluster == probability_coda_is_cluster,
    {
        Syllable {
            onsets,
            onset_clusters,
            nucleus,
            nucleus_clusters,
            codas,
            coda_clusters,
            probability_onset_exists,
            probability_onset_is_cluster,
            probability_nucleus_is_cluster,
            probability_coda_exists,
            probability_coda_is_cluster,
        }
    }

    /// The all-default generator.
    pub fn new() -> (r: Self)
        ensures
            r@ == default_view(),
    {
        Self::default()
    }

    /// One freshly generated syllable.
    ///
    /// The caller must rule out the configurations on which selection could
    /// reach an empty category (see [`can_gen`]); on such a configuration
    /// the generator would otherwise have to abort, which this library
    /// forbids.
    pub fn gen_syllable(&self) -> (r: String)
        requires
            can_gen(self@),
        ensures
            is_syllable(self@, r@),
    {
        let mut rng = new_rng();
        let mut s = String::new();
        let ghost mut o: Option<Seq<char>> = Option::None;

        if draw_weighted(&mut rng, self.probability_onset_exists) {
            let f = pick_slot(
                &mut rng,
                &self.onsets,
                &self.onset_clusters,
                self.probability_onset_is_cluster,
            );
            s.append(f.as_str());
            proof {
                o = Option::Some(f@.text);
            }
        }

        let f = pick_slot(
            &mut rng,
            &self.nucleus,
            &self.nucleus_clusters,
            self.probability_nucleus_is_cluster,
        );
        let ghost n: Seq<char> = f@.text;
        s.append(f.as_str());

        let ghost mut c: Option<Seq<char>> = Option::None;
        if draw_weighted(&mut rng, self.probability_coda_exists) {
            let f = pick_slot(
                &mut rng,
                &self.codas,
                &self.coda_clusters,
                self.probability_coda_is_cluster,
            );
            s.append(f.as_str());
            proof {
                c = Option::Some(f@.text);
            }
        }

        proof {
            assert(syllable_parts_ok(self@, o, n, c));
            assert(s@ =~= opt_text(o) + n + opt_text(c));
        }
        s
    }

    /// The concatenation of `syllables` freshly generated syllables; zero
    /// syllables give the empty string.
    pub fn gen_name(&self, syllables: u32) -> (r: String)
        requires
            can_gen(self@),
        ensures
            is_name(self@, syllables as nat, r@),
            syllables == 0 ==> r@ == Seq::<char>::empty(),
    {
        let mut name = String::new();
        let ghost mut parts: Seq<Seq<char>> = Seq::empty();
        let mut i: u32 = 0;
        while i < syllables
            invariant
                can_gen(self@),
                i <= syllables,
                parts.len() == i as nat,
                all_syllables(self@, parts),
                name@ == concat_all(parts),
            decreases syllables - i,
        {
            let s = self.gen_syllable();
            name.append(s.as_str());
            proof {
                lemma_concat_all_push(parts, s@);
                parts = parts.push(s@);
            }
            i = i + 1;
        }
        proof {
            assert(all_syllables(self@, parts));
            assert(is_name(self@, syllables as nat, name@));
        }
        name
    }
}

impl Default for Syllable {
    /// The generator over the default categories and probabilities.
    fn default() -> (r: Self)
        ensures
            r@ == default_view(),
    {
        let r = Syllable {
            onsets: default_onsets(),
            onset_clusters: default_onset_clusters(),
            nucleus: default_nuclei(),
            nucleus_clusters: default_nucleus_clusters(),
            codas: default_codas(),
            coda_clusters: default_coda_clusters(),
            probability_onset_exists: DEFAULT_P_ONSET_EXISTS,
            probability_onset_is_cluster: DEFAULT_P_ONSET_IS_CLUSTER,
            probability_nucleus_is_cluster: DEFAULT_P_NUCLEUS_IS_CLUSTER,
            probability_coda_exists: DEFAULT_P_CODA_EXISTS,
            probability_coda_is_cluster: DEFAULT_P_CODA_IS_CLUSTER,
        };
        proof {
            assert(r@ =~= default_view());
        }
        r
    }
}

} // verus!
