use vstd::prelude::*;
use crate::defaults::DEFAULT_P_CODA_EXISTS;
use crate::defaults::DEFAULT_P_CODA_IS_CLUSTER;
use crate::defaults::DEFAULT_P_NUCLEUS_IS_CLUSTER;
use crate::defaults::DEFAULT_P_ONSET_EXISTS;
use crate::defaults::DEFAULT_P_ONSET_IS_CLUSTER;
use crate::defaults::cat_of_texts;
use crate::defaults::default_coda_clusters;
use crate::defaults::default_codas;
use crate::defaults::default_nuclei;
use crate::defaults::default_nucleus_clusters;
use crate::defaults::default_onset_clusters;
use crate::defaults::default_onsets;
use crate::grapheme::Grapheme;
use crate::grapheme::GraphemeView;
use crate::syllable::Syllable;
use crate::syllable::SyllableView;
use crate::syllable::default_view;

verus! {

/// The character sequences of a slice of strings, in order.
pub open spec fn texts_of_strs(strs: Seq<&str>) -> Seq<Seq<char>> {
    strs.map_values(|s: &str| s@)
}

/// A convenience layer over [`Syllable::from_parts`]: overrides any subset
/// of the single-onset, single-nucleus and single-coda categories, while
/// the cluster categories and the probabilities always come from the
/// defaults. An empty override list is accepted; it surfaces at generation
/// time as a configuration [`crate::can_gen`] rejects.
pub struct SyllableBuilder {
    onsets: Option<Vec<Grapheme>>,
    nucleus: Option<Vec<Grapheme>>,
    codas: Option<Vec<Grapheme>>,
}

/// The mathematical content of a [`SyllableBuilder`]: which of the three
/// overridable categories have been overridden, and with what.
#[verifier::ext_equal]
pub ghost struct SyllableBuilderView {
    pub onsets: Option<Seq<GraphemeView>>,
    pub nucleus: Option<Seq<GraphemeView>>,
    pub codas: Option<Seq<GraphemeView>>,
}

impl View for SyllableBuilder {
    type V = SyllableBuilderView;

    closed spec fn view(&self) -> SyllableBuilderView {
        SyllableBuilderView {
            onsets: match self.onsets {
                Option::Some(v) => Option::Some(v.deep_view()),
                Option::None => Option::None,
            },
            nucleus: match self.nucleus {
                Option::Some(v) => Option::Some(v.deep_view()),
                Option::None => Option::None,
            },
            codas: match self.codas {
                Option::Some(v) => Option::Some(v.deep_view()),
                Option::None => Option::None,
            },
        }
    }
}

/// The generator a builder produces: each overridden category as the
/// builder holds it, and everything else from the default configuration.
pub open spec fn built_view(b: SyllableBuilderView) -> SyllableView {
    SyllableView {
        onsets: match b.onsets {
            Option::Some(c) => c,
            Option::None => default_view().onsets,
        },
        onset_clusters: default_view().onset_clusters,
        nucleus: match b.nucleus {
            Option::Some(c) => c,
            Option::None => default_view().nucleus,
        },
        nucleus_clusters: default_view().nucleus_clusters,
        codas: match b.codas {
            Option::Some(c) => c,
            Option::None => default_view().codas,
        },
        coda_clusters: default_view().coda_clusters,
        probability_onset_exists: default_view().probability_onset_exists,
        probability_onset_is_cluster: default_view().probability_onset_is_cluster,
        probability_nucleus_is_cluster: default_view().probability_nucleus_is_cluster,
        probability_coda_exists: default_view().probability_coda_exists,
        probability_coda_is_cluster: default_view().probability_coda_is_cluster,
    }
}

impl SyllableBuilder {
    /// A builder with no category overridden.
    pub fn new() -> (r: Self)
        ensures
            r@ == (SyllableBuilderView {
                onsets: Option::None,
                nucleus: Option::None,
                codas: Option::None,
            }),
    {
        SyllableBuilder { onsets: Option::None, nucleus: Option::None, codas: Option::None }
    }

    /// Replace the single-onset category, each string becoming a fragment
    /// of weight 1.
    pub fn with_onsets(self, onsets: &[&str]) -> (r: Self)
        ensures
            r@.onsets == Option::Some(cat_of_texts(texts_of_strs(onsets@))),
            r@.nucleus == self@.nucleus,
            r@.codas == self@.codas,
    {
        let cat = Grapheme::map_slice(onsets);
        proof {
            assert(cat.deep_view() =~= cat_of_texts(texts_of_strs(onsets@)));
        }
        SyllableBuilder { onsets: Option::Some(cat), nucleus: self.nucleus, codas: self.codas }
    }

    /// Replace the single-nucleus category, each string becoming a fragment
    /// of weight 1.
    pub fn with_nuclei(self, nucleus: &[&str]) -> (r: Self)
        ensures
            r@.nucleus == Option::Some(cat_of_texts(texts_of_strs(nucleus@))),
            r@.onsets == self@.onsets,
            r@.codas == self@.codas,
    {
        let cat = Grapheme::map_slice(nucleus);
        proof {
            assert(cat.deep_view() =~= cat_of_texts(texts_of_strs(nucleus@)));
        }
        SyllableBuilder { onsets: self.onsets, nucleus: Option::Some(cat), codas: self.codas }
    }

    /// Replace the single-coda category, each string becoming a fragment
    /// of weight 1.
    pub fn with_codas(self, codas: &[&str]) -> (r: Self)
        ensures
            r@.codas == Option::Some(cat_of_texts(texts_of_strs(codas@))),
            r@.onsets == self@.onsets,
            r@.nucleus == self@.nucleus,
    {
        let cat = Grapheme::map_slice(codas);
        proof {
            assert(cat.deep_view() =~= cat_of_texts(texts_of_strs(codas@)));
        }
        SyllableBuilder { onsets: self.onsets, nucleus: self.nucleus, codas: Option::Some(cat) }
    }

    /// The generator this builder describes: overridden categories from the
    /// builder, everything else from the defaults.
    pub fn build(self) -> (r: Syllable)
        ensures
            r@ == built_view(self@),
    {
        let ghost b: SyllableBuilderView = self@;
        let onsets = match self.onsets {
            Option::Some(v) => v,
            Option::None => default_onsets(),
        };
        let nucleus = match self.nucleus {
            Option::Some(v) => v,
            Option::None => default_nuclei(),
        };
        let codas = match self.codas {
            Option::Some(v) => v,
            Option::None => default_codas(),
        };
        let r = Syllable::from_parts(
            onsets,
            default_onset_clusters(),
            nucleus,
            default_nucleus_clusters(),
            codas,
            default_coda_clusters(),
            DEFAULT_P_ONSET_EXISTS,
            DEFAULT_P_ONSET_IS_CLUSTER,
            DEFAULT_P_NUCLEUS_IS_CLUSTER,
            DEFAULT_P_CODA_EXISTS,
            DEFAULT_P_CODA_IS_CLUSTER,
        );
        proof {
            assert(r@ =~= built_view(b));
        }
        r
    }
}

} // verus!
