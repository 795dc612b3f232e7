use vstd::prelude::*;
use crate::grapheme::Grapheme;
use crate::grapheme::GraphemeView;

verus! {

/// Default probability that a syllable has an onset at all.
pub const DEFAULT_P_ONSET_EXISTS: u32 = 950_000;

/// Default probability that a chosen onset is a cluster.
pub const DEFAULT_P_ONSET_IS_CLUSTER: u32 = 250_000;

/// Default probability that the nucleus is a cluster.
pub const DEFAULT_P_NUCLEUS_IS_CLUSTER: u32 = 250_000;

/// Default probability that a syllable has a coda at all.
pub const DEFAULT_P_CODA_EXISTS: u32 = 100_000;

/// Default probability that a chosen coda is a cluster.
pub const DEFAULT_P_CODA_IS_CLUSTER: u32 = 250_000;

/// The category whose entries carry the given texts, each with weight 1.
pub open spec fn cat_of_texts(texts: Seq<Seq<char>>) -> Seq<GraphemeView> {
    texts.map_values(|t: Seq<char>| GraphemeView { text: t, weight: 1 })
}

/// Texts of the default single onsets.
pub open spec fn default_onset_texts() -> Seq<Seq<char>> {
    seq![
        "b"@, "c"@, "d"@, "f"@, "g"@, "h"@, "j"@, "k"@, "l"@, "m"@, "n"@,
        "p"@, "q"@, "r"@, "s"@, "t"@, "v"@, "w"@, "x"@, "y"@, "z"@,
    ]
}

/// Texts of the default onset clusters.
pub open spec fn default_onset_cluster_texts() -> Seq<Seq<char>> {
    seq![
        "ch"@, "sh"@, "bl"@, "cl"@, "fl"@, "pl"@, "gl"@, "br"@, "cr"@,
        "dr"@, "pr"@, "tr"@, "th"@, "sc"@, "sp"@, "st"@, "sl"@, "spr"@,
    ]
}

/// Texts of the default single nuclei.
pub open spec fn default_nucleus_texts() -> Seq<Seq<char>> {
    seq!["a"@, "e"@, "i"@, "o"@, "u"@]
}

/// Texts of the default nucleus clusters.
pub open spec fn default_nucleus_cluster_texts() -> Seq<Seq<char>> {
    seq!["ae"@, "ea"@, "ai"@, "ia"@, "au"@, "ay"@, "ie"@, "oi"@, "ou"@, "ey"@]
}

/// Texts of the default single codas.
pub open spec fn default_coda_texts() -> Seq<Seq<char>> {
    seq![
        "b"@, "c"@, "d"@, "f"@, "g"@, "h"@, "k"@, "l"@, "m"@, "n"@, "p"@,
        "r"@, "s"@, "t"@, "v"@, "x"@, "y"@,
    ]
}

/// Texts of the default coda clusters.
pub open spec fn default_coda_cluster_texts() -> Seq<Seq<char>> {
    seq![
        "ck"@, "st"@, "sc"@, "ng"@, "nk"@, "rsh"@, "lsh"@, "rk"@, "rst"@,
        "nct"@, "xt"@,
    ]
}

/// The default single-onset category.
pub fn default_onsets() -> (r: Vec<Grapheme>)
    ensures
        r.deep_view() == cat_of_texts(default_onset_texts()),
{
    let v = vec![
        "b", "c", "d", "f", "g", "h", "j", "k", "l", "m", "n", "p", "q", "r",
        "s", "t", "v", "w", "x", "y", "z",
    ];
    let r = Grapheme::map_slice(v.as_slice());
    proof {
        assert(r.deep_view() =~= cat_of_texts(default_onset_texts()));
    }
    r
}

/// The default onset-cluster category.
pub fn default_onset_clusters() -> (r: Vec<Grapheme>)
    ensures
        r.deep_view() == cat_of_texts(default_onset_cluster_texts()),
{
    let v = vec![
        "ch", "sh", "bl", "cl", "fl", "pl", "gl", "br", "cr", "dr", "pr",
        "tr", "th", "sc", "sp", "st", "sl", "spr",
    ];
    let r = Grapheme::map_slice(v.as_slice());
    proof {
        assert(r.deep_view() =~= cat_of_texts(default_onset_cluster_texts()));
    }
    r
}

/// The default single-nucleus category.
pub fn default_nuclei() -> (r: Vec<Grapheme>)
    ensures
        r.deep_view() == cat_of_texts(default_nucleus_texts()),
{
    let v = vec!["a", "e", "i", "o", "u"];
    let r = Grapheme::map_slice(v.as_slice());
    proof {
        assert(r.deep_view() =~= cat_of_texts(default_nucleus_texts()));
    }
    r
}

/// The default nucleus-cluster category.
pub fn default_nucleus_clusters() -> (r: Vec<Grapheme>)
    ensures
        r.deep_view() == cat_of_texts(default_nucleus_cluster_texts()),
{
    let v = vec!["ae", "ea", "ai", "ia", "au", "ay", "ie", "oi", "ou", "ey"];
    let r = Grapheme::map_slice(v.as_slice());
    proof {
        assert(r.deep_view() =~= cat_of_texts(default_nucleus_cluster_texts()));
    }
    r
}

/// The default single-coda category.
pub fn default_codas() -> (r: Vec<Grapheme>)
    ensures
        r.deep_view() == cat_of_texts(default_coda_texts()),
{
    let v = vec![
        "b", "c", "d", "f", "g", "h", "k", "l", "m", "n", "p", "r", "s", "t",
        "v", "x", "y",
    ];
    let r = Grapheme::map_slice(v.as_slice());
    proof {
        assert(r.deep_view() =~= cat_of_texts(default_coda_texts()));
    }
    r
}

/// The default coda-cluster category.
pub fn default_coda_clusters() -> (r: Vec<Grapheme>)
    ensures
        r.deep_view() == cat_of_texts(default_coda_cluster_texts()),
{
    let v = vec!["ck", "st", "sc", "ng", "nk", "rsh", "lsh", "rk", "rst", "nct", "xt"];
    let r = Grapheme::map_slice(v.as_slice());
    proof {
        assert(r.deep_view() =~= cat_of_texts(default_coda_cluster_texts()));
    }
    r
}

} // verus!
