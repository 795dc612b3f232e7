//! A procedural syllable and name generator.
//!
//! A [`Syllable`] generator holds six categories of phonetic fragments
//! (onsets, nuclei, codas, and a multi-character cluster variant of each)
//! together with five probabilities that gate the optional slots and the
//! cluster-versus-single choice. Each call to [`Syllable::gen_syllable`]
//! composes one fragment per slot, chosen uniformly at random from the
//! configured category; [`Syllable::gen_name`] concatenates a requested
//! number of independently generated syllables.
//!
//! Probabilities are expressed in parts per million of [`PROB_ONE`]:
//! `0` never succeeds, any value at or above `PROB_ONE` always succeeds.

mod builder;
mod defaults;
mod grapheme;
mod laws;
mod rng;
mod syllable;

pub use rng::PROB_ONE;
pub use grapheme::Grapheme;
pub use grapheme::GraphemeView;
pub use grapheme::in_cat;
pub use syllable::Syllable;
pub use syllable::SyllableView;
pub use syllable::all_syllables;
pub use syllable::can_gen;
pub use syllable::coda_ok;
pub use syllable::concat_all;
pub use syllable::default_view;
pub use syllable::is_name;
pub use syllable::is_syllable;
pub use syllable::lemma_concat_all_push;
pub use syllable::nucleus_ok;
pub use syllable::onset_ok;
pub use syllable::opt_text;
pub use syllable::slot_pick_ok;
pub use syllable::slot_safe;
pub use syllable::syllable_parts_ok;
pub use builder::SyllableBuilder;
pub use builder::SyllableBuilderView;
pub use builder::built_view;
pub use builder::texts_of_strs;
pub use defaults::DEFAULT_P_CODA_EXISTS;
pub use defaults::DEFAULT_P_CODA_IS_CLUSTER;
pub use defaults::DEFAULT_P_NUCLEUS_IS_CLUSTER;
pub use defaults::DEFAULT_P_ONSET_EXISTS;
pub use defaults::DEFAULT_P_ONSET_IS_CLUSTER;
pub use defaults::cat_of_texts;
pub use defaults::default_coda_cluster_texts;
pub use defaults::default_coda_texts;
pub use defaults::default_nucleus_cluster_texts;
pub use defaults::default_nucleus_texts;
pub use defaults::default_onset_cluster_texts;
pub use defaults::default_onset_texts;
pub use laws::all_texts_nonempty;
pub use laws::lemma_empty_clusters_force_singles;
pub use laws::lemma_onset_always;
pub use laws::lemma_onset_never;
pub use laws::lemma_syllable_nonempty;
