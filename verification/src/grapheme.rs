use vstd::prelude::*;
use vstd::slice::slice_index_get;
use vstd::string::StringExecFns;

verus! {

/// One catalog entry: a piece of text usable in a syllable slot, together
/// with a weight that is carried by the data model but not yet consumed by
/// selection (selection is uniform; the weight is reserved for future
/// weighted sampling).
pub struct Grapheme {
    text: String,
    weight: u32,
}

/// The mathematical content of a [`Grapheme`]: its character sequence and
/// its weight.
#[verifier::ext_equal]
pub ghost struct GraphemeView {
    pub text: Seq<char>,
    pub weight: u32,
}

impl View for Grapheme {
    type V = GraphemeView;

    closed spec fn view(&self) -> GraphemeView {
        GraphemeView { text: self.text@, weight: self.weight }
    }
}

impl DeepView for Grapheme {
    type V = GraphemeView;

    open spec fn deep_view(&self) -> GraphemeView {
        self.view()
    }
}

/// Whether some entry of the category `cat` has exactly the text `t`.
pub open spec fn in_cat(cat: Seq<GraphemeView>, t: Seq<char>) -> bool {
    exists|i: int| 0 <= i < cat.len() && cat[i].text == t
}

impl Grapheme {
    /// A fragment with the given text and weight.
    pub fn new(s: &str, weight: u32) -> (r: Self)
        ensures
            r@.text == s@,
            r@.weight == weight,
    {
        Grapheme { text: String::from_str(s), weight }
    }

    /// The fragment's text as an owned string.
    pub fn string(&self) -> (r: String)
        ensures
            r@ == self@.text,
    {
        self.text.clone()
    }

    /// The fragment's text, borrowed.
    pub fn as_str(&self) -> (r: &str)
        ensures
            r@ == self@.text,
    {
        self.text.as_str()
    }

    /// The fragment's weight.
    pub fn weight(&self) -> (r: u32)
        ensures
            r == self@.weight,
    {
        self.weight
    }

    /// Turn each string of `slice` into a fragment of weight 1, keeping
    /// the order of the slice.
    pub fn map_slice(slice: &[&str]) -> (r: Vec<Grapheme>)
        ensures
            r.deep_view().len() == slice@.len(),
            forall|i: int|
                0 <= i < slice@.len() ==> r.deep_view()[i].text == slice@[i]@
                    && r.deep_view()[i].weight == 1,
    {
        let n = slice.len();
        let mut r: Vec<Grapheme> = Vec::new();
        let mut i: usize = 0;
        while i < n
            invariant
                n == slice@.len(),
                i <= n,
                r.deep_view().len() == i as nat,
                forall|j: int|
                    0 <= j < i ==> r.deep_view()[j].text == slice@[j]@
                        && r.deep_view()[j].weight == 1,
            decreases n - i,
        {
            let s = slice_index_get(slice, i);
            let g = Grapheme::new(*s, 1);
            r.push(g);
            i = i + 1;
        }
        r
    }
}

} // verus!
