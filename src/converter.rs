//! The conversion pipeline: split, recase, join.
use vstd::prelude::*;
use vstd::string::StringExecFns;

use crate::boundary::{all_boundaries, split, split_of, Boundary};
use crate::text::{join, join_words, words_view};
use crate::user_case::UserCase;
use crate::user_pattern::UserPattern;

verus! {

/// The text `s` split at `bs`, recased by `p` and joined with `delim`.
pub open spec fn converted(
    bs: Seq<Boundary>,
    p: UserPattern,
    delim: Seq<char>,
    s: Seq<char>,
) -> Seq<char> {
    join(p.apply_spec(split_of(s, bs)), delim)
}

/// What a conversion reads: the boundaries that split the input, the
/// pattern that recases its words and the delimiter that joins them.
pub struct Converter {
    pub boundaries: Vec<Boundary>,
    pub pattern: UserPattern,
    pub delim: String,
}

impl Converter {
    /// What this converter makes of the text `s`.
    pub open spec fn convert_spec(&self, s: Seq<char>) -> Seq<char> {
        converted(self.boundaries@, self.pattern, self.delim@, s)
    }

    /// A converter that splits at every boundary, leaves the words as they
    /// are and joins them with nothing between.
    pub fn new() -> (r: Converter)
        ensures
            r.boundaries@ == all_boundaries(),
            r.pattern == UserPattern::Noop,
            r.delim@ == Seq::<char>::empty(),
    {
        Converter { boundaries: Boundary::all(), pattern: UserPattern::Noop, delim: String::new() }
    }

    /// Splits input as a text written in `case` is split.
    pub fn from_case(self, case: UserCase) -> (r: Converter)
        ensures
            r.boundaries@ == case.boundaries_spec(),
            r.pattern == self.pattern,
            r.delim@ == self.delim@,
    {
        Converter { boundaries: case.boundaries(), ..self }
    }

    /// Splits input at the boundaries `bs`.
    pub fn set_boundaries(self, bs: &Vec<Boundary>) -> (r: Converter)
        ensures
            r.boundaries@ == bs@,
            r.pattern == self.pattern,
            r.delim@ == self.delim@,
    {
        Converter { boundaries: bs.clone(), ..self }
    }

    /// Recases and joins the words as `case` writes them.
    pub fn to_case(self, case: UserCase) -> (r: Converter)
        ensures
            r.boundaries@ == self.boundaries@,
            r.pattern == case.pattern_spec(),
            r.delim@ == case.delim_spec(),
    {
        Converter { pattern: case.pattern(), delim: String::from_str(case.delim()), ..self }
    }

    /// Recases the words by `p`.
    pub fn set_pattern(self, p: UserPattern) -> (r: Converter)
        ensures
            r.boundaries@ == self.boundaries@,
            r.pattern == p,
            r.delim@ == self.delim@,
    {
        Converter { pattern: p, ..self }
    }

    /// Joins the words with `d`.
    pub fn set_delim(self, d: &str) -> (r: Converter)
        ensures
            r.boundaries@ == self.boundaries@,
            r.pattern == self.pattern,
            r.delim@ == d@,
    {
        Converter { delim: String::from_str(d), ..self }
    }

    /// Converts `s`: splits it at the boundaries, recases the words by the
    /// pattern and joins them with the delimiter. The empty text stays empty.
    pub fn convert(&self, s: &str) -> (r: String)
        ensures
            r@ == self.convert_spec(s@),
            s@.len() == 0 ==> r@.len() == 0,
    {
        let words = split(s, &self.boundaries);
        let recased = self.pattern.apply(&words);
        let r = join_words(&recased, self.delim.as_str());
        proof {
            if s@.len() == 0 {
                assert(words_view(recased@) =~= Seq::<Seq<char>>::empty());
            }
        }
        r
    }

    /// Converts each text, keeping their order.
    pub fn convert_all(&self, inputs: &Vec<String>) -> (r: Vec<String>)
        ensures
            r@.len() == inputs@.len(),
            forall|i: int| 0 <= i < inputs@.len() ==> #[trigger] r@[i]@ == self.convert_spec(
                inputs@[i]@,
            ),
    {
        let mut r: Vec<String> = Vec::new();
        let mut i: usize = 0;
        while i < inputs.len()
            invariant
                i <= inputs@.len(),
                r@.len() == i,
                forall|j: int| 0 <= j < i ==> #[trigger] r@[j]@ == self.convert_spec(inputs@[j]@),
            decreases inputs@.len() - i,
        {
            let out = self.convert(inputs[i].as_str());
            r.push(out);
            i += 1;
        }
        r
    }
}

/// Splitting is a function of the text and the boundaries: equal texts
/// split at equal boundaries give the same words, however often it is done.
pub proof fn lemma_split_deterministic(s1: Seq<char>, s2: Seq<char>, b1: Seq<Boundary>, b2: Seq<Boundary>)
    requires
        s1 == s2,
        b1 == b2,
    ensures
        split_of(s1, b1) == split_of(s2, b2),
{
}

/// A conversion is a function of the converter's settings and the text:
/// two converters with the same settings give the same result on equal texts.
pub proof fn lemma_convert_deterministic(c1: &Converter, c2: &Converter, s1: Seq<char>, s2: Seq<char>)
    requires
        c1.boundaries@ == c2.boundaries@,
        c1.pattern == c2.pattern,
        c1.delim@ == c2.delim@,
        s1 == s2,
    ensures
        c1.convert_spec(s1) == c2.convert_spec(s2),
{
}

} // verus!
