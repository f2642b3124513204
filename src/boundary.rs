//! The conditions that separate words, and splitting a text at them.
use vstd::prelude::*;

use crate::text::{same_text, words_view};

verus! {

/// A condition between two neighbouring characters that ends a word.
#[derive(Debug, Clone, Copy, PartialEq, Eq, Hash, Structural)]
pub enum Boundary {
    /// `_`, consumed.
    Underscore,
    /// `-`, consumed.
    Hyphen,
    /// A space, consumed.
    Space,
    /// A lower-case letter followed by an upper-case one.
    LowerUpper,
    /// A lower-case letter followed by a digit.
    LowerDigit,
    /// An upper-case letter followed by a digit.
    UpperDigit,
    /// A digit followed by a lower-case letter.
    DigitLower,
    /// A digit followed by an upper-case letter.
    DigitUpper,
    /// A run of upper-case letters followed by an upper-case letter and a
    /// lower-case one: the split falls before that last upper-case letter.
    Acronym,
}

/// Every boundary, in the order in which the splitter tries them.
pub open spec fn all_boundaries() -> Seq<Boundary> {
    seq![
        Boundary::Underscore,
        Boundary::Hyphen,
        Boundary::Space,
        Boundary::LowerUpper,
        Boundary::LowerDigit,
        Boundary::UpperDigit,
        Boundary::DigitLower,
        Boundary::DigitUpper,
        Boundary::Acronym,
    ]
}

/// The case and digit transitions.
pub open spec fn transitions() -> Seq<Boundary> {
    seq![
        Boundary::LowerUpper,
        Boundary::Acronym,
        Boundary::LowerDigit,
        Boundary::UpperDigit,
        Boundary::DigitLower,
        Boundary::DigitUpper,
    ]
}

/// The words of `s` under the boundaries `bs`, left to right, with the
/// separator characters left out.
pub uninterp spec fn split_of(s: Seq<char>, bs: Seq<Boundary>) -> Seq<Seq<char>>;

/// Whether some boundary of the single `b` occurs in `s`: splitting `s` at `b`
/// alone does not give back `s` as its one word.
pub open spec fn occurs_in(s: Seq<char>, b: Boundary) -> bool {
    split_of(s, seq![b]) != seq![s]
}

impl Boundary {
    /// The place of this boundary in [`all_boundaries`].
    pub open spec fn index_spec(self) -> int {
        match self {
            Boundary::Underscore => 0,
            Boundary::Hyphen => 1,
            Boundary::Space => 2,
            Boundary::LowerUpper => 3,
            Boundary::LowerDigit => 4,
            Boundary::UpperDigit => 5,
            Boundary::DigitLower => 6,
            Boundary::DigitUpper => 7,
            Boundary::Acronym => 8,
        }
    }

    /// The place of this boundary in the list of every boundary.
    pub fn index(self) -> (r: usize)
        ensures
            r as int == self.index_spec(),
            all_boundaries()[r as int] == self,
    {
        match self {
            Boundary::Underscore => 0,
            Boundary::Hyphen => 1,
            Boundary::Space => 2,
            Boundary::LowerUpper => 3,
            Boundary::LowerDigit => 4,
            Boundary::UpperDigit => 5,
            Boundary::DigitLower => 6,
            Boundary::DigitUpper => 7,
            Boundary::Acronym => 8,
        }
    }

    /// Every boundary, in the order in which the splitter tries them.
    pub fn all() -> (r: Vec<Boundary>)
        ensures
            r@ == all_boundaries(),
    {
        let r = vec![
            Boundary::Underscore,
            Boundary::Hyphen,
            Boundary::Space,
            Boundary::LowerUpper,
            Boundary::LowerDigit,
            Boundary::UpperDigit,
            Boundary::DigitLower,
            Boundary::DigitUpper,
            Boundary::Acronym,
        ];
        assert(r@ =~= all_boundaries());
        r
    }

    /// The case and digit transitions.
    pub fn transitions() -> (r: Vec<Boundary>)
        ensures
            r@ == transitions(),
    {
        let r = vec![
            Boundary::LowerUpper,
            Boundary::Acronym,
            Boundary::LowerDigit,
            Boundary::UpperDigit,
            Boundary::DigitLower,
            Boundary::DigitUpper,
        ];
        assert(r@ =~= transitions());
        r
    }
}

/// Relies on convert_case::split: the words of `s` at the boundaries of the
/// crate's default list that `bs` names. The source returns no words for an
/// empty text, drops empty segments, and, when no boundary is given, returns
/// the whole text as its one word.
#[verifier::external_body]
fn split_outside(s: &str, bs: &Vec<Boundary>) -> (r: Vec<String>)
    ensures
        words_view(r@) == split_of(s@, bs@),
        s@.len() == 0 ==> r@.len() == 0,
        forall|i: int| 0 <= i < r@.len() ==> #[trigger] r@[i]@.len() > 0,
        bs@.len() == 0 && s@.len() > 0 ==> words_view(r@) == seq![s@],
{
    let defaults = convert_case::Boundary::defaults();
    let outside: Vec<convert_case::Boundary> = bs.iter().map(|b| defaults[b.index()]).collect();
    convert_case::split(&s, &outside).into_iter().map(|w| w.to_string()).collect()
}

/// Splits `s` into its words at the boundaries `bs`.
pub fn split(s: &str, bs: &Vec<Boundary>) -> (r: Vec<String>)
    ensures
        words_view(r@) == split_of(s@, bs@),
        s@.len() == 0 ==> r@.len() == 0,
        forall|i: int| 0 <= i < r@.len() ==> #[trigger] r@[i]@.len() > 0,
{
    split_outside(s, bs)
}

/// The boundaries, in the order of [`all_boundaries`], that occur in `s`.
pub open spec fn boundaries_in(s: Seq<char>) -> Seq<Boundary> {
    all_boundaries().filter(|b: Boundary| occurs_in(s, b))
}

/// The boundaries that `s` shows by example: `"aA"` names the lower-to-upper
/// transition, `"_"` the underscore. Characters that show none are ignored,
/// and the empty string shows none.
pub fn boundaries_from_chars(s: &str) -> (r: Vec<Boundary>)
    ensures
        s@.len() == 0 ==> r@.len() == 0,
        s@.len() > 0 ==> r@ == boundaries_in(s@),
{
    if s.unicode_len() == 0 {
        return Vec::new();
    }
    let all = Boundary::all();
    let mut r: Vec<Boundary> = Vec::new();
    let mut i: usize = 0;
    while i < all.len()
        invariant
            all@ == all_boundaries(),
            i <= all@.len(),
            r@ == all_boundaries().take(i as int).filter(|b: Boundary| occurs_in(s@, b)),
        decreases all@.len() - i,
    {
        let b = all[i];
        let one = vec![b];
        assert(one@ =~= seq![b]);
        let parts = split(s, &one);
        let keep = if parts.len() != 1 {
            assert(words_view(parts@).len() != seq![s@].len());
            true
        } else {
            let same = same_text(parts[0].as_str(), s);
            assert(words_view(parts@) =~= seq![parts@[0]@]);
            assert(same ==> words_view(parts@) =~= seq![s@]);
            assert(!same ==> words_view(parts@)[0] != seq![s@][0]);
            !same
        };
        proof {
            let t = all_boundaries().take(i as int + 1);
            assert(t.drop_last() =~= all_boundaries().take(i as int));
            assert(keep == occurs_in(s@, b));
            reveal(Seq::filter);
            assert(t.last() == b);
        }
        if keep {
            r.push(b);
        }
        i += 1;
    }
    assert(all_boundaries().take(9) =~= all_boundaries());
    r
}

} // verus!
