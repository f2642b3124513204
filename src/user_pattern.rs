//! The patterns that recase a list of words.
use vstd::prelude::*;

use crate::text::{fold, lemma_same_folded_shared, same_folded, same_ignoring_ascii_case, UnknownName, words_view};

verus! {

/// A rule that recases each word of a list by its place in the list.
#[derive(Debug, Clone, Copy, PartialEq, Eq, Hash, Structural)]
pub enum UserPattern {
    Alternating,
    Camel,
    Capital,
    Lowercase,
    Noop,
    Sentence,
    Toggle,
    Uppercase,
}

/// The word in lower case (`str::to_lowercase`).
pub uninterp spec fn lower_word(w: Seq<char>) -> Seq<char>;

/// The word in upper case (`str::to_uppercase`).
pub uninterp spec fn upper_word(w: Seq<char>) -> Seq<char>;

/// The word with its first grapheme upper case and the rest lower case.
pub uninterp spec fn capital_word(w: Seq<char>) -> Seq<char>;

/// The word with its first grapheme lower case and the rest upper case.
pub uninterp spec fn toggle_word(w: Seq<char>) -> Seq<char>;

/// The letters alternately lower and upper case, starting lower, counted
/// across all the words.
pub uninterp spec fn alternating_of(words: Seq<Seq<char>>) -> Seq<Seq<char>>;

/// Relies on convert_case::pattern::lowercase: `str::to_lowercase` of each word.
#[verifier::external_body]
fn lowercase_words(words: &Vec<String>) -> (r: Vec<String>)
    ensures
        r@.len() == words@.len(),
        forall|i: int| 0 <= i < r@.len() ==> #[trigger] r@[i]@ == lower_word(words@[i]@),
{
    let w: Vec<&str> = words.iter().map(|s| s.as_str()).collect();
    convert_case::pattern::lowercase(&w)
}

/// Relies on convert_case::pattern::uppercase: `str::to_uppercase` of each word.
#[verifier::external_body]
fn uppercase_words(words: &Vec<String>) -> (r: Vec<String>)
    ensures
        r@.len() == words@.len(),
        forall|i: int| 0 <= i < r@.len() ==> #[trigger] r@[i]@ == upper_word(words@[i]@),
{
    let w: Vec<&str> = words.iter().map(|s| s.as_str()).collect();
    convert_case::pattern::uppercase(&w)
}

/// Relies on convert_case::pattern::capital: each word capitalised.
#[verifier::external_body]
fn capital_words(words: &Vec<String>) -> (r: Vec<String>)
    ensures
        r@.len() == words@.len(),
        forall|i: int| 0 <= i < r@.len() ==> #[trigger] r@[i]@ == capital_word(words@[i]@),
{
    let w: Vec<&str> = words.iter().map(|s| s.as_str()).collect();
    convert_case::pattern::capital(&w)
}

/// Relies on convert_case::pattern::camel: the first word lower-cased, every later
/// word capitalised.
#[verifier::external_body]
fn camel_words(words: &Vec<String>) -> (r: Vec<String>)
    ensures
        r@.len() == words@.len(),
        forall|i: int|
            0 <= i < r@.len() ==> #[trigger] r@[i]@ == if i == 0 {
                lower_word(words@[i]@)
            } else {
                capital_word(words@[i]@)
            },
{
    let w: Vec<&str> = words.iter().map(|s| s.as_str()).collect();
    convert_case::pattern::camel(&w)
}

/// Relies on convert_case::pattern::sentence: the first word capitalised, every
/// later word lower-cased.
#[verifier::external_body]
fn sentence_words(words: &Vec<String>) -> (r: Vec<String>)
    ensures
        r@.len() == words@.len(),
        forall|i: int|
            0 <= i < r@.len() ==> #[trigger] r@[i]@ == if i == 0 {
                capital_word(words@[i]@)
            } else {
                lower_word(words@[i]@)
            },
{
    let w: Vec<&str> = words.iter().map(|s| s.as_str()).collect();
    convert_case::pattern::sentence(&w)
}

/// Relies on convert_case::pattern::toggle: each word toggled.
#[verifier::external_body]
fn toggle_words(words: &Vec<String>) -> (r: Vec<String>)
    ensures
        r@.len() == words@.len(),
        forall|i: int| 0 <= i < r@.len() ==> #[trigger] r@[i]@ == toggle_word(words@[i]@),
{
    let w: Vec<&str> = words.iter().map(|s| s.as_str()).collect();
    convert_case::pattern::toggle(&w)
}

/// Relies on convert_case::pattern::alternating: one recased word per word.
#[verifier::external_body]
fn alternating_words(words: &Vec<String>) -> (r: Vec<String>)
    ensures
        r@.len() == words@.len(),
        words_view(r@) == alternating_of(words_view(words@)),
{
    let w: Vec<&str> = words.iter().map(|s| s.as_str()).collect();
    convert_case::pattern::alternating(&w)
}

/// The words as they are.
fn noop_words(words: &Vec<String>) -> (r: Vec<String>)
    ensures
        words_view(r@) == words_view(words@),
        r@.len() == words@.len(),
{
    let mut r: Vec<String> = Vec::new();
    let mut i: usize = 0;
    while i < words.len()
        invariant
            i <= words@.len(),
            r@.len() == i,
            forall|j: int| 0 <= j < i ==> #[trigger] r@[j]@ == words@[j]@,
        decreases words@.len() - i,
    {
        r.push(words[i].clone());
        i += 1;
    }
    assert(words_view(r@) =~= words_view(words@));
    r
}

/// Every pattern, in the order in which they are listed.
pub open spec fn all_patterns() -> Seq<UserPattern> {
    seq![
        UserPattern::Alternating,
        UserPattern::Camel,
        UserPattern::Capital,
        UserPattern::Lowercase,
        UserPattern::Noop,
        UserPattern::Sentence,
        UserPattern::Toggle,
        UserPattern::Uppercase,
    ]
}

/// The first pattern, from the `i`-th on, whose name equals `s` up to ASCII case.
pub open spec fn pattern_named_from(s: Seq<char>, i: nat) -> Option<UserPattern>
    decreases 8 - i,
{
    if i >= 8 {
        None
    } else if same_folded(s, all_patterns()[i as int].name_spec()) {
        Some(all_patterns()[i as int])
    } else {
        pattern_named_from(s, i + 1)
    }
}

/// The pattern whose name equals `s` up to ASCII case, if there is one.
pub open spec fn pattern_named(s: Seq<char>) -> Option<UserPattern> {
    pattern_named_from(s, 0)
}

impl UserPattern {
    /// The name by which the pattern is chosen.
    pub open spec fn name_spec(self) -> Seq<char> {
        match self {
            UserPattern::Alternating => "alternating"@,
            UserPattern::Camel => "camel"@,
            UserPattern::Capital => "capital"@,
            UserPattern::Lowercase => "lowercase"@,
            UserPattern::Noop => "noop"@,
            UserPattern::Sentence => "sentence"@,
            UserPattern::Toggle => "toggle"@,
            UserPattern::Uppercase => "uppercase"@,
        }
    }

    /// What the pattern makes of the word at place `i` of a list: every
    /// pattern but the alternating one recases each word on its own.
    pub open spec fn word_spec(self, i: int, w: Seq<char>) -> Seq<char> {
        match self {
            UserPattern::Camel => if i == 0 {
                lower_word(w)
            } else {
                capital_word(w)
            },
            UserPattern::Capital => capital_word(w),
            UserPattern::Lowercase => lower_word(w),
            UserPattern::Sentence => if i == 0 {
                capital_word(w)
            } else {
                lower_word(w)
            },
            UserPattern::Toggle => toggle_word(w),
            UserPattern::Uppercase => upper_word(w),
            UserPattern::Alternating | UserPattern::Noop => w,
        }
    }

    /// What the pattern makes of the words: the same number of words, each
    /// recased by its place, or for the alternating pattern by the letters
    /// before it.
    pub open spec fn apply_spec(self, words: Seq<Seq<char>>) -> Seq<Seq<char>> {
        match self {
            UserPattern::Alternating => alternating_of(words),
            _ => Seq::new(words.len(), |i: int| self.word_spec(i, words[i])),
        }
    }

    /// The line of help that shows the pattern at work.
    pub open spec fn example_spec(self) -> Seq<char> {
        match self {
            UserPattern::Lowercase => "lower, lower, ..."@,
            UserPattern::Uppercase => "UPPER, UPPER, ..."@,
            UserPattern::Capital => "Capital, Capital, ..."@,
            UserPattern::Sentence => "Capital, lower, lower, ..."@,
            UserPattern::Camel => "lower, Capital, Capital, ..."@,
            UserPattern::Alternating => "aLtErNaTiNg, aLtErNaTiNg, ..."@,
            UserPattern::Toggle => "tOGGLE, tOGGLE, ..."@,
            UserPattern::Noop => "unchanged, unchanged, ..."@,
        }
    }

    /// Recases the words; the result has one word for each word given.
    pub fn apply(self, words: &Vec<String>) -> (r: Vec<String>)
        ensures
            words_view(r@) == self.apply_spec(words_view(words@)),
            r@.len() == words@.len(),
    {
        let r = match self {
            UserPattern::Alternating => alternating_words(words),
            UserPattern::Camel => camel_words(words),
            UserPattern::Capital => capital_words(words),
            UserPattern::Lowercase => lowercase_words(words),
            UserPattern::Noop => noop_words(words),
            UserPattern::Sentence => sentence_words(words),
            UserPattern::Toggle => toggle_words(words),
            UserPattern::Uppercase => uppercase_words(words),
        };
        proof {
            if self != UserPattern::Alternating {
                assert(words_view(r@) =~= self.apply_spec(words_view(words@)));
            }
        }
        r
    }

    /// The name by which the pattern is chosen.
    pub fn short_name(self) -> (r: &'static str)
        ensures
            r@ == self.name_spec(),
    {
        match self {
            UserPattern::Alternating => "alternating",
            UserPattern::Camel => "camel",
            UserPattern::Capital => "capital",
            UserPattern::Lowercase => "lowercase",
            UserPattern::Noop => "noop",
            UserPattern::Sentence => "sentence",
            UserPattern::Toggle => "toggle",
            UserPattern::Uppercase => "uppercase",
        }
    }

    /// The line of help that shows the pattern at work.
    pub fn example(&self) -> (r: &'static str)
        ensures
            r@ == self.example_spec(),
    {
        match self {
            UserPattern::Lowercase => "lower, lower, ...",
            UserPattern::Uppercase => "UPPER, UPPER, ...",
            UserPattern::Capital => "Capital, Capital, ...",
            UserPattern::Sentence => "Capital, lower, lower, ...",
            UserPattern::Camel => "lower, Capital, Capital, ...",
            UserPattern::Alternating => "aLtErNaTiNg, aLtErNaTiNg, ...",
            UserPattern::Toggle => "tOGGLE, tOGGLE, ...",
            UserPattern::Noop => "unchanged, unchanged, ...",
        }
    }

    /// Every pattern, in the order in which they are listed.
    pub fn all() -> (r: Vec<UserPattern>)
        ensures
            r@ == all_patterns(),
    {
        let r = vec![
            UserPattern::Alternating,
            UserPattern::Camel,
            UserPattern::Capital,
            UserPattern::Lowercase,
            UserPattern::Noop,
            UserPattern::Sentence,
            UserPattern::Toggle,
            UserPattern::Uppercase,
        ];
        assert(r@ =~= all_patterns());
        r
    }

    /// The pattern whose name equals `s` up to ASCII case; `None` when no
    /// pattern has that name.
    pub fn from_name(s: &str) -> (r: Option<UserPattern>)
        ensures
            r == pattern_named(s@),
    {
        let all = UserPattern::all();
        let mut i: usize = 0;
        while i < all.len()
            invariant
                all@ == all_patterns(),
                i <= 8,
                pattern_named(s@) == pattern_named_from(s@, i as nat),
            decreases 8 - i,
        {
            let p = all[i];
            if same_ignoring_ascii_case(s, p.short_name()) {
                return Some(p);
            }
            i += 1;
        }
        None
    }
}

/// A text equal up to ASCII case to a pattern's own name names that pattern.
pub proof fn lemma_name_names_pattern(s: Seq<char>, v: UserPattern)
    requires
        same_folded(s, v.name_spec()),
    ensures
        pattern_named(s) == Some(v),
{
    assert forall|k: int| 0 <= k < 8 implies same_folded(s, #[trigger] all_patterns()[k].name_spec()) == same_folded(v.name_spec(), all_patterns()[k].name_spec()) by {
        lemma_same_folded_shared(s, v.name_spec(), all_patterns()[k].name_spec());
    }
    reveal_strlit("alternating");
    reveal_strlit("camel");
    reveal_strlit("capital");
    reveal_strlit("lowercase");
    reveal_strlit("noop");
    reveal_strlit("sentence");
    reveal_strlit("toggle");
    reveal_strlit("uppercase");
    reveal_with_fuel(pattern_named_from, 9);
    match v {
        UserPattern::Alternating => {
            assert(same_folded("alternating"@, "alternating"@));
        },
        UserPattern::Camel => {
            assert(same_folded("camel"@, "camel"@));
        },
        UserPattern::Capital => {
            assert(same_folded("capital"@, "capital"@));
        },
        UserPattern::Lowercase => {
            assert(same_folded("lowercase"@, "lowercase"@));
        },
        UserPattern::Noop => {
            assert(same_folded("noop"@, "noop"@));
        },
        UserPattern::Sentence => {
            assert(same_folded("sentence"@, "sentence"@));
        },
        UserPattern::Toggle => {
            assert(same_folded("toggle"@, "toggle"@));
        },
        UserPattern::Uppercase => {
            assert(fold("uppercase"@[0]) != fold("lowercase"@[0]));
            assert(same_folded("uppercase"@, "uppercase"@));
        },
    }
}

impl core::str::FromStr for UserPattern {
    type Err = UnknownName;

    fn from_str(s: &str) -> Result<UserPattern, UnknownName> {
        match UserPattern::from_name(s) {
            Some(v) => Ok(v),
            None => Err(UnknownName),
        }
    }
}

} // verus!
