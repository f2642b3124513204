//! The named naming conventions.
use vstd::prelude::*;

use crate::boundary::{transitions, Boundary};
use crate::text::{fold, lemma_same_folded_shared, same_folded, same_ignoring_ascii_case, UnknownName};
use crate::user_pattern::UserPattern;

verus! {

/// A named naming convention: how a text in it is split into words, and
/// how words are recased and joined to write one.
#[derive(Debug, Clone, Copy, PartialEq, Eq, Hash, Structural)]
pub enum UserCase {
    Snake,
    Constant,
    UpperSnake,
    Ada,
    Kebab,
    Cobol,
    UpperKebab,
    Train,
    Flat,
    UpperFlat,
    Pascal,
    UpperCamel,
    Camel,
    Lower,
    Upper,
    Title,
    Sentence,
    Alternating,
    Toggle,
}

/// Every case, in the order in which they are listed.
pub open spec fn all_cases() -> Seq<UserCase> {
    seq![
        UserCase::Snake,
        UserCase::Constant,
        UserCase::UpperSnake,
        UserCase::Ada,
        UserCase::Kebab,
        UserCase::Cobol,
        UserCase::UpperKebab,
        UserCase::Train,
        UserCase::Flat,
        UserCase::UpperFlat,
        UserCase::Pascal,
        UserCase::UpperCamel,
        UserCase::Camel,
        UserCase::Lower,
        UserCase::Upper,
        UserCase::Title,
        UserCase::Sentence,
        UserCase::Alternating,
        UserCase::Toggle,
    ]
}

/// The first case, from the `i`-th on, whose name equals `s` up to ASCII case.
pub open spec fn case_named_from(s: Seq<char>, i: nat) -> Option<UserCase>
    decreases 19 - i,
{
    if i >= 19 {
        None
    } else if same_folded(s, all_cases()[i as int].name_spec()) {
        Some(all_cases()[i as int])
    } else {
        case_named_from(s, i + 1)
    }
}

/// The case whose name equals `s` up to ASCII case, if there is one.
pub open spec fn case_named(s: Seq<char>) -> Option<UserCase> {
    case_named_from(s, 0)
}

impl UserCase {
    /// The name by which the case is chosen.
    pub open spec fn name_spec(self) -> Seq<char> {
        match self {
            UserCase::Snake => "snake"@,
            UserCase::Constant => "constant"@,
            UserCase::UpperSnake => "uppersnake"@,
            UserCase::Ada => "ada"@,
            UserCase::Kebab => "kebab"@,
            UserCase::Cobol => "cobol"@,
            UserCase::UpperKebab => "upperkebab"@,
            UserCase::Train => "train"@,
            UserCase::Flat => "flat"@,
            UserCase::UpperFlat => "upperflat"@,
            UserCase::Pascal => "pascal"@,
            UserCase::UpperCamel => "uppercamel"@,
            UserCase::Camel => "camel"@,
            UserCase::Lower => "lower"@,
            UserCase::Upper => "upper"@,
            UserCase::Title => "title"@,
            UserCase::Sentence => "sentence"@,
            UserCase::Alternating => "alternating"@,
            UserCase::Toggle => "toggle"@,
        }
    }

    /// A text written in the case.
    pub open spec fn example_spec(self) -> Seq<char> {
        match self {
            UserCase::Snake => "snake_case"@,
            UserCase::Constant => "CONSTANT_CASE"@,
            UserCase::UpperSnake => "UPPER_SNAKE_CASE"@,
            UserCase::Ada => "Ada_Case"@,
            UserCase::Kebab => "kebab-case"@,
            UserCase::Cobol => "COBOL-CASE"@,
            UserCase::UpperKebab => "UPPER-KEBAB-CASE"@,
            UserCase::Train => "Train-Case"@,
            UserCase::Flat => "flatcase"@,
            UserCase::UpperFlat => "UPPERFLATCASE"@,
            UserCase::Pascal => "PascalCase"@,
            UserCase::UpperCamel => "UpperCamelCase"@,
            UserCase::Camel => "camelCase"@,
            UserCase::Lower => "lower case"@,
            UserCase::Upper => "UPPER CASE"@,
            UserCase::Title => "Title Case"@,
            UserCase::Sentence => "Sentence case"@,
            UserCase::Alternating => "aLtErNaTiNg CaSe"@,
            UserCase::Toggle => "tOGGLE cASE"@,
        }
    }

    /// The boundaries at which a text in this case is split.
    pub open spec fn boundaries_spec(self) -> Seq<Boundary> {
        match self {
            UserCase::Snake => seq![Boundary::Underscore],
            UserCase::Constant => seq![Boundary::Underscore],
            UserCase::UpperSnake => seq![Boundary::Underscore],
            UserCase::Ada => seq![Boundary::Underscore],
            UserCase::Kebab => seq![Boundary::Hyphen],
            UserCase::Cobol => seq![Boundary::Hyphen],
            UserCase::UpperKebab => seq![Boundary::Hyphen],
            UserCase::Train => seq![Boundary::Hyphen],
            UserCase::Flat => transitions(),
            UserCase::UpperFlat => transitions(),
            UserCase::Pascal => transitions(),
            UserCase::UpperCamel => transitions(),
            UserCase::Camel => transitions(),
            UserCase::Lower => seq![Boundary::Space],
            UserCase::Upper => seq![Boundary::Space],
            UserCase::Title => seq![Boundary::Space],
            UserCase::Sentence => seq![Boundary::Space],
            UserCase::Alternating => seq![Boundary::Space],
            UserCase::Toggle => seq![Boundary::Space],
        }
    }

    /// The text put between two words written in this case.
    pub open spec fn delim_spec(self) -> Seq<char> {
        match self {
            UserCase::Snake => "_"@,
            UserCase::Constant => "_"@,
            UserCase::UpperSnake => "_"@,
            UserCase::Ada => "_"@,
            UserCase::Kebab => "-"@,
            UserCase::Cobol => "-"@,
            UserCase::UpperKebab => "-"@,
            UserCase::Train => "-"@,
            UserCase::Flat => ""@,
            UserCase::UpperFlat => ""@,
            UserCase::Pascal => ""@,
            UserCase::UpperCamel => ""@,
            UserCase::Camel => ""@,
            UserCase::Lower => " "@,
            UserCase::Upper => " "@,
            UserCase::Title => " "@,
            UserCase::Sentence => " "@,
            UserCase::Alternating => " "@,
            UserCase::Toggle => " "@,
        }
    }

    /// The pattern that recases words written in this case.
    pub open spec fn pattern_spec(self) -> UserPattern {
        match self {
            UserCase::Snake => UserPattern::Lowercase,
            UserCase::Constant => UserPattern::Uppercase,
            UserCase::UpperSnake => UserPattern::Uppercase,
            UserCase::Ada => UserPattern::Capital,
            UserCase::Kebab => UserPattern::Lowercase,
            UserCase::Cobol => UserPattern::Uppercase,
            UserCase::UpperKebab => UserPattern::Uppercase,
            UserCase::Train => UserPattern::Capital,
            UserCase::Flat => UserPattern::Lowercase,
            UserCase::UpperFlat => UserPattern::Uppercase,
            UserCase::Pascal => UserPattern::Capital,
            UserCase::UpperCamel => UserPattern::Capital,
            UserCase::Camel => UserPattern::Camel,
            UserCase::Lower => UserPattern::Lowercase,
            UserCase::Upper => UserPattern::Uppercase,
            UserCase::Title => UserPattern::Capital,
            UserCase::Sentence => UserPattern::Sentence,
            UserCase::Alternating => UserPattern::Alternating,
            UserCase::Toggle => UserPattern::Toggle,
        }
    }

    /// The name by which the case is chosen.
    pub fn short_name(self) -> (r: &'static str)
        ensures
            r@ == self.name_spec(),
    {
        match self {
            UserCase::Snake => "snake",
            UserCase::Constant => "constant",
            UserCase::UpperSnake => "uppersnake",
            UserCase::Ada => "ada",
            UserCase::Kebab => "kebab",
            UserCase::Cobol => "cobol",
            UserCase::UpperKebab => "upperkebab",
            UserCase::Train => "train",
            UserCase::Flat => "flat",
            UserCase::UpperFlat => "upperflat",
            UserCase::Pascal => "pascal",
            UserCase::UpperCamel => "uppercamel",
            UserCase::Camel => "camel",
            UserCase::Lower => "lower",
            UserCase::Upper => "upper",
            UserCase::Title => "title",
            UserCase::Sentence => "sentence",
            UserCase::Alternating => "alternating",
            UserCase::Toggle => "toggle",
        }
    }

    /// A text written in the case.
    pub fn example(&self) -> (r: &'static str)
        ensures
            r@ == self.example_spec(),
    {
        match self {
            UserCase::Snake => "snake_case",
            UserCase::Constant => "CONSTANT_CASE",
            UserCase::UpperSnake => "UPPER_SNAKE_CASE",
            UserCase::Ada => "Ada_Case",
            UserCase::Kebab => "kebab-case",
            UserCase::Cobol => "COBOL-CASE",
            UserCase::UpperKebab => "UPPER-KEBAB-CASE",
            UserCase::Train => "Train-Case",
            UserCase::Flat => "flatcase",
            UserCase::UpperFlat => "UPPERFLATCASE",
            UserCase::Pascal => "PascalCase",
            UserCase::UpperCamel => "UpperCamelCase",
            UserCase::Camel => "camelCase",
            UserCase::Lower => "lower case",
            UserCase::Upper => "UPPER CASE",
            UserCase::Title => "Title Case",
            UserCase::Sentence => "Sentence case",
            UserCase::Alternating => "aLtErNaTiNg CaSe",
            UserCase::Toggle => "tOGGLE cASE",
        }
    }

    /// The boundaries at which a text in this case is split.
    pub fn boundaries(self) -> (r: Vec<Boundary>)
        ensures
            r@ == self.boundaries_spec(),
    {
        let r = match self {
            UserCase::Snake => vec![Boundary::Underscore],
            UserCase::Constant => vec![Boundary::Underscore],
            UserCase::UpperSnake => vec![Boundary::Underscore],
            UserCase::Ada => vec![Boundary::Underscore],
            UserCase::Kebab => vec![Boundary::Hyphen],
            UserCase::Cobol => vec![Boundary::Hyphen],
            UserCase::UpperKebab => vec![Boundary::Hyphen],
            UserCase::Train => vec![Boundary::Hyphen],
            UserCase::Flat => Boundary::transitions(),
            UserCase::UpperFlat => Boundary::transitions(),
            UserCase::Pascal => Boundary::transitions(),
            UserCase::UpperCamel => Boundary::transitions(),
            UserCase::Camel => Boundary::transitions(),
            UserCase::Lower => vec![Boundary::Space],
            UserCase::Upper => vec![Boundary::Space],
            UserCase::Title => vec![Boundary::Space],
            UserCase::Sentence => vec![Boundary::Space],
            UserCase::Alternating => vec![Boundary::Space],
            UserCase::Toggle => vec![Boundary::Space],
        };
        assert(r@ =~= self.boundaries_spec());
        r
    }

    /// The text put between two words written in this case.
    pub fn delim(self) -> (r: &'static str)
        ensures
            r@ == self.delim_spec(),
    {
        match self {
            UserCase::Snake => "_",
            UserCase::Constant => "_",
            UserCase::UpperSnake => "_",
            UserCase::Ada => "_",
            UserCase::Kebab => "-",
            UserCase::Cobol => "-",
            UserCase::UpperKebab => "-",
            UserCase::Train => "-",
            UserCase::Flat => "",
            UserCase::UpperFlat => "",
            UserCase::Pascal => "",
            UserCase::UpperCamel => "",
            UserCase::Camel => "",
            UserCase::Lower => " ",
            UserCase::Upper => " ",
            UserCase::Title => " ",
            UserCase::Sentence => " ",
            UserCase::Alternating => " ",
            UserCase::Toggle => " ",
        }
    }

    /// The pattern that recases words written in this case.
    pub fn pattern(self) -> (r: UserPattern)
        ensures
            r == self.pattern_spec(),
    {
        match self {
            UserCase::Snake => UserPattern::Lowercase,
            UserCase::Constant => UserPattern::Uppercase,
            UserCase::UpperSnake => UserPattern::Uppercase,
            UserCase::Ada => UserPattern::Capital,
            UserCase::Kebab => UserPattern::Lowercase,
            UserCase::Cobol => UserPattern::Uppercase,
            UserCase::UpperKebab => UserPattern::Uppercase,
            UserCase::Train => UserPattern::Capital,
            UserCase::Flat => UserPattern::Lowercase,
            UserCase::UpperFlat => UserPattern::Uppercase,
            UserCase::Pascal => UserPattern::Capital,
            UserCase::UpperCamel => UserPattern::Capital,
            UserCase::Camel => UserPattern::Camel,
            UserCase::Lower => UserPattern::Lowercase,
            UserCase::Upper => UserPattern::Uppercase,
            UserCase::Title => UserPattern::Capital,
            UserCase::Sentence => UserPattern::Sentence,
            UserCase::Alternating => UserPattern::Alternating,
            UserCase::Toggle => UserPattern::Toggle,
        }
    }

    /// Every case, in the order in which they are listed.
    pub fn all() -> (r: Vec<UserCase>)
        ensures
            r@ == all_cases(),
    {
        let r = vec![
            UserCase::Snake,
            UserCase::Constant,
            UserCase::UpperSnake,
            UserCase::Ada,
            UserCase::Kebab,
            UserCase::Cobol,
            UserCase::UpperKebab,
            UserCase::Train,
            UserCase::Flat,
            UserCase::UpperFlat,
            UserCase::Pascal,
            UserCase::UpperCamel,
            UserCase::Camel,
            UserCase::Lower,
            UserCase::Upper,
            UserCase::Title,
            UserCase::Sentence,
            UserCase::Alternating,
            UserCase::Toggle,
        ];
        assert(r@ =~= all_cases());
        r
    }

    /// The case whose name equals `s` up to ASCII case; `None` when no case
    /// has that name.
    pub fn from_name(s: &str) -> (r: Option<UserCase>)
        ensures
            r == case_named(s@),
    {
        let all = UserCase::all();
        let mut i: usize = 0;
        while i < all.len()
            invariant
                all@ == all_cases(),
                i <= 19,
                case_named(s@) == case_named_from(s@, i as nat),
            decreases 19 - i,
        {
            let c = all[i];
            if same_ignoring_ascii_case(s, c.short_name()) {
                return Some(c);
            }
            i += 1;
        }
        None
    }
}

/// A text equal up to ASCII case to a case's own name names that case.
pub proof fn lemma_name_names_case(s: Seq<char>, v: UserCase)
    requires
        same_folded(s, v.name_spec()),
    ensures
        case_named(s) == Some(v),
{
    assert forall|k: int| 0 <= k < 19 implies same_folded(s, #[trigger] all_cases()[k].name_spec()) == same_folded(v.name_spec(), all_cases()[k].name_spec()) by {
        lemma_same_folded_shared(s, v.name_spec(), all_cases()[k].name_spec());
    }
    reveal_strlit("snake");
    reveal_strlit("constant");
    reveal_strlit("uppersnake");
    reveal_strlit("ada");
    reveal_strlit("kebab");
    reveal_strlit("cobol");
    reveal_strlit("upperkebab");
    reveal_strlit("train");
    reveal_strlit("flat");
    reveal_strlit("upperflat");
    reveal_strlit("pascal");
    reveal_strlit("uppercamel");
    reveal_strlit("camel");
    reveal_strlit("lower");
    reveal_strlit("upper");
    reveal_strlit("title");
    reveal_strlit("sentence");
    reveal_strlit("alternating");
    reveal_strlit("toggle");
    reveal_with_fuel(case_named_from, 20);
    match v {
        UserCase::Snake => {
            assert(same_folded("snake"@, "snake"@));
        },
        UserCase::Constant => {
            assert(same_folded("constant"@, "constant"@));
        },
        UserCase::UpperSnake => {
            assert(same_folded("uppersnake"@, "uppersnake"@));
        },
        UserCase::Ada => {
            assert(same_folded("ada"@, "ada"@));
        },
        UserCase::Kebab => {
            assert(fold("kebab"@[0]) != fold("snake"@[0]));
            assert(same_folded("kebab"@, "kebab"@));
        },
        UserCase::Cobol => {
            assert(fold("cobol"@[0]) != fold("snake"@[0]));
            assert(fold("cobol"@[0]) != fold("kebab"@[0]));
            assert(same_folded("cobol"@, "cobol"@));
        },
        UserCase::UpperKebab => {
            assert(fold("upperkebab"@[5]) != fold("uppersnake"@[5]));
            assert(same_folded("upperkebab"@, "upperkebab"@));
        },
        UserCase::Train => {
            assert(fold("train"@[0]) != fold("snake"@[0]));
            assert(fold("train"@[0]) != fold("kebab"@[0]));
            assert(fold("train"@[0]) != fold("cobol"@[0]));
            assert(same_folded("train"@, "train"@));
        },
        UserCase::Flat => {
            assert(same_folded("flat"@, "flat"@));
        },
        UserCase::UpperFlat => {
            assert(same_folded("upperflat"@, "upperflat"@));
        },
        UserCase::Pascal => {
            assert(same_folded("pascal"@, "pascal"@));
        },
        UserCase::UpperCamel => {
            assert(fold("uppercamel"@[5]) != fold("uppersnake"@[5]));
            assert(fold("uppercamel"@[5]) != fold("upperkebab"@[5]));
            assert(same_folded("uppercamel"@, "uppercamel"@));
        },
        UserCase::Camel => {
            assert(fold("camel"@[0]) != fold("snake"@[0]));
            assert(fold("camel"@[0]) != fold("kebab"@[0]));
            assert(fold("camel"@[1]) != fold("cobol"@[1]));
            assert(fold("camel"@[0]) != fold("train"@[0]));
            assert(same_folded("camel"@, "camel"@));
        },
        UserCase::Lower => {
            assert(fold("lower"@[0]) != fold("snake"@[0]));
            assert(fold("lower"@[0]) != fold("kebab"@[0]));
            assert(fold("lower"@[0]) != fold("cobol"@[0]));
            assert(fold("lower"@[0]) != fold("train"@[0]));
            assert(fold("lower"@[0]) != fold("camel"@[0]));
            assert(same_folded("lower"@, "lower"@));
        },
        UserCase::Upper => {
            assert(fold("upper"@[0]) != fold("snake"@[0]));
            assert(fold("upper"@[0]) != fold("kebab"@[0]));
            assert(fold("upper"@[0]) != fold("cobol"@[0]));
            assert(fold("upper"@[0]) != fold("train"@[0]));
            assert(fold("upper"@[0]) != fold("camel"@[0]));
            assert(fold("upper"@[0]) != fold("lower"@[0]));
            assert(same_folded("upper"@, "upper"@));
        },
        UserCase::Title => {
            assert(fold("title"@[0]) != fold("snake"@[0]));
            assert(fold("title"@[0]) != fold("kebab"@[0]));
            assert(fold("title"@[0]) != fold("cobol"@[0]));
            assert(fold("title"@[1]) != fold("train"@[1]));
            assert(fold("title"@[0]) != fold("camel"@[0]));
            assert(fold("title"@[0]) != fold("lower"@[0]));
            assert(fold("title"@[0]) != fold("upper"@[0]));
            assert(same_folded("title"@, "title"@));
        },
        UserCase::Sentence => {
            assert(fold("sentence"@[0]) != fold("constant"@[0]));
            assert(same_folded("sentence"@, "sentence"@));
        },
        UserCase::Alternating => {
            assert(same_folded("alternating"@, "alternating"@));
        },
        UserCase::Toggle => {
            assert(fold("toggle"@[0]) != fold("pascal"@[0]));
            assert(same_folded("toggle"@, "toggle"@));
        },
    }
}

impl core::str::FromStr for UserCase {
    type Err = UnknownName;

    fn from_str(s: &str) -> Result<UserCase, UnknownName> {
        match UserCase::from_name(s) {
            Some(v) => Ok(v),
            None => Err(UnknownName),
        }
    }
}

} // verus!
