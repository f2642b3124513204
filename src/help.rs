//! The lists of cases and patterns shown in the long help.
use vstd::prelude::*;
use vstd::string::StringExecFns;

use crate::user_case::{all_cases, UserCase};
use crate::user_pattern::{all_patterns, UserPattern};

verus! {

/// The width of the column that holds the highlighted names.
pub const NAME_WIDTH: usize = 25;

/// `n` spaces, none when `n` is not positive.
pub open spec fn spaces(n: int) -> Seq<char> {
    if n <= 0 {
        Seq::empty()
    } else {
        Seq::new(n as nat, |_i: int| ' ')
    }
}

/// The name between the terminal codes that make it bold.
pub open spec fn bold(name: Seq<char>) -> Seq<char> {
    "\x1b[1m"@ + name + "\x1b[0m"@
}

/// One line of a listing: the bold name right-aligned in its column, two
/// spaces, the example and a line break.
pub open spec fn help_line(name: Seq<char>, example: Seq<char>) -> Seq<char> {
    spaces(NAME_WIDTH - bold(name).len()) + bold(name) + "  "@ + example + "\n"@
}

/// The lines for the first `n` cases.
pub open spec fn case_listing(n: nat) -> Seq<char>
    decreases n,
{
    if n == 0 {
        Seq::empty()
    } else {
        let c = all_cases()[n - 1];
        case_listing((n - 1) as nat) + help_line(c.name_spec(), c.example_spec())
    }
}

/// The lines for the first `n` patterns.
pub open spec fn pattern_listing(n: nat) -> Seq<char>
    decreases n,
{
    if n == 0 {
        Seq::empty()
    } else {
        let p = all_patterns()[n - 1];
        pattern_listing((n - 1) as nat) + help_line(p.name_spec(), p.example_spec())
    }
}

/// Appends the listing line of `name` and `example` to `out`.
fn push_help_line(out: &mut String, name: &str, example: &str)
    requires
        name@.len() < 1000,
    ensures
        final(out)@ == old(out)@ + help_line(name@, example@),
{
    proof {
        reveal_strlit("\x1b[1m");
        reveal_strlit("\x1b[0m");
    }
    let shown: usize = name.unicode_len() + 8;
    let ghost start = out@;
    let mut i: usize = shown;
    while i < NAME_WIDTH
        invariant
            shown == bold(name@).len(),
            shown <= i <= NAME_WIDTH || (shown >= NAME_WIDTH && i == shown),
            out@ == start + spaces(i - shown),
        decreases NAME_WIDTH - i,
    {
        out.append(" ");
        proof {
            reveal_strlit(" ");
        }
        assert(spaces(i - shown + 1) =~= spaces(i - shown) + " "@);
        i += 1;
    }
    assert(out@ =~= start + spaces(NAME_WIDTH - bold(name@).len()));
    out.append("\x1b[1m");
    out.append(name);
    out.append("\x1b[0m");
    out.append("  ");
    out.append(example);
    out.append("\n");
    assert(out@ =~= start + help_line(name@, example@));
}

/// Every case with its example, one per line.
pub fn list_cases() -> (r: String)
    ensures
        r@ == case_listing(19),
{
    let all = UserCase::all();
    let mut out = String::new();
    let mut i: usize = 0;
    while i < all.len()
        invariant
            all@ == all_cases(),
            i <= 19,
            out@ == case_listing(i as nat),
        decreases 19 - i,
    {
        let c = all[i];
        let name = c.short_name();
        proof {
            assert(name@.len() < 1000) by {
                reveal_strlit("snake");
                reveal_strlit("constant");
                reveal_strlit("uppersnake");
                reveal_strlit("ada");
                reveal_strlit("kebab");
                reveal_strlit("cobol");
                reveal_strlit("upperkebab");
                reveal_strlit("train");
                reveal_strlit("flat");
                reveal_strlit("upperflat");
                reveal_strlit("pascal");
                reveal_strlit("uppercamel");
                reveal_strlit("camel");
                reveal_strlit("lower");
                reveal_strlit("upper");
                reveal_strlit("title");
                reveal_strlit("sentence");
                reveal_strlit("alternating");
                reveal_strlit("toggle");
            }
        }
        push_help_line(&mut out, name, c.example());
        i += 1;
    }
    out
}

/// Every pattern with its example, one per line.
pub fn list_patterns() -> (r: String)
    ensures
        r@ == pattern_listing(8),
{
    let all = UserPattern::all();
    let mut out = String::new();
    let mut i: usize = 0;
    while i < all.len()
        invariant
            all@ == all_patterns(),
            i <= 8,
            out@ == pattern_listing(i as nat),
        decreases 8 - i,
    {
        let p = all[i];
        let name = p.short_name();
        proof {
            assert(name@.len() < 1000) by {
                reveal_strlit("alternating");
                reveal_strlit("camel");
                reveal_strlit("capital");
                reveal_strlit("lowercase");
                reveal_strlit("noop");
                reveal_strlit("sentence");
                reveal_strlit("toggle");
                reveal_strlit("uppercase");
            }
        }
        push_help_line(&mut out, name, p.example());
        i += 1;
    }
    out
}

} // verus!
