//! Plain text helpers: ASCII case folding and joining words.
use vstd::prelude::*;

verus! {

/// A name that matches none of the names it was looked up among.
#[derive(Debug, Clone, Copy, PartialEq, Eq, Structural)]
pub struct UnknownName;

/// The code point of `c` with an ASCII upper-case letter folded to lower case.
pub open spec fn fold(c: char) -> u32 {
    let x = c as u32;
    if 65 <= x && x <= 90 {
        (x + 32) as u32
    } else {
        x
    }
}

/// Two texts are equal up to ASCII case.
pub open spec fn same_folded(a: Seq<char>, b: Seq<char>) -> bool {
    &&& a.len() == b.len()
    &&& forall|i: int| 0 <= i < a.len() ==> #[trigger] fold(a[i]) == fold(b[i])
}

/// Texts equal up to ASCII case to one text are equal up to ASCII case to
/// the same texts.
pub proof fn lemma_same_folded_shared(s: Seq<char>, a: Seq<char>, b: Seq<char>)
    requires
        same_folded(s, a),
    ensures
        same_folded(s, b) == same_folded(a, b),
{
    if same_folded(s, b) {
        assert forall|i: int| 0 <= i < a.len() implies #[trigger] fold(a[i]) == fold(b[i]) by {
            assert(fold(s[i]) == fold(a[i]));
            assert(fold(s[i]) == fold(b[i]));
        }
    }
    if same_folded(a, b) {
        assert forall|i: int| 0 <= i < s.len() implies #[trigger] fold(s[i]) == fold(b[i]) by {
            assert(fold(s[i]) == fold(a[i]));
            assert(fold(a[i]) == fold(b[i]));
        }
    }
}

/// The characters of each word.
pub open spec fn words_view(words: Seq<String>) -> Seq<Seq<char>> {
    words.map_values(|w: String| w@)
}

/// The words joined with `delim` between each two neighbours.
pub open spec fn join(words: Seq<Seq<char>>, delim: Seq<char>) -> Seq<char>
    decreases words.len(),
{
    if words.len() == 0 {
        Seq::empty()
    } else if words.len() == 1 {
        words[0]
    } else {
        join(words.drop_last(), delim) + delim + words.last()
    }
}

/// Whether `a` and `b` are equal up to ASCII case.
pub fn same_ignoring_ascii_case(a: &str, b: &str) -> (r: bool)
    ensures
        r == same_folded(a@, b@),
{
    let n = a.unicode_len();
    if n != b.unicode_len() {
        return false;
    }
    let mut i: usize = 0;
    while i < n
        invariant
            n == a@.len(),
            n == b@.len(),
            i <= n,
            forall|j: int| 0 <= j < i ==> #[trigger] fold(a@[j]) == fold(b@[j]),
        decreases n - i,
    {
        let x = a.get_char(i) as u32;
        let y = b.get_char(i) as u32;
        let fx: u32 = if 65 <= x && x <= 90 { x + 32 } else { x };
        let fy: u32 = if 65 <= y && y <= 90 { y + 32 } else { y };
        if fx != fy {
            assert(fold(a@[i as int]) != fold(b@[i as int]));
            return false;
        }
        i += 1;
    }
    true
}

/// Whether `a` and `b` hold the same characters.
pub fn same_text(a: &str, b: &str) -> (r: bool)
    ensures
        r == (a@ == b@),
{
    let n = a.unicode_len();
    if n != b.unicode_len() {
        return false;
    }
    let mut i: usize = 0;
    while i < n
        invariant
            n == a@.len(),
            n == b@.len(),
            i <= n,
            forall|j: int| 0 <= j < i ==> a@[j] == b@[j],
        decreases n - i,
    {
        if a.get_char(i) != b.get_char(i) {
            return false;
        }
        i += 1;
    }
    assert(a@ =~= b@);
    true
}

/// Joins the words with `delim` between each two neighbours.
pub fn join_words(words: &Vec<String>, delim: &str) -> (r: String)
    ensures
        r@ == join(words_view(words@), delim@),
{
    let mut out = String::new();
    let mut i: usize = 0;
    while i < words.len()
        invariant
            i <= words@.len(),
            out@ == join(words_view(words@).take(i as int), delim@),
        decreases words@.len() - i,
    {
        let ghost before = words_view(words@).take(i as int);
        let ghost after = words_view(words@).take(i as int + 1);
        assert(after.drop_last() =~= before);
        if i > 0 {
            out.append(delim);
        } else {
            assert(after =~= seq![words@[0]@]);
        }
        out.append(words[i].as_str());
        i += 1;
    }
    assert(words_view(words@).take(words@.len() as int) =~= words_view(words@));
    out
}

} // verus!
