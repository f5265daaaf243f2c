//! Character-level text helpers shared by the library.

use vstd::prelude::*;

verus! {

/// `hay` contains `pat` as a contiguous run of characters.
pub open spec fn has_substring(hay: Seq<char>, pat: Seq<char>) -> bool {
    exists|i: int|
        0 <= i && i + pat.len() <= hay.len() && #[trigger] hay.subrange(i, i + pat.len()) == pat
}

/// The characters of `s`, in order.
pub fn chars_of(s: &str) -> (r: Vec<char>)
    ensures
        r@ == s@,
{
    let mut r: Vec<char> = Vec::new();
    for c in it: s.chars()
        invariant
            r@ == it.seq().take(it.index()),
    {
        r.push(c);
    }
    r
}

/// Whether `pat` occurs in `hay` starting at position `start`.
fn occurs_at(hay: &Vec<char>, pat: &Vec<char>, start: usize) -> (r: bool)
    requires
        start + pat@.len() <= hay@.len(),
    ensures
        r == (hay@.subrange(start as int, start + pat@.len()) == pat@),
{
    let m = pat.len();
    let n = hay.len();
    let mut j: usize = 0;
    while j < m
        invariant
            m == pat@.len(),
            n == hay@.len(),
            start + m <= hay@.len(),
            j <= m,
            forall|k: int| 0 <= k < j ==> hay@[start + k] == pat@[k],
        decreases m - j,
    {
        if hay[start + j] != pat[j] {
            assert(hay@.subrange(start as int, start + m)[j as int] != pat@[j as int]);
            return false;
        }
        j = j + 1;
    }
    assert(hay@.subrange(start as int, start + m) =~= pat@);
    true
}

/// Substring search over character vectors.
pub fn contains_chars(hay: &Vec<char>, pat: &Vec<char>) -> (r: bool)
    ensures
        r == has_substring(hay@, pat@),
{
    let n = hay.len();
    let m = pat.len();
    if m > n {
        return false;
    }
    let last = n - m;
    let mut i: usize = 0;
    loop
        invariant
            n == hay@.len(),
            m == pat@.len(),
            last == n - m,
            i <= last,
            forall|k: int| 0 <= k < i ==> #[trigger] hay@.subrange(k, k + m) != pat@,
        decreases last - i,
    {
        if occurs_at(hay, pat, i) {
            return true;
        }
        if i == last {
            return false;
        }
        i = i + 1;
    }
}

/// Whether `pat` occurs in `hay`, as `str::contains` with a string pattern.
pub fn text_contains(hay: &str, pat: &str) -> (r: bool)
    ensures
        r == has_substring(hay@, pat@),
{
    let h = chars_of(hay);
    let p = chars_of(pat);
    contains_chars(&h, &p)
}

/// Character-wise equality of two strings, as `==` on `str`.
pub fn same_text(a: &str, b: &str) -> (r: bool)
    ensures
        r == (a@ == b@),
{
    let x = chars_of(a);
    let y = chars_of(b);
    if x.len() != y.len() {
        return false;
    }
    let n = x.len();
    let mut i: usize = 0;
    while i < n
        invariant
            x@ == a@,
            y@ == b@,
            n == x@.len(),
            n == y@.len(),
            i <= n,
            forall|k: int| 0 <= k < i ==> x@[k] == y@[k],
        decreases n - i,
    {
        if x[i] != y[i] {
            assert(x@[i as int] != y@[i as int]);
            return false;
        }
        i = i + 1;
    }
    assert(x@ =~= y@);
    true
}

/// What `str::to_lowercase` returns for a string with these characters.
pub uninterp spec fn lowercase(s: Seq<char>) -> Seq<char>;

/// Calls `str::to_lowercase` from std. The contract claims only that the
/// result is `lowercase` of the argument's characters: a function of the
/// argument alone. The Unicode case mapping itself is left unsaid.
#[verifier::external_body]
pub(crate) fn to_lowercase(s: &str) -> (r: String)
    ensures
        r@ == lowercase(s@),
{
    s.to_lowercase()
}

/// Whether any of `words` occurs in `text`.
pub open spec fn mentions_any(text: Seq<char>, words: Seq<Seq<char>>) -> bool {
    exists|k: int| 0 <= k < words.len() && has_substring(text, #[trigger] words[k])
}

/// Whether any of the words occurs in the characters `text`.
pub fn mentions_any_word(text: &Vec<char>, words: &Vec<&str>) -> (r: bool)
    ensures
        r == mentions_any(text@, words@.map_values(|w: &str| w@)),
{
    let ghost ws = words@.map_values(|w: &str| w@);
    let n = words.len();
    let mut k: usize = 0;
    while k < n
        invariant
            n == words@.len(),
            ws == words@.map_values(|w: &str| w@),
            k <= n,
            forall|j: int| 0 <= j < k ==> !has_substring(text@, #[trigger] ws[j]),
        decreases n - k,
    {
        let w = chars_of(words[k]);
        if contains_chars(text, &w) {
            assert(has_substring(text@, ws[k as int]));
            return true;
        }
        k = k + 1;
    }
    false
}

} // verus!
