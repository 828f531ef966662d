//! Verified character-level string helpers: equality, prefix test, and
//! whitespace trimming. The request gate uses them to take a bearer token
//! out of an authorization header.

use vstd::prelude::*;

verus! {

/// Whether two strings hold the same characters.
pub fn str_eq(a: &str, b: &str) -> (r: bool)
    ensures
        r == (a@ == b@),
{
    let n = a.unicode_len();
    if n != b.unicode_len() {
        return false;
    }
    for i in 0..n
        invariant
            n == a@.len(),
            n == b@.len(),
            forall|j: int| 0 <= j < i ==> a@[j] == b@[j],
    {
        if a.get_char(i) != b.get_char(i) {
            return false;
        }
    }
    proof {
        assert(a@ =~= b@);
    }
    true
}

/// Whether `s` begins with `prefix`.
pub fn str_starts_with(s: &str, prefix: &str) -> (r: bool)
    ensures
        r == prefix@.is_prefix_of(s@),
{
    let n = prefix.unicode_len();
    if n > s.unicode_len() {
        return false;
    }
    for i in 0..n
        invariant
            n == prefix@.len(),
            n <= s@.len(),
            forall|j: int| 0 <= j < i ==> s@[j] == prefix@[j],
    {
        if s.get_char(i) != prefix.get_char(i) {
            assert(!prefix@.is_prefix_of(s@)) by {
                assert(s@.subrange(0, n as int)[i as int] == s@[i as int]);
            }
            return false;
        }
    }
    proof {
        assert(prefix@ =~= s@.subrange(0, n as int));
    }
    true
}

/// The whitespace characters the trimmer strips.
pub open spec fn is_space(c: char) -> bool {
    c == ' ' || c == '\t' || c == '\r' || c == '\n'
}

/// Whether every character of `s` is whitespace.
pub open spec fn all_spaces(s: Seq<char>) -> bool {
    forall|i: int| 0 <= i < s.len() ==> is_space(#[trigger] s[i])
}

/// The index of the first non-whitespace character (meaningful when not
/// `all_spaces`).
pub open spec fn first_non_space(s: Seq<char>) -> int {
    choose|i: int|
        0 <= i <= s.len() && (forall|j: int| 0 <= j < i ==> is_space(#[trigger] s[j])) && (i
            == s.len() || !is_space(s[i]))
}

/// One past the index of the last non-whitespace character (meaningful when
/// not `all_spaces`).
pub open spec fn end_non_space(s: Seq<char>) -> int {
    choose|i: int|
        #![trigger s[i - 1]]
        0 <= i <= s.len() && (forall|j: int| i <= j < s.len() ==> is_space(#[trigger] s[j])) && (i
            == 0 || !is_space(s[i - 1]))
}

/// `s` without leading and trailing whitespace.
pub open spec fn trim_spec(s: Seq<char>) -> Seq<char> {
    if all_spaces(s) {
        Seq::empty()
    } else {
        s.subrange(first_non_space(s), end_non_space(s))
    }
}

fn is_space_char(c: char) -> (r: bool)
    ensures
        r == is_space(c),
{
    c == ' ' || c == '\t' || c == '\r' || c == '\n'
}

/// Strip leading and trailing whitespace.
pub fn trim_spaces(s: &str) -> (r: String)
    ensures
        r@ == trim_spec(s@),
{
    let n = s.unicode_len();
    let mut a: usize = 0;
    while a < n && is_space_char(s.get_char(a))
        invariant
            a <= n,
            n == s@.len(),
            forall|j: int| 0 <= j < a ==> is_space(#[trigger] s@[j]),
        decreases n - a,
    {
        a = a + 1;
    }
    if a == n {
        proof {
            assert(all_spaces(s@));
            assert(trim_spec(s@) =~= Seq::<char>::empty());
        }
        return String::new();
    }
    let mut b: usize = n;
    while b > a && is_space_char(s.get_char(b - 1))
        invariant
            a < n,
            a <= b <= n,
            n == s@.len(),
            !is_space(s@[a as int]),
            forall|j: int| b <= j < n ==> is_space(#[trigger] s@[j]),
        decreases b,
    {
        b = b - 1;
    }
    let out = s.substring_char(a, b);
    proof {
        assert(!all_spaces(s@));
        assert(b > a);
        assert(!is_space(s@[b - 1]));
        let fa = first_non_space(s@);
        assert(0 <= a <= s@.len() && (forall|j: int| 0 <= j < a ==> is_space(#[trigger] s@[j])) && (
        a == s@.len() || !is_space(s@[a as int])));
        assert(0 <= fa <= s@.len() && (forall|j: int| 0 <= j < fa ==> is_space(#[trigger] s@[j]))
            && (fa == s@.len() || !is_space(s@[fa])));
        if fa < a {
            assert(is_space(s@[fa]));
            assert(false);
        }
        if a < fa {
            assert(is_space(s@[a as int]));
            assert(false);
        }
        let eb = end_non_space(s@);
        assert(0 <= b <= s@.len() && (forall|j: int| b <= j < s@.len() ==> is_space(
            #[trigger] s@[j],
        )) && (b == 0 || !is_space(s@[b - 1])));
        assert(0 <= eb <= s@.len() && (forall|j: int| eb <= j < s@.len() ==> is_space(
            #[trigger] s@[j],
        )) && (eb == 0 || !is_space(s@[eb - 1])));
        if eb < b {
            assert(is_space(s@[b - 1]));
            assert(false);
        }
        if b < eb {
            assert(is_space(s@[eb - 1]));
            assert(false);
        }
        assert(out@ == trim_spec(s@));
    }
    out.to_owned()
}

} // verus!
