//! Small verified helpers on strings.
use vstd::prelude::*;

verus! {

/// Whether two strings hold the same characters.
pub fn same_text(a: &str, b: &str) -> (r: bool)
    ensures
        r == (a@ == b@),
{
    let n = a.unicode_len();
    if n != b.unicode_len() {
        return false;
    }
    let mut i: usize = 0;
    while i < n
        invariant
            n == a@.len(),
            n == b@.len(),
            i <= n,
            a@.subrange(0, i as int) == b@.subrange(0, i as int),
        decreases n - i,
    {
        if a.get_char(i) != b.get_char(i) {
            return false;
        }
        assert(a@.subrange(0, i + 1) == a@.subrange(0, i as int).push(a@[i as int]));
        assert(b@.subrange(0, i + 1) == b@.subrange(0, i as int).push(b@[i as int]));
        i = i + 1;
    }
    assert(a@ == a@.subrange(0, n as int));
    assert(b@ == b@.subrange(0, n as int));
    true
}

/// `s` without the copies of `c` that open it.
pub open spec fn strip_leading(s: Seq<char>, c: char) -> Seq<char>
    decreases s.len(),
{
    if s.len() > 0 && s[0] == c {
        strip_leading(s.drop_first(), c)
    } else {
        s
    }
}

/// `s` without the copies of `c` that close it.
pub open spec fn strip_trailing(s: Seq<char>, c: char) -> Seq<char>
    decreases s.len(),
{
    if s.len() > 0 && s.last() == c {
        strip_trailing(s.drop_last(), c)
    } else {
        s
    }
}

/// `s` without the copies of `c` at either end.
pub open spec fn strip_both(s: Seq<char>, c: char) -> Seq<char> {
    strip_trailing(strip_leading(s, c), c)
}

/// Index of the first character of `s` that is not `c`.
fn skip_leading(s: &str, n: usize, c: char) -> (i: usize)
    requires
        n == s@.len(),
    ensures
        i <= n,
        strip_leading(s@, c) == s@.subrange(i as int, n as int),
{
    let mut i: usize = 0;
    assert(s@.subrange(0, n as int) == s@);
    while i < n
        invariant
            n == s@.len(),
            i <= n,
            strip_leading(s@, c) == strip_leading(s@.subrange(i as int, n as int), c),
        decreases n - i,
    {
        if s.get_char(i) != c {
            return i;
        }
        assert(s@.subrange(i as int, n as int).drop_first() == s@.subrange(i + 1, n as int));
        i = i + 1;
    }
    i
}

/// `s` without the copies of `c` at either end.
pub fn trim_char(s: &str, c: char) -> (r: String)
    ensures
        r@ == strip_both(s@, c),
{
    let n = s.unicode_len();
    let i = skip_leading(s, n, c);
    let mut j: usize = n;
    loop
        invariant
            n == s@.len(),
            i <= j <= n,
            strip_both(s@, c) == strip_trailing(s@.subrange(i as int, j as int), c),
        ensures
            i <= j <= n,
            strip_both(s@, c) == s@.subrange(i as int, j as int),
        decreases j,
    {
        if j == i {
            assert(s@.subrange(i as int, j as int).len() == 0);
            break;
        }
        if s.get_char(j - 1) != c {
            assert(strip_trailing(s@.subrange(i as int, j as int), c) == s@.subrange(i as int, j as int));
            break;
        }
        assert(s@.subrange(i as int, j as int).drop_last() == s@.subrange(i as int, j - 1));
        j = j - 1;
    }
    String::from_str(s.substring_char(i, j))
}

/// Removes the slashes that open an object path: keys are relative to their bucket.
pub fn sanitize_path(path: &mut String)
    ensures
        final(path)@ == strip_leading(old(path)@, '/'),
{
    let n = path.as_str().unicode_len();
    let i = skip_leading(path.as_str(), n, '/');
    if i > 0 {
        let trimmed = String::from_str(path.as_str().substring_char(i, n));
        *path = trimmed;
    } else {
        assert(path@.subrange(0, n as int) == path@);
    }
}

/// `c` with an ASCII capital letter taken to its small letter, as a code point.
pub open spec fn fold_ascii(c: char) -> u32 {
    if 'A' <= c && c <= 'Z' {
        (c as u32 + 32) as u32
    } else {
        c as u32
    }
}

/// Whether `a` and `b` are the same text but for the case of ASCII letters.
pub open spec fn same_text_ignoring_ascii_case(a: Seq<char>, b: Seq<char>) -> bool {
    &&& a.len() == b.len()
    &&& forall|i: int| 0 <= i < a.len() ==> fold_ascii(#[trigger] a[i]) == fold_ascii(b[i])
}

fn fold_ascii_char(c: char) -> (r: u32)
    ensures
        r == fold_ascii(c),
{
    if 'A' <= c && c <= 'Z' {
        c as u32 + 32
    } else {
        c as u32
    }
}

/// Whether two strings are the same text but for the case of ASCII letters,
/// as HTTP header names are compared.
pub fn same_text_ignoring_case(a: &str, b: &str) -> (r: bool)
    ensures
        r == same_text_ignoring_ascii_case(a@, b@),
{
    let n = a.unicode_len();
    if n != b.unicode_len() {
        return false;
    }
    let mut i: usize = 0;
    while i < n
        invariant
            n == a@.len(),
            n == b@.len(),
            i <= n,
            forall|k: int| 0 <= k < i ==> fold_ascii(#[trigger] a@[k]) == fold_ascii(b@[k]),
        decreases n - i,
    {
        if fold_ascii_char(a.get_char(i)) != fold_ascii_char(b.get_char(i)) {
            return false;
        }
        i = i + 1;
    }
    true
}

} // verus!
