//! Character-level helpers over `str`, each proved against a spec function.
use vstd::prelude::*;
use vstd::string::*;

verus! {

/// The whitespace characters that are trimmed around command arguments.
pub open spec fn is_ws(c: char) -> bool {
    c == ' ' || c == '\t' || c == '\n' || c == '\r'
}

/// The first index at or after `i` whose character's whitespace-ness differs
/// from `want` (or the length of `s`).
pub open spec fn scan(s: Seq<char>, i: int, want: bool) -> int
    decreases s.len() - i,
{
    if 0 <= i < s.len() && is_ws(s[i]) == want {
        scan(s, i + 1, want)
    } else {
        i
    }
}

/// The index just past the last non-whitespace character before `j` (or 0).
pub open spec fn scan_back(s: Seq<char>, j: int) -> int
    decreases j,
{
    if 0 < j <= s.len() && is_ws(s[j - 1]) {
        scan_back(s, j - 1)
    } else {
        j
    }
}

/// `s` without leading and trailing whitespace.
pub open spec fn trim(s: Seq<char>) -> Seq<char> {
    let a = scan(s, 0, true);
    let t = s.subrange(a, s.len() as int);
    t.subrange(0, scan_back(t, t.len() as int))
}

/// Whether `b` occurs in `a` at character offset `off`.
pub fn occurs_at(a: &str, off: usize, b: &str) -> (r: bool)
    ensures
        r == (off + b@.len() <= a@.len() && a@.subrange(off as int, off + b@.len()) == b@),
{
    let n = a.unicode_len();
    let m = b.unicode_len();
    if off > n || m > n - off {
        return false;
    }
    let mut k: usize = 0;
    while k < m
        invariant
            n == a@.len(),
            m == b@.len(),
            off + m <= n,
            k <= m,
            forall|x: int| 0 <= x < k ==> a@[off + x] == b@[x],
        decreases m - k,
    {
        if a.get_char(off + k) != b.get_char(k) {
            assert(a@.subrange(off as int, off + m)[k as int] != b@[k as int]);
            return false;
        }
        k = k + 1;
    }
    assert(a@.subrange(off as int, off + m) =~= b@);
    true
}

/// A character with ASCII upper case folded to lower case, as a code point.
pub open spec fn fold_case(c: char) -> int {
    if 65 <= c as int <= 90 {
        c as int + 32
    } else {
        c as int
    }
}

/// Whether `a` and `b` are equal up to ASCII letter case.
pub open spec fn same_ignoring_case(a: Seq<char>, b: Seq<char>) -> bool {
    a.len() == b.len() && forall|i: int| 0 <= i < a.len() ==> fold_case(a[i]) == fold_case(b[i])
}

fn fold_case_exec(c: char) -> (r: u32)
    ensures
        r as int == fold_case(c),
{
    let x = c as u32;
    if 65 <= x && x <= 90 {
        x + 32
    } else {
        x
    }
}

/// Whether `b` occurs in `a` at character offset `off`, up to ASCII letter
/// case.
pub fn occurs_at_ignoring_case(a: &str, off: usize, b: &str) -> (r: bool)
    ensures
        r == (off + b@.len() <= a@.len() && same_ignoring_case(
            a@.subrange(off as int, off + b@.len()),
            b@,
        )),
{
    let n = a.unicode_len();
    let m = b.unicode_len();
    if off > n || m > n - off {
        return false;
    }
    let mut k: usize = 0;
    while k < m
        invariant
            n == a@.len(),
            m == b@.len(),
            off + m <= n,
            k <= m,
            forall|x: int| 0 <= x < k ==> fold_case(a@[off + x]) == fold_case(b@[x]),
        decreases m - k,
    {
        if fold_case_exec(a.get_char(off + k)) != fold_case_exec(b.get_char(k)) {
            assert(a@.subrange(off as int, off + m)[k as int] == a@[off + k]);
            return false;
        }
        k = k + 1;
    }
    assert forall|i: int| 0 <= i < m implies fold_case(a@.subrange(off as int, off + m)[i])
        == fold_case(b@[i]) by {
        assert(a@.subrange(off as int, off + m)[i] == a@[off + i]);
    }
    true
}

/// Whether two strings hold the same characters.
pub fn same_text(a: &str, b: &str) -> (r: bool)
    ensures
        r == (a@ == b@),
{
    let r = a.unicode_len() == b.unicode_len() && occurs_at(a, 0, b);
    proof {
        if a@.len() == b@.len() {
            assert(a@.subrange(0, a@.len() as int) =~= a@);
        }
    }
    r
}

/// Scans forward from `i` while whitespace-ness equals `want`.
pub fn scan_exec(s: &str, i: usize, want: bool) -> (r: usize)
    requires
        i <= s@.len(),
    ensures
        r == scan(s@, i as int, want),
        i <= r <= s@.len(),
{
    let n = s.unicode_len();
    let mut k = i;
    while k < n && is_ws_exec(s.get_char(k)) == want
        invariant
            n == s@.len(),
            i <= k <= n,
            scan(s@, i as int, want) == scan(s@, k as int, want),
        decreases n - k,
    {
        k = k + 1;
    }
    k
}

/// Scans backward from `j` over whitespace.
pub fn scan_back_exec(s: &str, j: usize) -> (r: usize)
    requires
        j <= s@.len(),
    ensures
        r == scan_back(s@, j as int),
        r <= j,
{
    let mut k = j;
    while k > 0 && is_ws_exec(s.get_char(k - 1))
        invariant
            k <= j <= s@.len(),
            scan_back(s@, j as int) == scan_back(s@, k as int),
        decreases k,
    {
        k = k - 1;
    }
    k
}

pub fn is_ws_exec(c: char) -> (r: bool)
    ensures
        r == is_ws(c),
{
    c == ' ' || c == '\t' || c == '\n' || c == '\r'
}

/// `s` without leading and trailing whitespace.
pub fn trim_exec(s: &str) -> (r: &str)
    ensures
        r@ == trim(s@),
{
    let n = s.unicode_len();
    let a = scan_exec(s, 0, true);
    let t = s.substring_char(a, n);
    let b = scan_back_exec(t, t.unicode_len());
    t.substring_char(0, b)
}

} // verus!
