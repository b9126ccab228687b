//! Character-level predicates and searches used to read loosely structured
//! tool output.
use vstd::prelude::*;

verus! {

/// The characters with the Unicode `White_Space` property, which is what
/// `char::is_whitespace` and `str::trim` go by.
pub open spec fn is_blank_char(c: char) -> bool {
    ('\u{9}' <= c && c <= '\u{d}') || c == ' ' || c == '\u{85}' || c == '\u{a0}'
        || c == '\u{1680}' || ('\u{2000}' <= c && c <= '\u{200a}') || c == '\u{2028}'
        || c == '\u{2029}' || c == '\u{202f}' || c == '\u{205f}' || c == '\u{3000}'
}

/// Every character of `s` is whitespace.
pub open spec fn all_blank(s: Seq<char>) -> bool {
    forall|i: int| 0 <= i < s.len() ==> is_blank_char(#[trigger] s[i])
}

/// Trimming the whitespace off both ends of `s` leaves exactly `c`
/// (for a `c` that is not itself whitespace).
pub open spec fn trims_to_char(s: Seq<char>, c: char) -> bool {
    exists|k: int|
        0 <= k < s.len() && #[trigger] s[k] == c && forall|j: int|
            0 <= j < s.len() && j != k ==> is_blank_char(#[trigger] s[j])
}

/// `pat` occurs in `s` starting at position `i`.
pub open spec fn occurs_at(s: Seq<char>, pat: Seq<char>, i: int) -> bool {
    0 <= i && i + pat.len() <= s.len() && s.subrange(i, i + pat.len()) == pat
}

/// `pat` occurs somewhere in `s`, as `str::contains` finds it.
pub open spec fn contains_chars(s: Seq<char>, pat: Seq<char>) -> bool {
    exists|i: int| occurs_at(s, pat, i)
}

/// Whether `c` is whitespace in the sense of `char::is_whitespace`.
pub fn is_blank(c: char) -> (r: bool)
    ensures
        r == is_blank_char(c),
{
    ('\u{9}' <= c && c <= '\u{d}') || c == ' ' || c == '\u{85}' || c == '\u{a0}'
        || c == '\u{1680}' || ('\u{2000}' <= c && c <= '\u{200a}') || c == '\u{2028}'
        || c == '\u{2029}' || c == '\u{202f}' || c == '\u{205f}' || c == '\u{3000}'
}

/// The characters of `s`, one per element.
pub fn chars_of(s: &str) -> (r: Vec<char>)
    ensures
        r@ == s@,
{
    let n = s.unicode_len();
    let mut r: Vec<char> = Vec::new();
    let mut i: usize = 0;
    while i < n
        invariant
            n == s@.len(),
            i <= n,
            r@ == s@.subrange(0, i as int),
        decreases n - i,
    {
        r.push(s.get_char(i));
        i = i + 1;
    }
    assert(r@ =~= s@);
    r
}

/// Whether two strings hold the same characters.
pub fn same_text(a: &str, b: &str) -> (r: bool)
    ensures
        r == (a@ == b@),
{
    let n = a.unicode_len();
    if n != b.unicode_len() {
        return false;
    }
    let mut i: usize = 0;
    while i < n
        invariant
            n == a@.len(),
            n == b@.len(),
            i <= n,
            a@.subrange(0, i as int) == b@.subrange(0, i as int),
        decreases n - i,
    {
        if a.get_char(i) != b.get_char(i) {
            assert(a@[i as int] != b@[i as int]);
            return false;
        }
        assert(a@.subrange(0, i + 1) =~= a@.subrange(0, i as int).push(a@[i as int]));
        assert(b@.subrange(0, i + 1) =~= b@.subrange(0, i as int).push(b@[i as int]));
        i = i + 1;
    }
    assert(a@ =~= a@.subrange(0, n as int));
    assert(b@ =~= b@.subrange(0, n as int));
    true
}

/// Whether `pat` occurs in `s` starting at `i`.
fn matches_at(s: &Vec<char>, pat: &Vec<char>, i: usize) -> (r: bool)
    requires
        i + pat@.len() <= s@.len(),
    ensures
        r == occurs_at(s@, pat@, i as int),
{
    let m = pat.len();
    let n = s.len();
    let mut j: usize = 0;
    while j < m
        invariant
            m == pat@.len(),
            n == s@.len(),
            i + m <= n,
            j <= m,
            forall|k: int| 0 <= k < j ==> s@[i + k] == pat@[k],
        decreases m - j,
    {
        if s[i + j] != pat[j] {
            assert(s@.subrange(i as int, i + m)[j as int] != pat@[j as int]);
            return false;
        }
        j = j + 1;
    }
    assert(s@.subrange(i as int, i + m) =~= pat@);
    true
}

/// Whether `pat` occurs anywhere in `s`.
pub fn contains_pattern(s: &Vec<char>, pat: &Vec<char>) -> (r: bool)
    ensures
        r == contains_chars(s@, pat@),
{
    if pat.len() > s.len() {
        assert forall|i: int| !occurs_at(s@, pat@, i) by {}
        return false;
    }
    let last = s.len() - pat.len();
    let mut i: usize = 0;
    loop
        invariant
            last + pat@.len() == s@.len(),
            i <= last,
            forall|k: int| 0 <= k < i ==> !occurs_at(s@, pat@, k),
        decreases last - i,
    {
        if matches_at(s, pat, i) {
            return true;
        }
        if i == last {
            assert forall|k: int| !occurs_at(s@, pat@, k) by {
                if 0 <= k && k <= i {
                }
            }
            return false;
        }
        i = i + 1;
    }
}

/// Whether `s` is `c` with nothing but whitespace around it.
pub fn trimmed_is_char(s: &Vec<char>, c: char) -> (r: bool)
    requires
        !is_blank_char(c),
    ensures
        r == trims_to_char(s@, c),
{
    let n = s.len();
    let mut found: Option<usize> = None;
    let mut i: usize = 0;
    while i < n
        invariant
            n == s@.len(),
            i <= n,
            match found {
                None => all_blank(s@.subrange(0, i as int)),
                Some(k) => k < i && s@[k as int] == c && forall|j: int|
                    0 <= j < i && j != k ==> is_blank_char(#[trigger] s@[j]),
            },
        decreases n - i,
    {
        let ch = s[i];
        if !is_blank(ch) {
            if ch != c {
                assert(!trims_to_char(s@, c)) by {
                    if exists|k: int|
                        0 <= k < s@.len() && #[trigger] s@[k] == c && forall|j: int|
                            0 <= j < s@.len() && j != k ==> is_blank_char(#[trigger] s@[j]) {
                        let k = choose|k: int|
                            0 <= k < s@.len() && #[trigger] s@[k] == c && forall|j: int|
                                0 <= j < s@.len() && j != k ==> is_blank_char(
                                    #[trigger] s@[j],
                                );
                        assert(k != i);
                        assert(is_blank_char(s@[i as int]));
                    }
                }
                return false;
            }
            match found {
                Some(k) => {
                    assert(!trims_to_char(s@, c)) by {
                        if exists|k2: int|
                            0 <= k2 < s@.len() && #[trigger] s@[k2] == c && forall|j: int|
                                0 <= j < s@.len() && j != k2 ==> is_blank_char(
                                    #[trigger] s@[j],
                                ) {
                            let k2 = choose|k2: int|
                                0 <= k2 < s@.len() && #[trigger] s@[k2] == c && forall|j: int|
                                    0 <= j < s@.len() && j != k2 ==> is_blank_char(
                                        #[trigger] s@[j],
                                    );
                            if k2 == i {
                                assert(is_blank_char(s@[k as int]));
                            } else {
                                assert(is_blank_char(s@[i as int]));
                            }
                        }
                    }
                    return false;
                },
                None => {
                    assert forall|j: int| 0 <= j < i + 1 && j != i implies is_blank_char(
                        #[trigger] s@[j],
                    ) by {
                        assert(s@.subrange(0, i as int)[j] == s@[j]);
                    }
                    found = Some(i);
                },
            }
        } else {
            match found {
                None => {
                    assert(all_blank(s@.subrange(0, i + 1))) by {
                        assert forall|j: int| 0 <= j < i + 1 implies is_blank_char(
                            #[trigger] s@.subrange(0, i + 1)[j],
                        ) by {
                            if j < i {
                                assert(s@.subrange(0, i as int)[j] == s@[j]);
                            }
                        }
                    }
                },
                Some(k) => {},
            }
        }
        i = i + 1;
    }
    match found {
        None => {
            assert(!trims_to_char(s@, c)) by {
                if exists|k: int|
                    0 <= k < s@.len() && #[trigger] s@[k] == c && forall|j: int|
                        0 <= j < s@.len() && j != k ==> is_blank_char(#[trigger] s@[j]) {
                    let k = choose|k: int|
                        0 <= k < s@.len() && #[trigger] s@[k] == c && forall|j: int|
                            0 <= j < s@.len() && j != k ==> is_blank_char(#[trigger] s@[j]);
                    assert(s@.subrange(0, n as int)[k] == s@[k]);
                }
            }
            false
        },
        Some(k) => {
            assert(s@[k as int] == c);
            true
        },
    }
}

} // verus!
