//! Character-level text handling: whitespace, substring search, trimming,
//! line and token splitting.
use vstd::prelude::*;
use vstd::string::*;

verus! {

/// Views of a sequence of strings.
pub open spec fn strs(v: Seq<String>) -> Seq<Seq<char>> {
    v.map_values(|x: String| x@)
}

/// Characters with the Unicode White_Space property.
pub open spec fn is_ws(c: char) -> bool {
    let u = c as u32;
    (0x9 <= u && u <= 0xd) || u == 0x20 || u == 0x85 || u == 0xa0 || u == 0x1680
        || (0x2000 <= u && u <= 0x200a) || u == 0x2028 || u == 0x2029 || u == 0x202f
        || u == 0x205f || u == 0x3000
}

/// `p` occurs in `s` starting at index `i`.
pub open spec fn has_at(s: Seq<char>, p: Seq<char>, i: int) -> bool {
    0 <= i && i + p.len() <= s.len() && s.subrange(i, i + p.len()) == p
}

/// The first index at or after `i` where `p` occurs in `s`, or -1.
pub open spec fn find_from(s: Seq<char>, p: Seq<char>, i: int) -> int
    decreases s.len() + 1 - i,
{
    if i < 0 || i + p.len() > s.len() {
        -1
    } else if has_at(s, p, i) {
        i
    } else {
        find_from(s, p, i + 1)
    }
}

/// The first index at or after `i` holding a whitespace character, or the length.
pub open spec fn ws_from(s: Seq<char>, i: int) -> int
    decreases s.len() - i,
{
    if i < 0 || i >= s.len() {
        s.len() as int
    } else if is_ws(s[i]) {
        i
    } else {
        ws_from(s, i + 1)
    }
}

/// The first index at or after `i` holding a non-whitespace character, or the length.
pub open spec fn non_ws_from(s: Seq<char>, i: int) -> int
    decreases s.len() - i,
{
    if i < 0 || i >= s.len() {
        s.len() as int
    } else if !is_ws(s[i]) {
        i
    } else {
        non_ws_from(s, i + 1)
    }
}

/// The end of `s.take(j)` once trailing whitespace is dropped.
pub open spec fn non_ws_before(s: Seq<char>, j: int) -> int
    decreases j,
{
    if j <= 0 {
        0
    } else if !is_ws(s[j - 1]) {
        j
    } else {
        non_ws_before(s, j - 1)
    }
}

/// `s` without leading and trailing whitespace.
pub open spec fn trim_of(s: Seq<char>) -> Seq<char> {
    let a = non_ws_from(s, 0);
    if a >= s.len() {
        Seq::empty()
    } else {
        s.subrange(a, non_ws_before(s, s.len() as int))
    }
}

/// The first index at or after `i` holding `c`, or the length.
pub open spec fn char_from(s: Seq<char>, c: char, i: int) -> int
    decreases s.len() - i,
{
    if i < 0 || i >= s.len() {
        s.len() as int
    } else if s[i] == c {
        i
    } else {
        char_from(s, c, i + 1)
    }
}

/// A line without the carriage return that may end it.
pub open spec fn strip_cr(l: Seq<char>) -> Seq<char> {
    if l.len() > 0 && l.last() == '\r' {
        l.drop_last()
    } else {
        l
    }
}

/// The lines of `s` from index `i` on: split at each line feed, a final
/// line feed ends the last line, a carriage return before a line feed is dropped.
pub open spec fn lines_from(s: Seq<char>, i: int) -> Seq<Seq<char>>
    decreases s.len() + 1 - i,
{
    if i < 0 || i >= s.len() {
        Seq::empty()
    } else {
        let k = char_from(s, '\n', i);
        if k < i || k > s.len() {
            Seq::empty()
        } else {
            seq![strip_cr(s.subrange(i, k))] + lines_from(s, k + 1)
        }
    }
}

/// The whitespace-separated tokens of `s` from index `i` on.
pub open spec fn tokens_from(s: Seq<char>, i: int) -> Seq<Seq<char>>
    decreases s.len() + 1 - i,
{
    let a = non_ws_from(s, i);
    if i < 0 || a >= s.len() || a < i {
        Seq::empty()
    } else {
        let b = ws_from(s, a);
        if b <= a || b > s.len() {
            Seq::empty()
        } else {
            seq![s.subrange(a, b)] + tokens_from(s, b)
        }
    }
}

/// Whether `c` has the Unicode White_Space property.
pub fn is_whitespace_char(c: char) -> (r: bool)
    ensures
        r == is_ws(c),
{
    let u = c as u32;
    (0x9 <= u && u <= 0xd) || u == 0x20 || u == 0x85 || u == 0xa0 || u == 0x1680
        || (0x2000 <= u && u <= 0x200a) || u == 0x2028 || u == 0x2029 || u == 0x202f
        || u == 0x205f || u == 0x3000
}

/// Whether `p` occurs in `s` at index `i`.
pub fn occurs_at(s: &str, p: &str, i: usize) -> (r: bool)
    ensures
        r == has_at(s@, p@, i as int),
{
    let n = s.unicode_len();
    let m = p.unicode_len();
    if m > n || i > n - m {
        return false;
    }
    let mut j: usize = 0;
    while j < m
        invariant
            j <= m,
            m == p@.len(),
            n == s@.len(),
            i + m <= n,
            forall|t: int| 0 <= t < j ==> s@[i + t] == p@[t],
        decreases m - j,
    {
        if s.get_char(i + j) != p.get_char(j) {
            assert(s@.subrange(i as int, i + m)[j as int] != p@[j as int]);
            return false;
        }
        j = j + 1;
    }
    assert(s@.subrange(i as int, i + m) =~= p@);
    true
}

/// The first index where `p` occurs in `s`.
pub fn find_text(s: &str, p: &str) -> (r: Option<usize>)
    ensures
        match r {
            Some(i) => find_from(s@, p@, 0) == i && has_at(s@, p@, i as int),
            None => find_from(s@, p@, 0) == -1,
        },
{
    let n = s.unicode_len();
    let m = p.unicode_len();
    if m > n {
        return None;
    }
    let mut i: usize = 0;
    while i <= n - m
        invariant
            i <= n - m,
            m <= n,
            m == p@.len(),
            n == s@.len(),
            find_from(s@, p@, 0) == find_from(s@, p@, i as int),
        decreases n - m - i,
    {
        if occurs_at(s, p, i) {
            return Some(i);
        }
        if i == n - m {
            assert(find_from(s@, p@, i + 1) == -1);
            return None;
        }
        i = i + 1;
    }
    None
}

/// Whether `p` occurs anywhere in `s`.
pub fn contains_text(s: &str, p: &str) -> (r: bool)
    ensures
        r == (find_from(s@, p@, 0) >= 0),
{
    find_text(s, p).is_some()
}

/// The first index at or after `i` holding a whitespace character, or the length.
pub fn whitespace_from(s: &str, i: usize) -> (r: usize)
    requires
        i <= s@.len(),
    ensures
        r as int == ws_from(s@, i as int),
        i <= r <= s@.len(),
        r < s@.len() ==> is_ws(s@[r as int]),
{
    let n = s.unicode_len();
    let mut j = i;
    while j < n
        invariant
            i <= j <= n,
            n == s@.len(),
            ws_from(s@, i as int) == ws_from(s@, j as int),
        decreases n - j,
    {
        if is_whitespace_char(s.get_char(j)) {
            return j;
        }
        j = j + 1;
    }
    j
}

/// The first index at or after `i` holding a non-whitespace character, or the length.
pub fn non_whitespace_from(s: &str, i: usize) -> (r: usize)
    requires
        i <= s@.len(),
    ensures
        r as int == non_ws_from(s@, i as int),
        i <= r <= s@.len(),
        r < s@.len() ==> !is_ws(s@[r as int]),
{
    let n = s.unicode_len();
    let mut j = i;
    while j < n
        invariant
            i <= j <= n,
            n == s@.len(),
            non_ws_from(s@, i as int) == non_ws_from(s@, j as int),
        decreases n - j,
    {
        if !is_whitespace_char(s.get_char(j)) {
            return j;
        }
        j = j + 1;
    }
    j
}

/// `s` without leading and trailing whitespace.
pub fn trim(s: &str) -> (r: String)
    ensures
        r@ == trim_of(s@),
{
    let n = s.unicode_len();
    let a = non_whitespace_from(s, 0);
    if a >= n {
        return String::new();
    }
    let mut b = n;
    loop
        invariant
            a < b <= n,
            n == s@.len(),
            !is_ws(s@[a as int]),
            non_ws_before(s@, n as int) == non_ws_before(s@, b as int),
        ensures
            a < b <= n,
            non_ws_before(s@, n as int) == b,
        decreases b,
    {
        if !is_whitespace_char(s.get_char(b - 1)) {
            assert(non_ws_before(s@, b as int) == b as int);
            break;
        }
        b = b - 1;
    }
    String::from_str(s.substring_char(a, b))
}

/// The lines of `s`, as `lines_from` describes them.
pub fn lines(s: &str) -> (r: Vec<String>)
    ensures
        strs(r@) == lines_from(s@, 0),
{
    let n = s.unicode_len();
    let mut out: Vec<String> = Vec::new();
    let mut i: usize = 0;
    while i < n
        invariant
            i <= n,
            n == s@.len(),
            strs(out@) + lines_from(s@, i as int) == lines_from(s@, 0),
        decreases n - i,
    {
        let mut j = i;
        while j < n && s.get_char(j) != '\n'
            invariant
                i <= j <= n,
                n == s@.len(),
                char_from(s@, '\n', i as int) == char_from(s@, '\n', j as int),
            decreases n - j,
        {
            j = j + 1;
        }
        let mut end = j;
        if j > i && s.get_char(j - 1) == '\r' {
            end = j - 1;
        }
        let line = String::from_str(s.substring_char(i, end));
        assert(line@ =~= strip_cr(s@.subrange(i as int, j as int)));
        let ghost before = strs(out@);
        out.push(line);
        assert(strs(out@) =~= before.push(line@));
        assert(lines_from(s@, i as int) == seq![line@] + lines_from(s@, j + 1));
        assert(strs(out@) + lines_from(s@, j + 1) =~= before + lines_from(s@, i as int));
        if j == n {
            i = n;
        } else {
            i = j + 1;
        }
    }
    assert(strs(out@) =~= strs(out@) + lines_from(s@, i as int));
    out
}

/// The whitespace-separated tokens of `s`.
pub fn tokens(s: &str) -> (r: Vec<String>)
    ensures
        strs(r@) == tokens_from(s@, 0),
{
    let n = s.unicode_len();
    let mut out: Vec<String> = Vec::new();
    let mut i: usize = 0;
    while i < n
        invariant
            i <= n,
            n == s@.len(),
            strs(out@) + tokens_from(s@, i as int) == tokens_from(s@, 0),
        decreases n - i,
    {
        let a = non_whitespace_from(s, i);
        if a >= n {
            assert(tokens_from(s@, i as int) =~= Seq::<Seq<char>>::empty());
            assert(strs(out@) =~= strs(out@) + tokens_from(s@, i as int));
            return out;
        }
        let b = whitespace_from(s, a);
        let tok = String::from_str(s.substring_char(a, b));
        let ghost before = strs(out@);
        out.push(tok);
        assert(strs(out@) =~= before.push(tok@));
        assert(tokens_from(s@, i as int) == seq![tok@] + tokens_from(s@, b as int));
        assert(strs(out@) + tokens_from(s@, b as int) =~= before + tokens_from(s@, i as int));
        i = b;
    }
    assert(tokens_from(s@, i as int) =~= Seq::<Seq<char>>::empty());
    assert(strs(out@) =~= strs(out@) + tokens_from(s@, i as int));
    out
}

} // verus!
