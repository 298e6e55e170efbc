//! Character and string helpers shared by the assistant: character classes,
//! searching, counting, trimming and line splitting, each stated over the
//! `Seq<char>` view of the text.

use vstd::prelude::*;
use vstd::string::StrSliceExecFns;

verus! {

/// Whitespace as the assistant understands it: space, tab, carriage return,
/// line feed.
pub open spec fn is_ws(c: char) -> bool {
    c == ' ' || c == '\t' || c == '\r' || c == '\n'
}

pub open spec fn is_digit(c: char) -> bool {
    48 <= c as u32 && c as u32 <= 57
}

pub open spec fn is_upper(c: char) -> bool {
    65 <= c as u32 && c as u32 <= 90
}

pub open spec fn is_lower(c: char) -> bool {
    97 <= c as u32 && c as u32 <= 122
}

pub open spec fn is_alnum(c: char) -> bool {
    is_digit(c) || is_upper(c) || is_lower(c)
}

/// The code point of `c` with an upper-case ASCII letter folded to lower case.
pub open spec fn lower_code(c: char) -> int {
    if is_upper(c) {
        c as u32 + 32
    } else {
        c as u32 as int
    }
}

/// Whether `t` holds `c` anywhere.
pub open spec fn has_char(t: Seq<char>, c: char) -> bool {
    exists|i: int| 0 <= i < t.len() && t[i] == c
}

/// The index of the first occurrence of `c` in `t`, or -1 when absent.
pub open spec fn find_char(t: Seq<char>, c: char) -> int
    decreases t.len(),
{
    if t.len() == 0 {
        -1
    } else if t[0] == c {
        0
    } else {
        let r = find_char(t.drop_first(), c);
        if r == -1 {
            -1
        } else {
            r + 1
        }
    }
}

/// `find_char` returns -1 exactly when `c` is absent, and otherwise the
/// smallest index holding `c`.
pub proof fn lemma_find_char(t: Seq<char>, c: char)
    ensures
        find_char(t, c) == -1 ==> !has_char(t, c),
        find_char(t, c) != -1 ==> 0 <= find_char(t, c) < t.len()
            && t[find_char(t, c)] == c
            && (forall|i: int| 0 <= i < find_char(t, c) ==> t[i] != c),
    decreases t.len(),
{
    if t.len() != 0 && t[0] != c {
        lemma_find_char(t.drop_first(), c);
        let r = find_char(t.drop_first(), c);
        if r == -1 {
            assert forall|i: int| 0 <= i < t.len() implies t[i] != c by {
                if i > 0 {
                    assert(t.drop_first()[i - 1] == t[i]);
                }
            }
        } else {
            assert forall|i: int| 0 <= i < r + 1 implies t[i] != c by {
                if i > 0 {
                    assert(t.drop_first()[i - 1] == t[i]);
                }
            }
        }
    }
}

/// How many of the first `k` characters of `t` equal `c`.
pub open spec fn count_upto(t: Seq<char>, c: char, k: int) -> int
    decreases k,
{
    if k <= 0 {
        0
    } else {
        count_upto(t, c, k - 1) + if t[k - 1] == c {
            1int
        } else {
            0int
        }
    }
}

/// Whether `t` starts with the prefix `p`.
pub open spec fn starts_with(t: Seq<char>, p: Seq<char>) -> bool {
    t.len() >= p.len() && t.subrange(0, p.len() as int) == p
}

/// `t` with leading whitespace removed.
pub open spec fn drop_ws_front(t: Seq<char>) -> Seq<char>
    decreases t.len(),
{
    if t.len() == 0 || !is_ws(t[0]) {
        t
    } else {
        drop_ws_front(t.drop_first())
    }
}

/// `t` with trailing whitespace removed.
pub open spec fn drop_ws_back(t: Seq<char>) -> Seq<char>
    decreases t.len(),
{
    if t.len() == 0 || !is_ws(t[t.len() - 1]) {
        t
    } else {
        drop_ws_back(t.drop_last())
    }
}

/// `t` with whitespace removed from both ends.
pub open spec fn trim_spec(t: Seq<char>) -> Seq<char> {
    drop_ws_back(drop_ws_front(t))
}

/// The first position at or after `i` holding a character that is not
/// whitespace, or the length of `t` when there is none.
pub open spec fn scan_non_ws(t: Seq<char>, i: int) -> int
    decreases t.len() - i,
{
    if i < 0 || i >= t.len() {
        t.len() as int
    } else if !is_ws(t[i]) {
        i
    } else {
        scan_non_ws(t, i + 1)
    }
}

/// The first position at or after `i` holding whitespace, or the length of
/// `t` when there is none.
pub open spec fn scan_to_ws(t: Seq<char>, i: int) -> int
    decreases t.len() - i,
{
    if i < 0 || i >= t.len() {
        t.len() as int
    } else if is_ws(t[i]) {
        i
    } else {
        scan_to_ws(t, i + 1)
    }
}

/// `scan_to_ws` never moves backwards and never passes the end.
pub proof fn lemma_scan_to_ws_bounds(t: Seq<char>, i: int)
    requires
        0 <= i <= t.len(),
    ensures
        i <= scan_to_ws(t, i) <= t.len(),
    decreases t.len() - i,
{
    if i < t.len() && !is_ws(t[i]) {
        lemma_scan_to_ws_bounds(t, i + 1);
    }
}

/// The start of the run of non-whitespace characters that contains
/// position `i`: the largest position at or below `i` that is preceded by
/// whitespace or by the start of the text.
pub open spec fn run_start(t: Seq<char>, i: int) -> int
    decreases i,
{
    if i <= 0 {
        0
    } else if is_ws(t[i - 1]) {
        i
    } else {
        run_start(t, i - 1)
    }
}

/// The lines of `t`: the pieces between line feeds, in order. A line feed
/// ends a line and belongs to none; the piece after the last line feed is a
/// line even when empty.
pub open spec fn split_lines(t: Seq<char>) -> Seq<Seq<char>>
    decreases t.len(),
{
    let nl = find_char(t, '\n');
    if !(0 <= nl < t.len()) {
        seq![t]
    } else {
        seq![t.subrange(0, nl)] + split_lines(t.subrange(nl + 1, t.len() as int))
    }
}

/// Splitting at the first line feed agrees with `split_lines`.
pub proof fn lemma_split_lines_step(t: Seq<char>, k: int)
    requires
        0 <= k < t.len(),
        t[k] == '\n',
        forall|i: int| 0 <= i < k ==> t[i] != '\n',
    ensures
        split_lines(t) == seq![t.subrange(0, k)] + split_lines(t.subrange(k + 1, t.len() as int)),
{
    lemma_find_char(t, '\n');
    let nl = find_char(t, '\n');
    assert(nl != -1);
    assert(nl >= k) by {
        assert(t[nl] == '\n');
    }
    assert(nl == k);
}

/// Removing a whitespace prefix of length `a` is `drop_ws_front`.
pub proof fn lemma_drop_ws_front(t: Seq<char>, a: int)
    requires
        0 <= a <= t.len(),
        forall|j: int| 0 <= j < a ==> is_ws(#[trigger] t[j]),
        a == t.len() || !is_ws(t[a]),
    ensures
        drop_ws_front(t) == t.subrange(a, t.len() as int),
    decreases a,
{
    if a == 0 {
        assert(t.subrange(0, t.len() as int) =~= t);
    } else {
        lemma_drop_ws_front(t.drop_first(), a - 1);
        assert(t.drop_first().subrange(a - 1, t.drop_first().len() as int) =~= t.subrange(
            a,
            t.len() as int,
        ));
    }
}

/// Removing a whitespace suffix that starts at `b` is `drop_ws_back`.
pub proof fn lemma_drop_ws_back(t: Seq<char>, b: int)
    requires
        0 <= b <= t.len(),
        forall|j: int| b <= j < t.len() ==> is_ws(#[trigger] t[j]),
        b == 0 || !is_ws(t[b - 1]),
    ensures
        drop_ws_back(t) == t.subrange(0, b),
    decreases t.len(),
{
    if b == t.len() {
        assert(t.subrange(0, t.len() as int) =~= t);
    } else {
        lemma_drop_ws_back(t.drop_last(), b);
        assert(t.drop_last().subrange(0, b) =~= t.subrange(0, b));
    }
}

/// Whether `c` is whitespace.
pub fn is_ws_char(c: char) -> (r: bool)
    ensures
        r == is_ws(c),
{
    c == ' ' || c == '\t' || c == '\r' || c == '\n'
}

/// Whether `c` is an ASCII digit.
pub fn is_digit_char(c: char) -> (r: bool)
    ensures
        r == is_digit(c),
{
    let x = c as u32;
    48 <= x && x <= 57
}

/// Whether `c` is an ASCII upper-case letter.
pub fn is_upper_char(c: char) -> (r: bool)
    ensures
        r == is_upper(c),
{
    let x = c as u32;
    65 <= x && x <= 90
}

/// Whether `c` is an ASCII letter or digit.
pub fn is_alnum_char(c: char) -> (r: bool)
    ensures
        r == is_alnum(c),
{
    let x = c as u32;
    (48 <= x && x <= 57) || (65 <= x && x <= 90) || (97 <= x && x <= 122)
}

/// The slice with whitespace removed from both ends.
pub fn trim_str<'a>(t: &'a str) -> (r: &'a str)
    ensures
        r@ == trim_spec(t@),
{
    let n = t.unicode_len();
    let mut a: usize = 0;
    while a < n && is_ws_char(t.get_char(a))
        invariant
            n == t@.len(),
            0 <= a <= n,
            forall|j: int| 0 <= j < a ==> is_ws(#[trigger] t@[j]),
        decreases n - a,
    {
        a += 1;
    }
    proof {
        lemma_drop_ws_front(t@, a as int);
    }
    if a == n {
        proof {
            assert(drop_ws_front(t@) =~= Seq::<char>::empty());
        }
        return t.substring_char(n, n);
    }
    let mut b: usize = n;
    while b > a && is_ws_char(t.get_char(b - 1))
        invariant
            n == t@.len(),
            0 <= a <= b <= n,
            forall|j: int| b <= j < n ==> is_ws(#[trigger] t@[j]),
        decreases b,
    {
        b -= 1;
    }
    proof {
        let front = t@.subrange(a as int, n as int);
        assert forall|j: int| b - a <= j < front.len() implies is_ws(#[trigger] front[j]) by {
            assert(front[j] == t@[a + j]);
        }
        assert(b - a == 0 || !is_ws(front[b - a - 1])) by {
            if b > a {
                assert(front[b - a - 1] == t@[b - 1]);
            }
        }
        lemma_drop_ws_back(front, b - a);
        assert(front.subrange(0, b - a) =~= t@.subrange(a as int, b as int));
    }
    t.substring_char(a, b)
}

/// The index of the first occurrence of `c` in `t`, when there is one.
pub fn find_char_str(t: &str, c: char) -> (r: Option<usize>)
    ensures
        match r {
            Some(i) => find_char(t@, c) == i && i < t@.len(),
            None => find_char(t@, c) == -1,
        },
{
    let n = t.unicode_len();
    let mut i: usize = 0;
    while i < n
        invariant
            n == t@.len(),
            0 <= i <= n,
            forall|j: int| 0 <= j < i ==> t@[j] != c,
        decreases n - i,
    {
        if t.get_char(i) == c {
            proof {
                lemma_find_char(t@, c);
                assert(has_char(t@, c)) by {
                    assert(t@[i as int] == c);
                }
            }
            return Some(i);
        }
        i += 1;
    }
    proof {
        lemma_find_char(t@, c);
        if find_char(t@, c) != -1 {
            assert(t@[find_char(t@, c)] == c);
        }
    }
    None
}

/// The number of occurrences of `c` in `t`.
pub fn count_char_str(t: &str, c: char) -> (r: usize)
    ensures
        r == count_upto(t@, c, t@.len() as int),
{
    let n = t.unicode_len();
    let mut i: usize = 0;
    let mut cnt: usize = 0;
    while i < n
        invariant
            n == t@.len(),
            0 <= i <= n,
            cnt == count_upto(t@, c, i as int),
            cnt <= i,
        decreases n - i,
    {
        if t.get_char(i) == c {
            cnt += 1;
        }
        i += 1;
    }
    cnt
}

/// Whether `t` starts with the prefix `p`.
pub fn starts_with_str(t: &str, p: &str) -> (r: bool)
    ensures
        r == starts_with(t@, p@),
{
    let n = t.unicode_len();
    let m = p.unicode_len();
    if m > n {
        return false;
    }
    let mut i: usize = 0;
    while i < m
        invariant
            n == t@.len(),
            m == p@.len(),
            m <= n,
            0 <= i <= m,
            forall|j: int| 0 <= j < i ==> t@[j] == p@[j],
        decreases m - i,
    {
        if t.get_char(i) != p.get_char(i) {
            proof {
                assert(t@.subrange(0, m as int)[i as int] != p@[i as int]);
            }
            return false;
        }
        i += 1;
    }
    proof {
        assert(t@.subrange(0, m as int) =~= p@);
    }
    true
}

/// The first position at or after `i` that holds whitespace, or the end.
pub fn scan_to_ws_str(t: &str, i: usize) -> (r: usize)
    requires
        i <= t@.len(),
    ensures
        r == scan_to_ws(t@, i as int),
        i <= r <= t@.len(),
{
    let n = t.unicode_len();
    let mut j: usize = i;
    while j < n && !is_ws_char(t.get_char(j))
        invariant
            n == t@.len(),
            i <= j <= n,
            scan_to_ws(t@, i as int) == scan_to_ws(t@, j as int),
        decreases n - j,
    {
        j += 1;
    }
    j
}

/// The first position at or after `i` that holds a non-whitespace
/// character, or the end.
pub fn scan_non_ws_str(t: &str, i: usize) -> (r: usize)
    requires
        i <= t@.len(),
    ensures
        r == scan_non_ws(t@, i as int),
        i <= r <= t@.len(),
{
    let n = t.unicode_len();
    let mut j: usize = i;
    while j < n && is_ws_char(t.get_char(j))
        invariant
            n == t@.len(),
            i <= j <= n,
            scan_non_ws(t@, i as int) == scan_non_ws(t@, j as int),
        decreases n - j,
    {
        j += 1;
    }
    j
}

/// The start of the run of non-whitespace characters containing `i`.
pub fn run_start_str(t: &str, i: usize) -> (r: usize)
    requires
        i <= t@.len(),
    ensures
        r == run_start(t@, i as int),
        r <= i,
{
    let mut j: usize = i;
    while j > 0 && !is_ws_char(t.get_char(j - 1))
        invariant
            0 <= j <= i,
            i <= t@.len(),
            run_start(t@, i as int) == run_start(t@, j as int),
        decreases j,
    {
        j -= 1;
    }
    j
}

/// The lines of `t`, split at line feeds.
pub fn split_lines_str<'a>(t: &'a str) -> (r: Vec<&'a str>)
    ensures
        r.deep_view() == split_lines(t@),
        r@.len() >= 1,
{
    let n = t.unicode_len();
    let mut lines: Vec<&'a str> = Vec::new();
    let mut start: usize = 0;
    let mut i: usize = 0;
    proof {
        assert(lines.deep_view() =~= Seq::<Seq<char>>::empty());
        assert(t@.subrange(0, n as int) =~= t@);
    }
    while i < n
        invariant
            n == t@.len(),
            0 <= start <= i <= n,
            forall|j: int| start <= j < i ==> t@[j] != '\n',
            split_lines(t@) =~= lines.deep_view() + split_lines(
                t@.subrange(start as int, n as int),
            ),
        decreases n - i,
    {
        if t.get_char(i) == '\n' {
            let ghost old_dv = lines.deep_view();
            let line = t.substring_char(start, i);
            lines.push(line);
            proof {
                let rest = t@.subrange(start as int, n as int);
                assert(rest[i - start] == '\n');
                assert forall|j: int| 0 <= j < i - start implies rest[j] != '\n' by {
                    assert(rest[j] == t@[start + j]);
                }
                lemma_split_lines_step(rest, i - start);
                assert(rest.subrange(0, i - start) =~= t@.subrange(start as int, i as int));
                assert(rest.subrange(i - start + 1, rest.len() as int) =~= t@.subrange(
                    i + 1,
                    n as int,
                ));
                assert(lines.deep_view() =~= old_dv.push(line@));
                assert(split_lines(t@) =~= lines.deep_view() + split_lines(
                    t@.subrange(i + 1, n as int),
                ));
            }
            start = i + 1;
        }
        i += 1;
    }
    let ghost old_dv = lines.deep_view();
    let last = t.substring_char(start, n);
    lines.push(last);
    proof {
        let rest = t@.subrange(start as int, n as int);
        lemma_find_char(rest, '\n');
        if find_char(rest, '\n') != -1 {
            let k = find_char(rest, '\n');
            assert(rest[k] == '\n');
            assert(rest[k] == t@[start + k]);
        }
        assert(split_lines(rest) == seq![rest]);
        assert(lines.deep_view() =~= old_dv.push(last@));
        assert(lines.deep_view() =~= old_dv + seq![rest]);
        assert(lines.deep_view() =~= split_lines(t@));
    }
    lines
}

/// Exact equality of two string slices, decided character by character.
pub fn str_eq(a: &str, b: &str) -> (r: bool)
    ensures
        r == (a@ == b@),
{
    let n = a.unicode_len();
    let m = b.unicode_len();
    if n != m {
        return false;
    }
    let mut i: usize = 0;
    while i < n
        invariant
            n == a@.len(),
            n == b@.len(),
            0 <= i <= n,
            forall|j: int| 0 <= j < i ==> a@[j] == b@[j],
        decreases n - i,
    {
        if a.get_char(i) != b.get_char(i) {
            return false;
        }
        i += 1;
    }
    proof {
        assert(a@ =~= b@);
    }
    true
}

/// Whether `t` holds the character `c` anywhere.
pub fn contains_char(t: &str, c: char) -> (r: bool)
    ensures
        r == has_char(t@, c),
{
    let n = t.unicode_len();
    let mut i: usize = 0;
    while i < n
        invariant
            n == t@.len(),
            0 <= i <= n,
            forall|j: int| 0 <= j < i ==> t@[j] != c,
        decreases n - i,
    {
        if t.get_char(i) == c {
            return true;
        }
        i += 1;
    }
    false
}

} // verus!
