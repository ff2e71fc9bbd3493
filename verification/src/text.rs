//! Character-sequence helpers shared by every parser of the library.
use vstd::prelude::*;

verus! {

/// Unicode `White_Space` characters, the set that `str::trim` removes.
pub open spec fn is_ws(c: char) -> bool {
    ||| ('\t' <= c && c <= '\r')
    ||| c == ' '
    ||| c == '\u{85}'
    ||| c == '\u{A0}'
    ||| c == '\u{1680}'
    ||| ('\u{2000}' <= c && c <= '\u{200A}')
    ||| c == '\u{2028}'
    ||| c == '\u{2029}'
    ||| c == '\u{202F}'
    ||| c == '\u{205F}'
    ||| c == '\u{3000}'
}

/// The sequence with its leading whitespace removed.
pub open spec fn trim_start(s: Seq<char>) -> Seq<char>
    decreases s.len(),
{
    if s.len() > 0 && is_ws(s[0]) {
        trim_start(s.drop_first())
    } else {
        s
    }
}

/// The sequence with its trailing whitespace removed.
pub open spec fn trim_end(s: Seq<char>) -> Seq<char>
    decreases s.len(),
{
    if s.len() > 0 && is_ws(s.last()) {
        trim_end(s.drop_last())
    } else {
        s
    }
}

/// The sequence with whitespace removed at both ends.
pub open spec fn trim(s: Seq<char>) -> Seq<char> {
    trim_end(trim_start(s))
}

/// ASCII lowercase of one character (other characters are kept).
pub open spec fn lower_char(c: char) -> char {
    if 'A' <= c && c <= 'Z' {
        ((c as u32) + 32) as char
    } else {
        c
    }
}

/// ASCII lowercase of a sequence.
pub open spec fn lower(s: Seq<char>) -> Seq<char> {
    s.map_values(|c: char| lower_char(c))
}

/// The key form used for every case-insensitive lookup: trimmed, then ASCII lowercased.
pub open spec fn norm(s: Seq<char>) -> Seq<char> {
    lower(trim(s))
}

/// `p` occurs in `s` at position `i`.
pub open spec fn occurs_at(s: Seq<char>, p: Seq<char>, i: int) -> bool {
    0 <= i && i + p.len() <= s.len() && s.subrange(i, i + p.len()) == p
}

/// `p` occurs somewhere in `s`.
pub open spec fn contains(s: Seq<char>, p: Seq<char>) -> bool {
    exists|i: int| occurs_at(s, p, i)
}

pub open spec fn starts_with(s: Seq<char>, p: Seq<char>) -> bool {
    p.len() <= s.len() && s.subrange(0, p.len() as int) == p
}

pub open spec fn ends_with(s: Seq<char>, p: Seq<char>) -> bool {
    p.len() <= s.len() && s.subrange(s.len() - p.len(), s.len() as int) == p
}

/// Index of the first occurrence of `c` in `s`, if any.
pub open spec fn find_char(s: Seq<char>, c: char) -> Option<int> {
    if exists|i: int| 0 <= i < s.len() && s[i] == c {
        Some(choose|i: int| 0 <= i < s.len() && s[i] == c && forall|j: int| 0 <= j < i ==> s[j] != c)
    } else {
        None
    }
}

pub fn exec_is_ws(c: char) -> (r: bool)
    ensures
        r == is_ws(c),
{
    ('\t' <= c && c <= '\r') || c == ' ' || c == '\u{85}' || c == '\u{A0}' || c == '\u{1680}'
        || ('\u{2000}' <= c && c <= '\u{200A}') || c == '\u{2028}' || c == '\u{2029}'
        || c == '\u{202F}' || c == '\u{205F}' || c == '\u{3000}'
}

pub fn exec_lower_char(c: char) -> (r: char)
    ensures
        r == lower_char(c),
{
    if 'A' <= c && c <= 'Z' {
        let v: u32 = (c as u32) + 32;
        let b: u8 = v as u8;
        proof {
            assert(v == b);
        }
        b as char
    } else {
        c
    }
}

/// The characters of a string slice.
pub fn chars_of(s: &str) -> (v: Vec<char>)
    ensures
        v@ == s@,
{
    let n = s.unicode_len();
    let mut v: Vec<char> = Vec::new();
    let mut i: usize = 0;
    while i < n
        invariant
            n == s@.len(),
            i <= n,
            v@ == s@.subrange(0, i as int),
        decreases n - i,
    {
        v.push(s.get_char(i));
        i = i + 1;
    }
    assert(v@ == s@);
    v
}

/// Appends one character to a string (`String::push`).
#[verifier::external_body]
fn push_char(s: &mut String, c: char)
    ensures
        final(s)@ == old(s)@.push(c),
{
    s.push(c);
}

/// A string holding exactly the given characters.
pub fn string_from(v: &[char]) -> (r: String)
    ensures
        r@ == v@,
{
    let mut r = String::new();
    let mut i: usize = 0;
    while i < v.len()
        invariant
            i <= v@.len(),
            r@ == v@.subrange(0, i as int),
        decreases v@.len() - i,
    {
        push_char(&mut r, v[i]);
        assert(v@.subrange(0, i + 1) == v@.subrange(0, i as int).push(v@[i as int]));
        i = i + 1;
    }
    assert(v@.subrange(0, v@.len() as int) == v@);
    r
}

/// A string holding the characters of a sequence slice `v[from..to]`.
pub fn string_from_range(v: &[char], from: usize, to: usize) -> (r: String)
    requires
        from <= to <= v@.len(),
    ensures
        r@ == v@.subrange(from as int, to as int),
{
    let mut r = String::new();
    let mut i: usize = from;
    while i < to
        invariant
            from <= i <= to,
            to <= v@.len(),
            r@ == v@.subrange(from as int, i as int),
        decreases to - i,
    {
        push_char(&mut r, v[i]);
        assert(v@.subrange(from as int, i + 1) == v@.subrange(from as int, i as int).push(
            v@[i as int],
        ));
        i = i + 1;
    }
    r
}

/// An owned copy of a string slice.
pub fn owned(s: &str) -> (r: String)
    ensures
        r@ == s@,
{
    let v = chars_of(s);
    string_from(v.as_slice())
}

/// Copy of a vector of characters restricted to `v[from..to]`.
pub fn sub_vec(v: &[char], from: usize, to: usize) -> (r: Vec<char>)
    requires
        from <= to <= v@.len(),
    ensures
        r@ == v@.subrange(from as int, to as int),
{
    let mut r: Vec<char> = Vec::new();
    let mut i: usize = from;
    while i < to
        invariant
            from <= i <= to,
            to <= v@.len(),
            r@ == v@.subrange(from as int, i as int),
        decreases to - i,
    {
        r.push(v[i]);
        i = i + 1;
    }
    r
}

proof fn lemma_trim_start_skip(s: Seq<char>, i: int)
    requires
        0 <= i <= s.len(),
        forall|j: int| 0 <= j < i ==> is_ws(s[j]),
    ensures
        trim_start(s) == trim_start(s.subrange(i, s.len() as int)),
    decreases i,
{
    if i > 0 {
        assert(s.drop_first() == s.subrange(1, s.len() as int));
        lemma_trim_start_skip(s.drop_first(), i - 1);
        assert(s.drop_first().subrange(i - 1, s.drop_first().len() as int) == s.subrange(
            i,
            s.len() as int,
        ));
    } else {
        assert(s.subrange(0, s.len() as int) == s);
    }
}

proof fn lemma_trim_end_take(s: Seq<char>, k: int)
    requires
        0 <= k <= s.len(),
        forall|j: int| k <= j < s.len() ==> is_ws(s[j]),
    ensures
        trim_end(s) == trim_end(s.subrange(0, k)),
    decreases s.len() - k,
{
    if k < s.len() {
        assert(s.drop_last() == s.subrange(0, s.len() - 1));
        lemma_trim_end_take(s.drop_last(), k);
        assert(s.drop_last().subrange(0, k) == s.subrange(0, k));
    } else {
        assert(s.subrange(0, k) == s);
    }
}

/// Index range `[a, b)` of `s` that survives trimming.
pub fn trim_bounds(s: &[char]) -> (r: (usize, usize))
    ensures
        r.0 <= r.1 <= s@.len(),
        trim(s@) == s@.subrange(r.0 as int, r.1 as int),
{
    let n = s.len();
    let mut a: usize = 0;
    while a < n && exec_is_ws(s[a])
        invariant
            a <= n,
            n == s@.len(),
            forall|j: int| 0 <= j < a ==> is_ws(s@[j]),
        decreases n - a,
    {
        a = a + 1;
    }
    proof {
        lemma_trim_start_skip(s@, a as int);
    }
    let ghost rest = s@.subrange(a as int, n as int);
    assert(trim_start(rest) == rest) by {
        if rest.len() > 0 {
            assert(rest[0] == s@[a as int]);
        }
    }
    let mut b: usize = n;
    while b > a && exec_is_ws(s[b - 1])
        invariant
            a <= b <= n,
            n == s@.len(),
            rest == s@.subrange(a as int, n as int),
            forall|j: int| b <= j < n ==> is_ws(s@[j]),
        decreases b,
    {
        b = b - 1;
    }
    proof {
        lemma_trim_end_take(rest, (b - a) as int);
        assert(rest.subrange(0, (b - a) as int) == s@.subrange(a as int, b as int));
        let t = s@.subrange(a as int, b as int);
        if t.len() > 0 {
            assert(t.last() == s@[b - 1]);
        }
        assert(trim_end(t) == t);
    }
    (a, b)
}

/// Copy of a character vector with its leading whitespace removed.
pub fn trim_start_chars(s: &[char]) -> (r: Vec<char>)
    ensures
        r@ == trim_start(s@),
{
    let n = s.len();
    let mut a: usize = 0;
    while a < n && exec_is_ws(s[a])
        invariant
            a <= n,
            n == s@.len(),
            forall|j: int| 0 <= j < a ==> is_ws(s@[j]),
        decreases n - a,
    {
        a = a + 1;
    }
    proof {
        lemma_trim_start_skip(s@, a as int);
        let rest = s@.subrange(a as int, n as int);
        if rest.len() > 0 {
            assert(rest[0] == s@[a as int]);
        }
    }
    sub_vec(s, a, n)
}

/// Trimmed copy of a character vector.
pub fn trim_chars(s: &[char]) -> (r: Vec<char>)
    ensures
        r@ == trim(s@),
{
    let (a, b) = trim_bounds(s);
    sub_vec(s, a, b)
}

/// ASCII-lowercased copy of a character vector.
pub fn lower_chars(s: &[char]) -> (r: Vec<char>)
    ensures
        r@ == lower(s@),
{
    let mut r: Vec<char> = Vec::new();
    let mut i: usize = 0;
    while i < s.len()
        invariant
            i <= s@.len(),
            r@ == lower(s@.subrange(0, i as int)),
        decreases s@.len() - i,
    {
        let c = exec_lower_char(s[i]);
        r.push(c);
        assert(lower(s@.subrange(0, i + 1)) == lower(s@.subrange(0, i as int)).push(c));
        i = i + 1;
    }
    assert(s@.subrange(0, s@.len() as int) == s@);
    r
}

/// The normalized (trimmed, ASCII-lowercased) characters of a string.
pub fn norm_chars(s: &str) -> (r: Vec<char>)
    ensures
        r@ == norm(s@),
{
    let v = chars_of(s);
    let t = trim_chars(v.as_slice());
    lower_chars(t.as_slice())
}

/// The trimmed characters of a string.
pub fn trimmed_chars(s: &str) -> (r: Vec<char>)
    ensures
        r@ == trim(s@),
{
    let v = chars_of(s);
    trim_chars(v.as_slice())
}

/// Equality of a character slice with a string slice.
pub fn eq_str(s: &[char], lit: &str) -> (r: bool)
    ensures
        r == (s@ == lit@),
{
    let n = lit.unicode_len();
    if s.len() != n {
        return false;
    }
    let mut i: usize = 0;
    while i < n
        invariant
            n == lit@.len(),
            n == s@.len(),
            i <= n,
            forall|j: int| 0 <= j < i ==> s@[j] == lit@[j],
        decreases n - i,
    {
        if s[i] != lit.get_char(i) {
            return false;
        }
        i = i + 1;
    }
    assert(s@ == lit@);
    true
}

/// Equality of two string slices.
pub fn str_eq(a: &str, b: &str) -> (r: bool)
    ensures
        r == (a@ == b@),
{
    let v = chars_of(a);
    eq_str(v.as_slice(), b)
}

/// Whether `p` occurs in `s` at index `i`.
pub fn occurs_at_exec(s: &[char], p: &[char], i: usize) -> (r: bool)
    ensures
        r == occurs_at(s@, p@, i as int),
{
    if i > s.len() || p.len() > s.len() - i {
        return false;
    }
    let n = s.len();
    let mut k: usize = 0;
    while k < p.len()
        invariant
            n == s@.len(),
            i + p@.len() <= s@.len(),
            i <= s@.len(),
            k <= p@.len(),
            forall|j: int| 0 <= j < k ==> s@[i + j] == p@[j],
        decreases p@.len() - k,
    {
        assert(i + k < s@.len());
        if s[i + k] != p[k] {
            assert(s@.subrange(i as int, i + p@.len())[k as int] != p@[k as int]);
            return false;
        }
        k = k + 1;
    }
    assert(s@.subrange(i as int, i + p@.len()) == p@);
    true
}

/// Whether `p` occurs somewhere in `s`.
pub fn contains_chars(s: &[char], p: &[char]) -> (r: bool)
    ensures
        r == contains(s@, p@),
{
    if p.len() > s.len() {
        assert forall|i: int| !occurs_at(s@, p@, i) by {}
        return false;
    }
    let last = s.len() - p.len();
    let mut i: usize = 0;
    while i <= last
        invariant
            last == s@.len() - p@.len(),
            i <= last + 1,
            forall|j: int| 0 <= j < i ==> !occurs_at(s@, p@, j),
        decreases last + 1 - i,
    {
        if occurs_at_exec(s, p, i) {
            return true;
        }
        if i == last {
            assert forall|j: int| !occurs_at(s@, p@, j) by {
                if 0 <= j && j + p@.len() <= s@.len() {
                    assert(j <= i);
                }
            }
            return false;
        }
        i = i + 1;
    }
    assert forall|j: int| !occurs_at(s@, p@, j) by {
        if 0 <= j && j + p@.len() <= s@.len() {
            assert(j < i);
        }
    }
    false
}

/// Whether the string slice `lit` occurs somewhere in `s`.
pub fn contains_str(s: &[char], lit: &str) -> (r: bool)
    ensures
        r == contains(s@, lit@),
{
    let p = chars_of(lit);
    contains_chars(s, p.as_slice())
}

/// Whether `s` starts with the string slice `lit`.
pub fn starts_with_str(s: &[char], lit: &str) -> (r: bool)
    ensures
        r == starts_with(s@, lit@),
{
    let p = chars_of(lit);
    let r = occurs_at_exec(s, p.as_slice(), 0);
    r
}

/// Whether `s` ends with the string slice `lit`.
pub fn ends_with_str(s: &[char], lit: &str) -> (r: bool)
    ensures
        r == ends_with(s@, lit@),
{
    let p = chars_of(lit);
    if p.len() > s.len() {
        return false;
    }
    occurs_at_exec(s, p.as_slice(), s.len() - p.len())
}

/// Index of the first occurrence of `c` in `s`.
pub fn find_char_exec(s: &[char], c: char) -> (r: Option<usize>)
    ensures
        r matches Some(i) ==> find_char(s@, c) == Some(i as int) && i < s@.len() && s@[i as int] == c,
        r is None ==> find_char(s@, c) is None,
{
    let mut i: usize = 0;
    while i < s.len()
        invariant
            i <= s@.len(),
            forall|j: int| 0 <= j < i ==> s@[j] != c,
        decreases s@.len() - i,
    {
        if s[i] == c {
            proof {
                let w = choose|k: int| 0 <= k < s@.len() && s@[k] == c && forall|j: int|
                    0 <= j < k ==> s@[j] != c;
                assert(0 <= i < s@.len() && s@[i as int] == c && forall|j: int|
                    0 <= j < i ==> s@[j] != c);
                if w < i {
                } else if w > i {
                    assert(s@[i as int] != c);
                }
            }
            return Some(i);
        }
        i = i + 1;
    }
    None
}

/// `str::split` on one character: the pieces between occurrences of `c`.
pub open spec fn split(s: Seq<char>, c: char) -> Seq<Seq<char>>
    decreases s.len(),
{
    if s.len() == 0 {
        seq![seq![]]
    } else {
        let r = split(s.drop_last(), c);
        if s.last() == c {
            r.push(seq![])
        } else {
            r.update(r.len() - 1, r.last().push(s.last()))
        }
    }
}

pub proof fn lemma_split_nonempty(s: Seq<char>, c: char)
    ensures
        split(s, c).len() >= 1,
    decreases s.len(),
{
    if s.len() > 0 {
        lemma_split_nonempty(s.drop_last(), c);
    }
}

/// Views of a vector of character vectors.
pub open spec fn views(v: Seq<Vec<char>>) -> Seq<Seq<char>> {
    v.map_values(|x: Vec<char>| x@)
}

/// The pieces of `s` between occurrences of `c` (`str::split`).
pub fn split_chars(s: &[char], c: char) -> (r: Vec<Vec<char>>)
    ensures
        views(r@) == split(s@, c),
{
    let mut parts: Vec<Vec<char>> = Vec::new();
    let mut cur: Vec<char> = Vec::new();
    let mut i: usize = 0;
    assert(s@.subrange(0, 0) =~= Seq::<char>::empty());
    while i < s.len()
        invariant
            i <= s@.len(),
            views(parts@).push(cur@) == split(s@.subrange(0, i as int), c),
        decreases s@.len() - i,
    {
        let ghost prev = s@.subrange(0, i as int);
        let ghost next = s@.subrange(0, i + 1);
        assert(next.drop_last() == prev);
        assert(next.last() == s@[i as int]);
        proof {
            lemma_split_nonempty(prev, c);
        }
        if s[i] == c {
            let done = cur;
            parts.push(done);
            cur = Vec::new();
            assert(views(parts@) == views(parts@).drop_last().push(done@));
        } else {
            cur.push(s[i]);
            assert(views(parts@).push(cur@) =~= split(prev, c).update(
                split(prev, c).len() - 1,
                split(prev, c).last().push(s@[i as int]),
            ));
        }
        i = i + 1;
    }
    assert(s@.subrange(0, s@.len() as int) == s@);
    parts.push(cur);
    assert(views(parts@) =~= split(s@, c));
    parts
}

/// The sequence with one trailing carriage return removed.
pub open spec fn strip_cr(s: Seq<char>) -> Seq<char> {
    if s.len() > 0 && s.last() == '\r' {
        s.drop_last()
    } else {
        s
    }
}

/// `str::lines`: pieces between `\n`, a `\r` before each `\n` removed, and no empty piece after a
/// final `\n`.
pub open spec fn lines(s: Seq<char>) -> Seq<Seq<char>> {
    let p = split(s, '\n');
    let body = if p.last().len() == 0 {
        p.drop_last()
    } else {
        p
    };
    Seq::new(
        body.len(),
        |i: int|
            if i < p.len() - 1 {
                strip_cr(body[i])
            } else {
                body[i]
            },
    )
}

/// The lines of `s` (`str::lines`).
pub fn lines_of(s: &[char]) -> (r: Vec<Vec<char>>)
    ensures
        views(r@) == lines(s@),
{
    let parts = split_chars(s, '\n');
    proof {
        lemma_split_nonempty(s@, '\n');
    }
    let np = parts.len();
    let last_empty = parts[np - 1].len() == 0;
    let n = if last_empty {
        np - 1
    } else {
        np
    };
    let mut r: Vec<Vec<char>> = Vec::new();
    let mut i: usize = 0;
    while i < n
        invariant
            np == parts@.len(),
            np >= 1,
            n <= np,
            last_empty == (parts@[np - 1]@.len() == 0),
            last_empty ==> n == np - 1,
            !last_empty ==> n == np,
            views(parts@) == split(s@, '\n'),
            i <= n,
            views(r@) == lines(s@).subrange(0, i as int),
        decreases n - i,
    {
        let part = &parts[i];
        let pl = part.len();
        let line = if i + 1 < np && pl > 0 && part[pl - 1] == '\r' {
            sub_vec(part.as_slice(), 0, pl - 1)
        } else {
            sub_vec(part.as_slice(), 0, pl)
        };
        proof {
            assert(views(parts@)[i as int] == parts@[i as int]@);
            assert(part@.subrange(0, pl as int) == part@);
            let p = split(s@, '\n');
            let body = if p.last().len() == 0 {
                p.drop_last()
            } else {
                p
            };
            assert(p[i as int] == part@);
            assert(body[i as int] == part@);
            assert(line@ == lines(s@)[i as int]);
        }
        let ghost old_r = r@;
        r.push(line);
        assert(views(r@) =~= views(old_r).push(line@));
        assert(views(r@) =~= lines(s@).subrange(0, i + 1));
        i = i + 1;
    }
    assert(views(r@) =~= lines(s@));
    r
}

/// Lexicographic order of character sequences by code point (the order of `str`).
pub open spec fn seq_lt(a: Seq<char>, b: Seq<char>) -> bool
    decreases a.len(),
{
    if a.len() == 0 {
        b.len() > 0
    } else if b.len() == 0 {
        false
    } else if a[0] != b[0] {
        a[0] < b[0]
    } else {
        seq_lt(a.drop_first(), b.drop_first())
    }
}

pub proof fn lemma_seq_lt_irrefl(a: Seq<char>)
    ensures
        !seq_lt(a, a),
    decreases a.len(),
{
    if a.len() > 0 {
        lemma_seq_lt_irrefl(a.drop_first());
    }
}

pub proof fn lemma_seq_lt_trans(a: Seq<char>, b: Seq<char>, c: Seq<char>)
    requires
        seq_lt(a, b),
        seq_lt(b, c),
    ensures
        seq_lt(a, c),
    decreases a.len(),
{
    if a.len() > 0 && b.len() > 0 && c.len() > 0 {
        if a[0] == b[0] && b[0] == c[0] {
            lemma_seq_lt_trans(a.drop_first(), b.drop_first(), c.drop_first());
        }
    }
}

pub proof fn lemma_seq_lt_total(a: Seq<char>, b: Seq<char>)
    ensures
        seq_lt(a, b) || seq_lt(b, a) || a == b,
    decreases a.len(),
{
    if a.len() > 0 && b.len() > 0 {
        if a[0] == b[0] {
            lemma_seq_lt_total(a.drop_first(), b.drop_first());
            if a.drop_first() == b.drop_first() {
                assert(a =~= seq![a[0]] + a.drop_first());
                assert(b =~= seq![b[0]] + b.drop_first());
            }
        }
    } else if a.len() == 0 && b.len() == 0 {
        assert(a =~= b);
    }
}

pub proof fn lemma_seq_lt_asym(a: Seq<char>, b: Seq<char>)
    requires
        seq_lt(a, b),
    ensures
        !seq_lt(b, a),
{
    if seq_lt(b, a) {
        lemma_seq_lt_trans(a, b, a);
        lemma_seq_lt_irrefl(a);
    }
}

/// Whether `a` orders before `b`.
pub fn seq_lt_exec(a: &[char], b: &[char]) -> (r: bool)
    ensures
        r == seq_lt(a@, b@),
{
    let mut i: usize = 0;
    assert(a@.subrange(0, a@.len() as int) == a@);
    assert(b@.subrange(0, b@.len() as int) == b@);
    while i < a.len() && i < b.len()
        invariant
            i <= a@.len(),
            i <= b@.len(),
            forall|j: int| 0 <= j < i ==> a@[j] == b@[j],
            seq_lt(a@, b@) == seq_lt(a@.subrange(i as int, a@.len() as int), b@.subrange(i as int, b@.len() as int)),
        decreases a@.len() - i,
    {
        if a[i] != b[i] {
            let ghost x = a@.subrange(i as int, a@.len() as int);
            let ghost y = b@.subrange(i as int, b@.len() as int);
            assert(x[0] == a@[i as int] && y[0] == b@[i as int]);
            return a[i] < b[i];
        }
        let ghost x = a@.subrange(i as int, a@.len() as int);
        let ghost y = b@.subrange(i as int, b@.len() as int);
        assert(x.drop_first() == a@.subrange(i + 1, a@.len() as int));
        assert(y.drop_first() == b@.subrange(i + 1, b@.len() as int));
        i = i + 1;
    }
    let ghost x = a@.subrange(i as int, a@.len() as int);
    let ghost y = b@.subrange(i as int, b@.len() as int);
    i < b.len()
}

/// Appends the characters of `s` to `v`.
pub fn append_str(v: &mut Vec<char>, s: &str)
    ensures
        final(v)@ == old(v)@ + s@,
{
    let c = chars_of(s);
    append_chars(v, c.as_slice());
}

/// Appends the characters of `s` to `v`.
pub fn append_chars(v: &mut Vec<char>, s: &[char])
    ensures
        final(v)@ == old(v)@ + s@,
{
    let ghost start = v@;
    let mut i: usize = 0;
    while i < s.len()
        invariant
            i <= s@.len(),
            v@ == start + s@.subrange(0, i as int),
        decreases s@.len() - i,
    {
        v.push(s[i]);
        assert(start + s@.subrange(0, i + 1) == (start + s@.subrange(0, i as int)).push(s@[i as int]));
        i = i + 1;
    }
    assert(s@.subrange(0, s@.len() as int) == s@);
}

/// ASCII-lowercased characters of a string.
pub fn lower_of(s: &str) -> (r: Vec<char>)
    ensures
        r@ == lower(s@),
{
    let v = chars_of(s);
    lower_chars(v.as_slice())
}

/// ASCII case-insensitive equality (`eq_ignore_ascii_case`).
pub fn eq_ignore_case(a: &[char], lit: &str) -> (r: bool)
    ensures
        r == (lower(a@) == lower(lit@)),
{
    let x = lower_chars(a);
    let y = lower_of(lit);
    let mut same = x.len() == y.len();
    let mut i: usize = 0;
    while same && i < x.len()
        invariant
            i <= x@.len(),
            same ==> x@.len() == y@.len(),
            same ==> forall|j: int| 0 <= j < i ==> x@[j] == y@[j],
            !same ==> x@ != y@,
        decreases x@.len() - i,
    {
        if x[i] != y[i] {
            same = false;
        }
        i = i + 1;
    }
    if same {
        assert(x@ =~= y@);
    }
    same
}

/// Where trimming starts: the leading whitespace is `s[..a]`.
pub proof fn lemma_trim_start_shape(s: Seq<char>) -> (a: int)
    ensures
        0 <= a <= s.len(),
        trim_start(s) == s.subrange(a, s.len() as int),
        forall|j: int| 0 <= j < a ==> is_ws(#[trigger] s[j]),
        a < s.len() ==> !is_ws(s[a]),
    decreases s.len(),
{
    if s.len() > 0 && is_ws(s[0]) {
        let d = s.drop_first();
        let a1 = lemma_trim_start_shape(d);
        assert(d.subrange(a1, d.len() as int) =~= s.subrange(a1 + 1, s.len() as int));
        assert forall|j: int| 0 <= j < a1 + 1 implies is_ws(#[trigger] s[j]) by {
            if j > 0 {
                assert(s[j] == d[j - 1]);
            }
        }
        if a1 + 1 < s.len() {
            assert(s[a1 + 1] == d[a1]);
        }
        a1 + 1
    } else {
        assert(s.subrange(0, s.len() as int) =~= s);
        0
    }
}

/// Where trimming ends: the trailing whitespace is `s[b..]`.
pub proof fn lemma_trim_end_shape(s: Seq<char>) -> (b: int)
    ensures
        0 <= b <= s.len(),
        trim_end(s) == s.subrange(0, b),
        forall|j: int| b <= j < s.len() ==> is_ws(#[trigger] s[j]),
        b > 0 ==> !is_ws(s[b - 1]),
    decreases s.len(),
{
    if s.len() > 0 && is_ws(s.last()) {
        let d = s.drop_last();
        let b1 = lemma_trim_end_shape(d);
        assert(d.subrange(0, b1) =~= s.subrange(0, b1));
        assert forall|j: int| b1 <= j < s.len() implies is_ws(#[trigger] s[j]) by {
            if j < s.len() - 1 {
                assert(s[j] == d[j]);
            }
        }
        if b1 > 0 {
            assert(s[b1 - 1] == d[b1 - 1]);
        }
        b1
    } else {
        assert(s.subrange(0, s.len() as int) =~= s);
        s.len() as int
    }
}

/// Trimming keeps `s[a..b]`: it neither starts nor ends with whitespace, and only whitespace
/// lies around it.
pub proof fn lemma_trim_shape(s: Seq<char>) -> (ab: (int, int))
    ensures
        0 <= ab.0 <= ab.1 <= s.len(),
        trim(s) == s.subrange(ab.0, ab.1),
        forall|j: int| 0 <= j < ab.0 ==> is_ws(#[trigger] s[j]),
        forall|j: int| ab.1 <= j < s.len() ==> is_ws(#[trigger] s[j]),
        ab.0 < ab.1 ==> !is_ws(s[ab.0]) && !is_ws(s[ab.1 - 1]),
{
    let a = lemma_trim_start_shape(s);
    let u = s.subrange(a, s.len() as int);
    let b = lemma_trim_end_shape(u);
    assert(u.subrange(0, b) =~= s.subrange(a, a + b));
    assert forall|j: int| a + b <= j < s.len() implies is_ws(#[trigger] s[j]) by {
        assert(s[j] == u[j - a]);
    }
    if a < s.len() {
        assert(u[0] == s[a]);
        if b == 0 {
            assert(is_ws(u[0]));
        }
    }
    if b > 0 {
        assert(s[a + b - 1] == u[b - 1]);
    }
    (a, a + b)
}

/// Trimming twice is trimming once.
pub proof fn lemma_trim_idempotent(s: Seq<char>)
    ensures
        trim(trim(s)) == trim(s),
{
    let (a, b) = lemma_trim_shape(s);
    let t = trim(s);
    if t.len() > 0 {
        assert(t[0] == s[a]);
        assert(t.last() == s[b - 1]);
    }
    assert(trim_start(t) == t);
    assert(trim_end(t) == t);
}

/// Splitting `s` followed by a piece without `c`: the piece lengthens the last part.
pub proof fn lemma_split_append_piece(s: Seq<char>, t: Seq<char>, c: char)
    requires
        forall|j: int| 0 <= j < t.len() ==> t[j] != c,
    ensures
        split(s + t, c) == split(s, c).update(split(s, c).len() - 1, split(s, c).last() + t),
    decreases t.len(),
{
    lemma_split_nonempty(s, c);
    let p = split(s, c);
    if t.len() == 0 {
        assert(s + t =~= s);
        assert(p.last() + t =~= p.last());
        assert(p.update(p.len() - 1, p.last()) =~= p);
    } else {
        let t1 = t.drop_last();
        lemma_split_append_piece(s, t1, c);
        assert((s + t).drop_last() =~= s + t1);
        assert((s + t).last() == t.last());
        lemma_split_nonempty(s + t1, c);
        assert(p.last() + t =~= (p.last() + t1).push(t.last()));
        assert(split(s + t, c) =~= p.update(p.len() - 1, p.last() + t));
    }
}

/// No part of a split holds the separator.
pub proof fn lemma_split_parts_lack_separator(s: Seq<char>, c: char)
    ensures
        forall|i: int, j: int|
            0 <= i < split(s, c).len() && 0 <= j < split(s, c)[i].len() ==> #[trigger] split(s, c)[i][j] != c,
    decreases s.len(),
{
    if s.len() > 0 {
        let d = s.drop_last();
        let r = split(d, c);
        lemma_split_parts_lack_separator(d, c);
        lemma_split_nonempty(d, c);
        assert forall|i: int, j: int|
            0 <= i < split(s, c).len() && 0 <= j < split(s, c)[i].len() implies #[trigger] split(s, c)[i][j]
                != c by {
            if s.last() == c {
                if i < r.len() {
                    assert(split(s, c)[i] == r[i]);
                } else {
                    assert(split(s, c)[i] == Seq::<char>::empty());
                }
            } else if i < r.len() - 1 {
                assert(split(s, c)[i] == r[i]);
            } else {
                assert(split(s, c)[i] == r.last().push(s.last()));
                if j < r.last().len() {
                    assert(split(s, c)[i][j] == r[r.len() - 1][j]);
                }
            }
        }
    }
}

/// No line of a text holds a `\n`.
pub proof fn lemma_lines_lack_newline(s: Seq<char>)
    ensures
        forall|i: int, j: int|
            0 <= i < lines(s).len() && 0 <= j < lines(s)[i].len() ==> #[trigger] lines(s)[i][j] != '\n',
{
    let p = split(s, '\n');
    lemma_split_nonempty(s, '\n');
    lemma_split_parts_lack_separator(s, '\n');
    assert forall|i: int, j: int|
        0 <= i < lines(s).len() && 0 <= j < lines(s)[i].len() implies #[trigger] lines(s)[i][j] != '\n' by {
        assert(i < p.len());
        assert(lines(s)[i][j] == p[i][j]);
    }
}

/// A text of lowercase ASCII letters, digits, `_` and `-` is its own normal form.
pub proof fn lemma_literal_norm(s: Seq<char>)
    requires
        forall|i: int|
            0 <= i < s.len() ==> ('a' <= #[trigger] s[i] <= 'z' || '0' <= s[i] <= '9' || s[i] == '_' || s[i]
                == '-'),
        s.len() > 0,
    ensures
        norm(s) == s,
{
    assert(trim_start(s) == s);
    assert(trim_end(s) == s);
    assert(lower(s) =~= s);
}

} // verus!
