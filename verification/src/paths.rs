//! '/'-separated paths, read the way `std::path::Path` reads them on Unix.
use vstd::prelude::*;
use crate::text::{append_chars, chars_of, split, split_chars, string_from, sub_vec, views};

verus! {

/// Whether a path segment is kept as a component (empty segments and non-leading `.` are not).
pub open spec fn keep_segment(seg: Seq<char>, first: bool) -> bool {
    seg.len() > 0 && (first || seg != seq!['.'])
}

/// Components of a list of segments.
pub open spec fn comps_of(segs: Seq<Seq<char>>) -> Seq<Seq<char>>
    decreases segs.len(),
{
    if segs.len() == 0 {
        seq![]
    } else {
        let r = comps_of(segs.drop_last());
        if keep_segment(segs.last(), segs.len() == 1) {
            r.push(segs.last())
        } else {
            r
        }
    }
}

/// The non-root components of a path.
pub open spec fn components(p: Seq<char>) -> Seq<Seq<char>> {
    comps_of(split(p, '/'))
}

/// Whether a path is absolute (starts at the root).
pub open spec fn is_absolute(p: Seq<char>) -> bool {
    p.len() > 0 && p[0] == '/'
}

/// The final component of a path, unless it is `.` or `..` or there is none.
pub open spec fn file_name(p: Seq<char>) -> Option<Seq<char>> {
    let c = components(p);
    if c.len() == 0 || c.last() == seq!['.'] || c.last() == seq!['.', '.'] {
        None
    } else {
        Some(c.last())
    }
}

/// Index of the last `.` of a sequence.
pub open spec fn last_dot(s: Seq<char>) -> Option<int>
    decreases s.len(),
{
    if s.len() == 0 {
        None
    } else if s.last() == '.' {
        Some(s.len() - 1)
    } else {
        last_dot(s.drop_last())
    }
}

/// Extension of a file name: after its last `.`, unless that `.` starts the name.
pub open spec fn name_extension(name: Seq<char>) -> Option<Seq<char>> {
    match last_dot(name) {
        Some(i) => if i == 0 || name == seq!['.', '.'] {
            None
        } else {
            Some(name.subrange(i + 1, name.len() as int))
        },
        None => None,
    }
}

/// Extension of a path.
pub open spec fn extension(p: Seq<char>) -> Option<Seq<char>> {
    match file_name(p) {
        Some(n) => name_extension(n),
        None => None,
    }
}

/// Whether `parent` is the parent path of `p`.
pub open spec fn parent_is(p: Seq<char>, parent: Seq<char>) -> bool {
    let c = components(p);
    &&& c.len() > 0
    &&& is_absolute(p) == is_absolute(parent)
    &&& c.drop_last() == components(parent)
}

pub fn components_exec(p: &[char]) -> (r: Vec<Vec<char>>)
    ensures
        views(r@) == components(p@),
{
    let segs = split_chars(p, '/');
    let mut r: Vec<Vec<char>> = Vec::new();
    let mut i: usize = 0;
    while i < segs.len()
        invariant
            i <= segs@.len(),
            views(segs@) == split(p@, '/'),
            views(r@) == comps_of(views(segs@).subrange(0, i as int)),
        decreases segs@.len() - i,
    {
        let seg = &segs[i];
        let ghost sv = views(segs@).subrange(0, i + 1);
        assert(sv.drop_last() == views(segs@).subrange(0, i as int));
        assert(sv.last() == seg@);
        let is_dot = seg.len() == 1 && seg[0] == '.';
        assert(is_dot == (seg@ == seq!['.'])) by {
            if seg@.len() == 1 && seg@[0] == '.' {
                assert(seg@ =~= seq!['.']);
            }
        }
        if seg.len() > 0 && (i == 0 || !is_dot) {
            let ghost old_r = r@;
            r.push(sub_vec(seg.as_slice(), 0, seg.len()));
            assert(seg@.subrange(0, seg@.len() as int) == seg@);
            assert(views(r@) =~= views(old_r).push(seg@));
        }
        i = i + 1;
    }
    assert(views(segs@).subrange(0, segs@.len() as int) == views(segs@));
    r
}

/// The file name of a path (`Path::file_name`).
pub fn file_name_exec(p: &[char]) -> (r: Option<Vec<char>>)
    ensures
        r matches Some(v) ==> file_name(p@) == Some(v@),
        r is None ==> file_name(p@) is None,
{
    let c = components_exec(p);
    let n = c.len();
    if n == 0 {
        return None;
    }
    let last = &c[n - 1];
    assert(views(c@).last() == last@);
    let is_dot = last.len() == 1 && last[0] == '.';
    let is_dotdot = last.len() == 2 && last[0] == '.' && last[1] == '.';
    assert(is_dot == (last@ == seq!['.'])) by {
        if last@.len() == 1 && last@[0] == '.' {
            assert(last@ =~= seq!['.']);
        }
    }
    assert(is_dotdot == (last@ == seq!['.', '.'])) by {
        if last@.len() == 2 && last@[0] == '.' && last@[1] == '.' {
            assert(last@ =~= seq!['.', '.']);
        }
    }
    if is_dot || is_dotdot {
        None
    } else {
        let v = sub_vec(last.as_slice(), 0, last.len());
        assert(last@.subrange(0, last@.len() as int) == last@);
        Some(v)
    }
}

/// The extension of a file name.
pub fn name_extension_exec(name: &[char]) -> (r: Option<Vec<char>>)
    ensures
        r matches Some(v) ==> name_extension(name@) == Some(v@),
        r is None ==> name_extension(name@) is None,
{
    let n = name.len();
    let mut i: usize = n;
    assert(name@.subrange(0, n as int) == name@);
    while i > 0 && name[i - 1] != '.'
        invariant
            i <= n,
            n == name@.len(),
            last_dot(name@) == last_dot(name@.subrange(0, i as int)),
        decreases i,
    {
        assert(name@.subrange(0, i as int).drop_last() == name@.subrange(0, i - 1));
        i = i - 1;
    }
    assert(name@.subrange(0, n as int) == name@);
    if i == 0 {
        assert(last_dot(name@.subrange(0, 0)) is None);
        return None;
    }
    assert(name@.subrange(0, i as int).last() == '.');
    assert(last_dot(name@) == Some(i - 1));
    if i - 1 == 0 {
        return None;
    }
    if n == 2 && name[0] == '.' && name[1] == '.' {
        assert(name@ =~= seq!['.', '.']);
        return None;
    }
    assert(name@ != seq!['.', '.']) by {
        if name@ == seq!['.', '.'] {
            assert(name@.len() == 2);
        }
    }
    Some(sub_vec(name, i, n))
}

/// The extension of a path (`Path::extension`).
pub fn extension_exec(p: &[char]) -> (r: Option<Vec<char>>)
    ensures
        r matches Some(v) ==> extension(p@) == Some(v@),
        r is None ==> extension(p@) is None,
{
    match file_name_exec(p) {
        Some(n) => name_extension_exec(n.as_slice()),
        None => None,
    }
}

fn seqs_eq(a: &Vec<Vec<char>>, b: &Vec<Vec<char>>, n: usize) -> (r: bool)
    requires
        n <= a@.len(),
    ensures
        r == (views(a@).subrange(0, n as int) == views(b@)),
{
    if n != b.len() {
        assert(views(a@).subrange(0, n as int).len() != views(b@).len());
        return false;
    }
    let mut i: usize = 0;
    while i < n
        invariant
            i <= n,
            n <= a@.len(),
            n == b@.len(),
            forall|j: int| 0 <= j < i ==> a@[j]@ == b@[j]@,
        decreases n - i,
    {
        let x = &a[i];
        let y = &b[i];
        let mut same = x.len() == y.len();
        let mut k: usize = 0;
        while same && k < x.len()
            invariant
                k <= x@.len(),
                same ==> x@.len() == y@.len(),
                same ==> forall|j: int| 0 <= j < k ==> x@[j] == y@[j],
                !same ==> x@ != y@,
            decreases x@.len() - k,
        {
            if x[k] != y[k] {
                same = false;
            }
            k = k + 1;
        }
        if !same {
            assert(views(a@).subrange(0, n as int)[i as int] != views(b@)[i as int]);
            return false;
        }
        assert(x@ == y@);
        i = i + 1;
    }
    assert(views(a@).subrange(0, n as int) =~= views(b@));
    true
}

/// Whether `parent` is the parent of `p` (`p.parent() == Some(parent)`).
pub fn parent_is_exec(p: &[char], parent: &[char]) -> (r: bool)
    ensures
        r == parent_is(p@, parent@),
{
    let c = components_exec(p);
    let pc = components_exec(parent);
    if c.len() == 0 {
        return false;
    }
    let abs_p = p.len() > 0 && p[0] == '/';
    let abs_q = parent.len() > 0 && parent[0] == '/';
    if abs_p != abs_q {
        return false;
    }
    let r = seqs_eq(&c, &pc, c.len() - 1);
    assert(views(c@).subrange(0, c@.len() - 1) == views(c@).drop_last());
    r
}

/// File name of a path given as text.
pub fn file_name_of(p: &str) -> (r: Option<Vec<char>>)
    ensures
        r matches Some(v) ==> file_name(p@) == Some(v@),
        r is None ==> file_name(p@) is None,
{
    let v = chars_of(p);
    file_name_exec(v.as_slice())
}

/// `Path::join` on Unix: an absolute `p` replaces `base`, else `p` follows `base` after one `/`
/// (none is added when `base` is empty or already ends with `/`).
pub open spec fn join(base: Seq<char>, p: Seq<char>) -> Seq<char> {
    if is_absolute(p) {
        p
    } else if base.len() > 0 && base.last() != '/' {
        base + seq!['/'] + p
    } else {
        base + p
    }
}

/// The text of `base.join(p)`.
pub fn join_exec(base: &str, p: &[char]) -> (r: String)
    ensures
        r@ == join(base@, p@),
{
    if p.len() > 0 && p[0] == '/' {
        return string_from(p);
    }
    let mut v = chars_of(base);
    if v.len() > 0 && v[v.len() - 1] != '/' {
        v.push('/');
    }
    append_chars(&mut v, p);
    string_from(v.as_slice())
}

/// The components of a path as `Path::components` yields them, the root written as `/`.
pub open spec fn rooted_components(p: Seq<char>) -> Seq<Seq<char>> {
    if is_absolute(p) {
        seq![seq!['/']] + components(p)
    } else {
        components(p)
    }
}

/// The components of `p` after those of `base`, when `base` is a prefix of `p`
/// (`Path::strip_prefix`).
pub open spec fn strip_prefix(p: Seq<char>, base: Seq<char>) -> Option<Seq<Seq<char>>> {
    let a = rooted_components(p);
    let b = rooted_components(base);
    if b.len() <= a.len() && a.subrange(0, b.len() as int) == b {
        Some(a.subrange(b.len() as int, a.len() as int))
    } else {
        None
    }
}

/// The text of a list of components, joined by `/` (none after the root).
pub open spec fn join_components(cs: Seq<Seq<char>>) -> Seq<char>
    decreases cs.len(),
{
    if cs.len() == 0 {
        seq![]
    } else if cs.len() == 1 {
        cs[0]
    } else {
        let init = cs.drop_last();
        join_components(init) + (if init.last() == seq!['/'] {
            seq![]
        } else {
            seq!['/']
        }) + cs.last()
    }
}

fn rooted_components_exec(p: &[char]) -> (r: Vec<Vec<char>>)
    ensures
        views(r@) == rooted_components(p@),
{
    let c = components_exec(p);
    if p.len() > 0 && p[0] == '/' {
        let mut r: Vec<Vec<char>> = Vec::new();
        let mut root: Vec<char> = Vec::new();
        root.push('/');
        r.push(root);
        let mut i: usize = 0;
        while i < c.len()
            invariant
                i <= c@.len(),
                r@.len() == i + 1,
                views(r@) == seq![seq!['/']] + views(c@).subrange(0, i as int),
            decreases c@.len() - i,
        {
            let ghost old_r = r@;
            let e = sub_vec(c[i].as_slice(), 0, c[i].len());
            assert(c@[i as int]@.subrange(0, c@[i as int]@.len() as int) == c@[i as int]@);
            assert(e@ == views(c@)[i as int]);
            r.push(e);
            assert(views(r@) =~= views(old_r).push(e@));
            assert(views(r@) =~= seq![seq!['/']] + views(c@).subrange(0, i + 1));
            i = i + 1;
        }
        assert(views(c@).subrange(0, c@.len() as int) == views(c@));
        r
    } else {
        c
    }
}

/// The components of `p` after those of `base` (`Path::strip_prefix`).
pub fn strip_prefix_exec(p: &[char], base: &[char]) -> (r: Option<Vec<Vec<char>>>)
    ensures
        r matches Some(v) ==> strip_prefix(p@, base@) == Some(views(v@)),
        r is None ==> strip_prefix(p@, base@) is None,
{
    let a = rooted_components_exec(p);
    let b = rooted_components_exec(base);
    if b.len() > a.len() {
        return None;
    }
    if !seqs_eq(&a, &b, b.len()) {
        return None;
    }
    let mut r: Vec<Vec<char>> = Vec::new();
    let mut i: usize = b.len();
    while i < a.len()
        invariant
            b@.len() <= i <= a@.len(),
            views(r@) == views(a@).subrange(b@.len() as int, i as int),
        decreases a@.len() - i,
    {
        let ghost old_r = r@;
        let e = sub_vec(a[i].as_slice(), 0, a[i].len());
        assert(a@[i as int]@.subrange(0, a@[i as int]@.len() as int) == a@[i as int]@);
        assert(e@ == views(a@)[i as int]);
        r.push(e);
        assert(views(r@) =~= views(old_r).push(e@));
        assert(views(r@) =~= views(a@).subrange(b@.len() as int, i + 1));
        i = i + 1;
    }
    Some(r)
}

/// The text of a list of components, joined by `/`.
pub fn join_components_exec(cs: &Vec<Vec<char>>) -> (r: Vec<char>)
    ensures
        r@ == join_components(views(cs@)),
{
    let mut r: Vec<char> = Vec::new();
    let mut i: usize = 0;
    while i < cs.len()
        invariant
            i <= cs@.len(),
            r@ == join_components(views(cs@).subrange(0, i as int)),
        decreases cs@.len() - i,
    {
        let ghost pre = views(cs@).subrange(0, i + 1);
        assert(pre.drop_last() == views(cs@).subrange(0, i as int));
        assert(pre.last() == cs@[i as int]@);
        if i > 0 {
            let prev = &cs[i - 1];
            let root = prev.len() == 1 && prev[0] == '/';
            assert(pre.drop_last().last() == prev@);
            assert(root == (prev@ == seq!['/'])) by {
                if prev@.len() == 1 && prev@[0] == '/' {
                    assert(prev@ =~= seq!['/']);
                }
            }
            if !root {
                r.push('/');
            }
            append_chars(&mut r, cs[i].as_slice());
            assert(r@ =~= join_components(pre));
        } else {
            append_chars(&mut r, cs[i].as_slice());
            assert(r@ =~= join_components(pre));
        }
        i = i + 1;
    }
    assert(views(cs@).subrange(0, cs@.len() as int) == views(cs@));
    r
}

/// Backslashes written as slashes.
pub open spec fn slashes(s: Seq<char>) -> Seq<char> {
    s.map_values(|c: char| if c == '\\' { '/' } else { c })
}

pub fn slashes_exec(s: &[char]) -> (r: Vec<char>)
    ensures
        r@ == slashes(s@),
{
    let mut r: Vec<char> = Vec::new();
    let mut i: usize = 0;
    while i < s.len()
        invariant
            i <= s@.len(),
            r@ == slashes(s@.subrange(0, i as int)),
        decreases s@.len() - i,
    {
        let c = if s[i] == '\\' {
            '/'
        } else {
            s[i]
        };
        r.push(c);
        assert(slashes(s@.subrange(0, i + 1)) =~= slashes(s@.subrange(0, i as int)).push(c));
        i = i + 1;
    }
    assert(s@.subrange(0, s@.len() as int) == s@);
    r
}

} // verus!
