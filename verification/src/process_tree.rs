//! The decisions of a process-tree kill: which child ids `pgrep -P` printed, which processes
//! a walk down the tree still has to ask about, and the order in which they are signalled.
//! Running `pgrep` and `kill` is left to the caller.
use vstd::prelude::*;
use crate::server_info::{parse_u32, parse_u32_spec};
use crate::text::{lines, lines_of, trim, trim_chars, views};

verus! {

/// The numbers of some lines: each line trimmed and read as a `u32`; other lines are skipped.
pub open spec fn pids_of_lines(ls: Seq<Seq<char>>) -> Seq<u32>
    decreases ls.len(),
{
    if ls.len() == 0 {
        seq![]
    } else {
        let r = pids_of_lines(ls.drop_last());
        match parse_u32_spec(trim(ls.last())) {
            Some(n) => r.push(n),
            None => r,
        }
    }
}

/// The child ids that `pgrep -P` printed, in the order printed.
pub fn child_pids(stdout: &str) -> (r: Vec<u32>)
    ensures
        r@ == pids_of_lines(lines(stdout@)),
{
    let c = crate::text::chars_of(stdout);
    let ls = lines_of(c.as_slice());
    let mut out: Vec<u32> = Vec::new();
    let mut i: usize = 0;
    while i < ls.len()
        invariant
            i <= ls@.len(),
            views(ls@) == lines(stdout@),
            out@ == pids_of_lines(views(ls@).subrange(0, i as int)),
        decreases ls@.len() - i,
    {
        let ghost pre = views(ls@).subrange(0, i + 1);
        assert(pre.drop_last() == views(ls@).subrange(0, i as int));
        assert(pre.last() == ls@[i as int]@);
        let t = trim_chars(ls[i].as_slice());
        if let Some(n) = parse_u32(t.as_slice()) {
            out.push(n);
        }
        i = i + 1;
    }
    assert(views(ls@).subrange(0, ls@.len() as int) == views(ls@));
    out
}

/// The children that a walk has not met before, in the order given (a child given twice is
/// met the first time).
pub open spec fn fresh_children(found: Seq<u32>, children: Seq<u32>) -> Seq<u32>
    decreases children.len(),
{
    if children.len() == 0 {
        seq![]
    } else {
        let r = fresh_children(found, children.drop_last());
        if (found + r).contains(children.last()) {
            r
        } else {
            r.push(children.last())
        }
    }
}

/// No id occurs twice.
pub open spec fn distinct_ids(s: Seq<u32>) -> bool {
    forall|i: int, j: int| 0 <= i < s.len() && 0 <= j < s.len() && i != j ==> s[i] != s[j]
}

/// A walk down a process tree: the processes whose children are still to be asked for (the
/// last one first), and the descendants found so far, in the order found.
#[derive(Debug, Clone, PartialEq, Eq)]
pub struct DescendantWalk {
    pub pending: Vec<u32>,
    pub found: Vec<u32>,
}

impl DescendantWalk {
    /// A walk from the root process.
    pub fn new(root: u32) -> (r: Self)
        ensures
            r.pending@ == seq![root],
            r.found@.len() == 0,
    {
        let mut pending: Vec<u32> = Vec::new();
        pending.push(root);
        DescendantWalk { pending, found: Vec::new() }
    }

    /// The process whose children are asked for next: the one last put on the pending list.
    pub fn next_parent(&mut self) -> (r: Option<u32>)
        ensures
            final(self).found == old(self).found,
            old(self).pending@.len() == 0 ==> r is None && final(self).pending@ == old(self).pending@,
            old(self).pending@.len() > 0 ==> r == Some(old(self).pending@.last()) && final(self).pending@
                == old(self).pending@.drop_last(),
    {
        self.pending.pop()
    }

    /// Takes the children of the process just asked about: each one not met before becomes a
    /// descendant and is asked about later.
    pub fn add_children(&mut self, children: &Vec<u32>)
        ensures
            final(self).found@ == old(self).found@ + fresh_children(old(self).found@, children@),
            final(self).pending@ == old(self).pending@ + fresh_children(old(self).found@, children@),
            distinct_ids(old(self).found@) ==> distinct_ids(final(self).found@),
    {
        let ghost found0 = self.found@;
        let ghost pending0 = self.pending@;
        let mut i: usize = 0;
        while i < children.len()
            invariant
                i <= children@.len(),
                self.found@ == found0 + fresh_children(found0, children@.subrange(0, i as int)),
                self.pending@ == pending0 + fresh_children(found0, children@.subrange(0, i as int)),
                distinct_ids(found0) ==> distinct_ids(self.found@),
            decreases children@.len() - i,
        {
            let ghost pre = children@.subrange(0, i + 1);
            assert(pre.drop_last() == children@.subrange(0, i as int));
            assert(pre.last() == children@[i as int]);
            let child = children[i];
            let mut seen = false;
            let mut k: usize = 0;
            while k < self.found.len()
                invariant
                    k <= self.found@.len(),
                    seen ==> self.found@.contains(child),
                    !seen ==> forall|j: int| 0 <= j < k ==> self.found@[j] != child,
                decreases self.found@.len() - k,
            {
                if self.found[k] == child {
                    seen = true;
                }
                k = k + 1;
            }
            if !seen {
                let ghost before = self.found@;
                self.found.push(child);
                self.pending.push(child);
                assert(!before.contains(child));
                assert(distinct_ids(before) ==> distinct_ids(self.found@)) by {
                    if distinct_ids(before) {
                        assert forall|a: int, b: int|
                            0 <= a < self.found@.len() && 0 <= b < self.found@.len() && a != b implies self.found@[a]
                            != self.found@[b] by {
                            if a == before.len() {
                                assert(self.found@[b] == before[b]);
                            } else if b == before.len() {
                                assert(self.found@[a] == before[a]);
                            }
                        }
                    }
                }
            }
            proof {
                let r = fresh_children(found0, children@.subrange(0, i as int));
                assert(found0 + r == if seen { self.found@ } else { self.found@.drop_last() });
                if !seen {
                    assert(found0 + r.push(child) =~= (found0 + r).push(child));
                    assert(pending0 + r.push(child) =~= (pending0 + r).push(child));
                }
            }
            i = i + 1;
        }
        assert(children@.subrange(0, children@.len() as int) == children@);
    }
}

/// Ids in strictly falling order.
pub open spec fn strictly_falling(s: Seq<u32>) -> bool {
    forall|i: int, j: int| 0 <= i < j < s.len() ==> s[i] > s[j]
}

/// A strictly falling list with `p` put in, unless it is there already.
fn insert_falling(out: Vec<u32>, p: u32) -> (r: Vec<u32>)
    requires
        strictly_falling(out@),
    ensures
        strictly_falling(r@),
        forall|q: u32| r@.contains(q) <==> (q == p || out@.contains(q)),
{
    let mut k: usize = 0;
    while k < out.len() && out[k] > p
        invariant
            k <= out@.len(),
            forall|j: int| 0 <= j < k ==> out@[j] > p,
        decreases out@.len() - k,
    {
        k = k + 1;
    }
    if k < out.len() && out[k] == p {
        assert(out@[k as int] == p);
        return out;
    }
    let ghost before = out@;
    // every id from `k` on is below `p`
    assert forall|w: int| k <= w < before.len() implies before[w] < p by {
        assert(before[k as int] < p);
        if w > k {
            assert(before[k as int] > before[w]);
        }
    }
    let mut r = out;
    r.insert(k, p);
    assert(r@ == before.insert(k as int, p));
    assert forall|a: int, b: int| 0 <= a < b < r@.len() implies r@[a] > r@[b] by {
        if b < k {
        } else if a < k && b == k {
        } else if a < k {
            assert(r@[b] == before[b - 1]);
        } else if a == k {
            assert(r@[b] == before[b - 1]);
        } else {
            assert(r@[a] == before[a - 1]);
            assert(r@[b] == before[b - 1]);
        }
    }
    assert forall|q: u32| #[trigger] r@.contains(q) implies q == p || before.contains(q) by {
        let w = choose|w: int| 0 <= w < r@.len() && r@[w] == q;
        if w < k {
            assert(before[w] == q);
        } else if w > k {
            assert(before[w - 1] == q);
        }
    }
    assert forall|q: u32| #[trigger] before.contains(q) implies r@.contains(q) by {
        let w = choose|w: int| 0 <= w < before.len() && before[w] == q;
        if w < k {
            assert(r@[w] == q);
        } else {
            assert(r@[w + 1] == q);
        }
    }
    assert(r@[k as int] == p);
    assert(r@.contains(p));
    r
}

/// The processes of a tree to signal: the descendants and the root, each once, highest id
/// first.
pub fn kill_order(root: u32, descendants: &Vec<u32>) -> (r: Vec<u32>)
    ensures
        strictly_falling(r@),
        forall|p: u32| r@.contains(p) <==> (p == root || descendants@.contains(p)),
{
    let mut out: Vec<u32> = Vec::new();
    let mut i: usize = 0;
    while i < descendants.len()
        invariant
            i <= descendants@.len(),
            strictly_falling(out@),
            forall|p: u32| out@.contains(p) <==> descendants@.subrange(0, i as int).contains(p),
        decreases descendants@.len() - i,
    {
        let p = descendants[i];
        out = insert_falling(out, p);
        assert forall|q: u32| out@.contains(q) <==> descendants@.subrange(0, i + 1).contains(q) by {
            let pre = descendants@.subrange(0, i + 1);
            assert(pre == descendants@.subrange(0, i as int).push(p));
            if descendants@.subrange(0, i as int).contains(q) {
                let w = choose|w: int| 0 <= w < i && descendants@.subrange(0, i as int)[w] == q;
                assert(pre[w] == q);
            }
            if pre.contains(q) {
                let w = choose|w: int| 0 <= w < i + 1 && pre[w] == q;
                if w < i {
                    assert(descendants@.subrange(0, i as int)[w] == q);
                }
            }
            if q == p {
                assert(pre[i as int] == q);
            }
        }
        i = i + 1;
    }
    assert(descendants@.subrange(0, i as int) == descendants@);
    out = insert_falling(out, root);
    out
}

} // verus!
