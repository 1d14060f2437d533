//! Highlight sets: the matched character positions of one item, ascending and
//! without repeats, as drawn by a renderer.

use vstd::prelude::*;

verus! {

pub open spec fn strictly_ascending(s: Seq<u32>) -> bool {
    forall|i: int, j: int| 0 <= i < j < s.len() ==> s[i] < s[j]
}

/// `set` is the highlight set of the raw positions `raw`: ascending, without
/// repeats, and holding exactly the positions that occur in `raw`.
pub open spec fn is_highlight_set(set: Seq<u32>, raw: Seq<u32>) -> bool {
    &&& strictly_ascending(set)
    &&& forall|p: u32| set.contains(p) <==> raw.contains(p)
}

/// Where `p` goes in the ascending `set`: the number of its elements below `p`.
fn insertion_point(set: &Vec<u32>, p: u32) -> (r: usize)
    requires
        strictly_ascending(set@),
    ensures
        r <= set@.len(),
        forall|i: int| 0 <= i < r ==> set@[i] < p,
        forall|i: int| r <= i < set@.len() ==> p <= set@[i],
{
    let mut lo: usize = 0;
    let mut hi: usize = set.len();
    while lo < hi
        invariant
            strictly_ascending(set@),
            lo <= hi <= set@.len(),
            forall|i: int| 0 <= i < lo ==> set@[i] < p,
            forall|i: int| hi <= i < set@.len() ==> p <= set@[i],
        decreases hi - lo,
    {
        let mid = lo + (hi - lo) / 2;
        if set[mid] < p {
            lo = mid + 1;
        } else {
            hi = mid;
        }
    }
    lo
}

/// The highlight set of the positions a matcher reported: sorted ascending,
/// each position once.
pub fn highlight_positions(raw: &Vec<u32>) -> (r: Vec<u32>)
    ensures
        is_highlight_set(r@, raw@),
{
    let mut set: Vec<u32> = Vec::new();
    for k in 0..raw.len()
        invariant
            strictly_ascending(set@),
            forall|p: u32| set@.contains(p) <==> raw@.take(k as int).contains(p),
    {
        let p = raw[k];
        let at = insertion_point(&set, p);
        let ghost before = set@;
        if at == set.len() || set[at] != p {
            set.insert(at, p);
            assert forall|i: int, j: int| 0 <= i < j < set@.len() implies set@[i] < set@[j] by {
                if j < at {
                } else if i < at && j == at {
                } else if i < at {
                    assert(set@[j] == before[j - 1]);
                } else if i == at {
                    assert(set@[j] == before[j - 1]);
                } else {
                    assert(set@[i] == before[i - 1] && set@[j] == before[j - 1]);
                }
            }
            assert forall|q: u32| set@.contains(q) <==> (before.contains(q) || q == p) by {
                if set@.contains(q) {
                    let i = choose|i: int| 0 <= i < set@.len() && set@[i] == q;
                    if i < at {
                        assert(before[i] == q);
                    } else if i > at {
                        assert(before[i - 1] == q);
                    }
                }
                if before.contains(q) {
                    let i = choose|i: int| 0 <= i < before.len() && before[i] == q;
                    if i < at {
                        assert(set@[i] == q);
                    } else {
                        assert(set@[i + 1] == q);
                    }
                }
                if q == p {
                    assert(set@[at as int] == p);
                }
            }
        } else {
            assert(set@[at as int] == p);
        }
        let ghost seen = raw@.take(k as int);
        let ghost next = raw@.take(k + 1);
        assert forall|q: u32| next.contains(q) <==> (seen.contains(q) || q == p) by {
            if next.contains(q) {
                let i = choose|i: int| 0 <= i < next.len() && next[i] == q;
                if i < k {
                    assert(seen[i] == q);
                }
            }
            if seen.contains(q) {
                let i = choose|i: int| 0 <= i < seen.len() && seen[i] == q;
                assert(next[i] == q);
            }
            if q == p {
                assert(next[k as int] == q);
            }
        }
        assert forall|q: u32| set@.contains(q) <==> next.contains(q) by {
            assert(before.contains(q) <==> seen.contains(q));
        }
    }
    assert(raw@.take(raw@.len() as int) =~= raw@);
    set
}

} // verus!
