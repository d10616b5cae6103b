//! Permutations of the eight corner indices: inversion, application, and
//! the lazy decomposition of a permutation into the transpositions of its
//! disjoint cycles.

use vstd::prelude::*;
use vstd::seq_lib::*;
use vstd::set_lib::*;

verus! {

/// The identity permutation.
pub open spec fn id_perm() -> Seq<u8> {
    seq![0u8, 1u8, 2u8, 3u8, 4u8, 5u8, 6u8, 7u8]
}

/// A permutation of the eight corner indices: eight entries below eight,
/// no two equal.
pub open spec fn is_perm8(p: Seq<u8>) -> bool {
    &&& p.len() == 8
    &&& forall|i: int| 0 <= i < 8 ==> p[i] < 8
    &&& forall|i: int, j: int| 0 <= i < 8 && 0 <= j < 8 && i != j ==> p[i] != p[j]
}

/// Every value below eight appears in a permutation.
pub proof fn lemma_perm8_surjective(p: Seq<u8>, v: int)
    requires
        is_perm8(p),
        0 <= v < 8,
    ensures
        exists|j: int| 0 <= j < 8 && p[j] == v,
{
    let pi = p.map_values(|x: u8| x as int);
    assert(pi.no_duplicates());
    pi.unique_seq_to_set();
    let rng = set_int_range(0, 8);
    lemma_int_range(0, 8);
    assert forall|x: int| pi.to_set().contains(x) implies rng.contains(x) by {
        let i = choose|i: int| 0 <= i < pi.len() && pi[i] == x;
        assert(p[i] < 8);
    }
    lemma_subset_equality(pi.to_set(), rng);
    assert(rng.contains(v));
    let j = choose|j: int| 0 <= j < pi.len() && pi[j] == v;
    assert(p[j] == v);
}

/// The inverse of a permutation, as a mathematical value: entry v names
/// the index where v stands.
pub open spec fn inv_perm(p: Seq<u8>) -> Seq<u8> {
    Seq::new(8, |v: int| preimage(p, v) as u8)
}

/// The inverse of a permutation: entry v names the index where v stands.
pub fn inverse(p: [u8; 8]) -> (q: [u8; 8])
    requires
        is_perm8(p@),
    ensures
        q@ == inv_perm(p@),
        is_perm8(q@),
        forall|v: int| 0 <= v < 8 ==> p@[q@[v] as int] as int == v,
        forall|i: int| 0 <= i < 8 ==> q@[p@[i] as int] as int == i,
{
    let mut q = [0u8; 8];
    let mut i: usize = 0;
    while i < 8
        invariant
            i <= 8,
            is_perm8(p@),
            forall|v: int| 0 <= v < i ==> q@[v] < 8 && p@[q@[v] as int] as int == v,
        decreases 8 - i,
    {
        proof {
            lemma_perm8_surjective(p@, i as int);
        }
        let mut j: usize = 0;
        while j < 8 && p[j] != i as u8
            invariant
                j <= 8,
                is_perm8(p@),
                i < 8,
                forall|t: int| 0 <= t < j ==> p@[t] as int != i as int,
                exists|t: int| 0 <= t < 8 && p@[t] as int == i as int,
            decreases 8 - j,
        {
            j += 1;
        }
        proof {
            if j == 8 {
                let t = choose|t: int| 0 <= t < 8 && p@[t] as int == i as int;
                assert(false);
            }
        }
        q[i] = j as u8;
        i += 1;
    }
    proof {
        assert forall|i2: int| 0 <= i2 < 8 implies q@[p@[i2] as int] as int == i2 by {
            let v = p@[i2] as int;
            assert(p@[q@[v] as int] as int == v);
        }
        assert forall|a: int, b: int|
            0 <= a < 8 && 0 <= b < 8 && a != b implies q@[a] != q@[b] by {
            assert(p@[q@[a] as int] as int == a);
            assert(p@[q@[b] as int] as int == b);
        }
        assert forall|v: int| 0 <= v < 8 implies q@[v] == inv_perm(p@)[v] by {
            lemma_preimage(p@, v);
            assert(p@[q@[v] as int] as int == v);
        }
        assert(q@ =~= inv_perm(p@));
    }
    q
}

/// Swaps the two values i and j wherever they appear in g: the composition
/// of the transposition (i j) after g.
pub open spec fn tswap(i: int, j: int, g: Seq<u8>) -> Seq<u8> {
    Seq::new(
        g.len(),
        |k: int|
            if g[k] as int == i {
                j as u8
            } else if g[k] as int == j {
                i as u8
            } else {
                g[k]
            },
    )
}

/// How many indices the cycle walk has not visited yet.
pub open spec fn count_unused(used: Seq<bool>, n: int) -> int
    decreases n,
{
    if n <= 0 {
        0
    } else {
        count_unused(used, n - 1) + if used[n - 1] {
            0int
        } else {
            1int
        }
    }
}

pub proof fn lemma_count_unused_le(used: Seq<bool>, n: int)
    requires
        0 <= n,
    ensures
        0 <= count_unused(used, n) <= n,
    decreases n,
{
    if n > 0 {
        lemma_count_unused_le(used, n - 1);
    }
}

proof fn lemma_count_unused_update(used: Seq<bool>, k: int, n: int)
    requires
        0 <= k < n,
        used.len() >= n,
        !used[k],
    ensures
        count_unused(used.update(k, true), n) == count_unused(used, n) - 1,
    decreases n,
{
    if k == n - 1 {
        lemma_count_unused_same(used, used.update(k, true), n - 1);
    } else {
        lemma_count_unused_update(used, k, n - 1);
    }
}

proof fn lemma_count_unused_same(a: Seq<bool>, b: Seq<bool>, n: int)
    requires
        0 <= n,
        forall|i: int| 0 <= i < n ==> a[i] == b[i],
    ensures
        count_unused(a, n) == count_unused(b, n),
    decreases n,
{
    if n > 0 {
        lemma_count_unused_same(a, b, n - 1);
    }
}

/// The lowest unvisited index at or above i, if any.
pub open spec fn lowest_unused(used: Seq<bool>, i: int) -> Option<int>
    decreases 8 - i,
{
    if i >= 8 {
        None
    } else if !used[i] {
        Some(i)
    } else {
        lowest_unused(used, i + 1)
    }
}

/// A search that has visited everything below k finds the lowest
/// unvisited index at k, or nothing when k has reached the end.
proof fn lemma_lowest_unused(used: Seq<bool>, i: int, k: int)
    requires
        0 <= i <= k <= 8,
        forall|t: int| i <= t < k ==> used[t],
    ensures
        lowest_unused(used, i) == lowest_unused(used, k),
    decreases k - i,
{
    if i < k {
        lemma_lowest_unused(used, i + 1, k);
    }
}

/// A walk position as a mathematical option.
pub open spec fn opt_index(o: Option<usize>) -> Option<int> {
    match o {
        Some(n) => Some(n as int),
        None => None,
    }
}

/// The walk state is sound: the position, if any, names an unvisited
/// index.
pub open spec fn walk_wf(q: Seq<u8>, used: Seq<bool>, opt: Option<int>) -> bool {
    &&& q.len() == 8
    &&& used.len() == 8
    &&& match opt {
        Some(n) => 0 <= n < 8 && !used[n],
        None => true,
    }
}

/// The transpositions the cycle walk emits from a given state: the walk
/// visits the index under the cursor, follows the permutation until the
/// cycle closes, hops to the lowest unvisited index, and pairs each
/// visited index after a cycle's first with that first index.
#[verifier::opaque]
pub open spec fn walk(q: Seq<u8>, used: Seq<bool>, opt: Option<int>, first: bool, a: int) -> Seq<
    (int, int),
>
    decreases count_unused(used, 8)
        when walk_wf(q, used, opt)
        via walk_decreases
{
    match opt {
        None => Seq::empty(),
        Some(idx) => {
            let used2 = used.update(idx, true);
            let nxt = q[idx] as int;
            let closed = nxt == idx || used[nxt];
            let opt2 = if closed {
                lowest_unused(used2, 0)
            } else {
                Some(nxt)
            };
            if first {
                walk(q, used2, opt2, closed, idx)
            } else {
                seq![(a, idx)] + walk(q, used2, opt2, closed, a)
            }
        },
    }
}

#[via_fn]
proof fn walk_decreases(q: Seq<u8>, used: Seq<bool>, opt: Option<int>, first: bool, a: int) {
    match opt {
        None => {},
        Some(idx) => {
            lemma_count_unused_update(used, idx, 8);
            lemma_count_unused_le(used.update(idx, true), 8);
        },
    }
}

/// The transpositions the walk emits for a whole permutation, in emission
/// order: each cycle's first-visited index paired with each later index
/// of the cycle.
#[verifier::opaque]
pub open spec fn transpositions_of(q: Seq<u8>) -> Seq<(int, int)> {
    walk(
        q,
        seq![false, false, false, false, false, false, false, false],
        Some(0),
        true,
        0,
    )
}

/// The walk emits fewer transpositions than it has indices left to visit,
/// once a cycle is open; at most as many otherwise.
pub proof fn lemma_walk_len(q: Seq<u8>, used: Seq<bool>, opt: Option<int>, first: bool, a: int)
    requires
        walk_wf(q, used, opt),
        is_perm8(q),
    ensures
        walk(q, used, opt, first, a).len() + (if first && opt is Some {
            1int
        } else {
            0int
        }) <= count_unused(used, 8),
    decreases count_unused(used, 8),
{
    reveal(walk);
    lemma_count_unused_le(used, 8);
    match opt {
        None => {},
        Some(idx) => {
            let used2 = used.update(idx, true);
            let nxt = q[idx] as int;
            let closed = nxt == idx || used[nxt];
            let opt2 = if closed {
                lowest_unused(used2, 0)
            } else {
                Some(nxt)
            };
            lemma_count_unused_update(used, idx, 8);
            lemma_count_unused_le(used2, 8);
            assert(walk_wf(q, used2, opt2)) by {
                if closed {
                    lemma_lowest_unused_sound(used2, 0);
                }
            }
            lemma_walk_len(q, used2, opt2, closed, if first {
                idx
            } else {
                a
            });
        },
    }
}

/// What the lowest-unvisited search returns is below 8 and unvisited.
proof fn lemma_lowest_unused_sound(used: Seq<bool>, i: int)
    requires
        0 <= i,
    ensures
        match lowest_unused(used, i) {
            Some(n) => i <= n < 8 && !used[n],
            None => forall|t: int| i <= t < 8 ==> used[t],
        },
    decreases 8 - i,
{
    if i < 8 && used[i] {
        lemma_lowest_unused_sound(used, i + 1);
    }
}

/// Walks the cycles of a permutation: starting from index 0, each step
/// visits the current index and follows the permutation; when a cycle
/// closes, the walk hops to the lowest unvisited index. Each call of
/// `next` yields one index together with a flag telling whether it closed
/// its cycle.
pub struct CycleIterator {
    pub permutation: [u8; 8],
    pub index_used: [bool; 8],
    pub optional_next_index: Option<usize>,
}

impl CycleIterator {
    pub open spec fn q(self) -> Seq<u8> {
        self.permutation@
    }

    pub open spec fn used(self) -> Seq<bool> {
        self.index_used@
    }

    /// The iterator either is exhausted, with every index visited, or
    /// points at an unvisited index.
    pub open spec fn position_wf(self) -> bool {
        match self.optional_next_index {
            Some(n) => n < 8 && !self.used()[n as int],
            None => forall|i: int| 0 <= i < 8 ==> self.used()[i],
        }
    }

    pub fn new(p: [u8; 8]) -> (r: CycleIterator)
        ensures
            r.q() == p@,
            r.used() =~= seq![false, false, false, false, false, false, false, false],
            r.optional_next_index == Some(0usize),
    {
        CycleIterator { permutation: p, index_used: [false; 8], optional_next_index: Some(0) }
    }

    /// One step of the walk. The step is deterministic: the contract
    /// states exactly which index is visited, how the visited set grows,
    /// and where the walk points next.
    pub fn next(&mut self) -> (r: Option<(bool, usize)>)
        requires
            is_perm8(old(self).q()),
            old(self).position_wf(),
        ensures
            final(self).q() == old(self).q(),
            final(self).position_wf(),
            match old(self).optional_next_index {
                None => r is None && *final(self) == *old(self),
                Some(idx) => {
                    &&& r is Some
                    &&& r.unwrap().1 == idx
                    &&& final(self).used() =~= old(self).used().update(idx as int, true)
                    &&& {
                        let nxt = old(self).q()[idx as int] as int;
                        if nxt == idx as int || old(self).used()[nxt] {
                            r.unwrap().0 == true && opt_index(final(self).optional_next_index)
                                == lowest_unused(final(self).used(), 0)
                        } else {
                            r.unwrap().0 == false && final(self).optional_next_index == Some(
                                old(self).q()[idx as int] as usize,
                            )
                        }
                    }
                },
            },
    {
        match self.optional_next_index {
            None => {
                proof {
                    assert(self.position_wf());
                }
                None
            },
            Some(index) => {
                self.index_used[index] = true;
                let ghost u0 = self.index_used@;
                let next_index = self.permutation[index] as usize;
                let last;
                if self.index_used[next_index] {
                    last = true;
                    let mut k: usize = 0;
                    while k < 8 && self.index_used[k]
                        invariant
                            k <= 8,
                            self.index_used@ == u0,
                            forall|i: int| 0 <= i < k ==> u0[i],
                        decreases 8 - k,
                    {
                        k += 1;
                    }
                    if k < 8 {
                        self.optional_next_index = Some(k);
                        proof {
                            assert(self.used() == u0);
                            assert(!u0[k as int]);
                            lemma_lowest_unused(u0, 0, k as int);
                            assert(lowest_unused(u0, 0) == Some(k as int));
                        }
                    } else {
                        self.optional_next_index = None;
                        proof {
                            assert(self.used() == u0);
                            assert(forall|i: int| 0 <= i < 8 ==> u0[i]);
                            lemma_lowest_unused(u0, 0, 8);
                            assert(lowest_unused(u0, 0) is None);
                        }
                    }
                } else {
                    last = false;
                    self.optional_next_index = Some(next_index);
                    proof {
                        assert(self.used() == u0);
                        assert(!u0[next_index as int]);
                    }
                }
                Some((last, index))
            },
        }
    }
}

/// The unique index the permutation maps to v.
pub open spec fn preimage(q: Seq<u8>, v: int) -> int {
    choose|t: int| 0 <= t < 8 && q[t] as int == v
}

pub proof fn lemma_preimage(q: Seq<u8>, v: int)
    requires
        is_perm8(q),
        0 <= v < 8,
    ensures
        0 <= preimage(q, v) < 8,
        q[preimage(q, v)] as int == v,
        forall|i: int| 0 <= i < 8 && q[i] as int == v ==> i == preimage(q, v),
{
    lemma_perm8_surjective(q, v);
    let j = choose|j: int| 0 <= j < 8 && q[j] == v;
    assert(0 <= j < 8 && q[j] as int == v);
}

/// The visited set is closed under the permutation: the walk has consumed
/// whole cycles only.
pub open spec fn closed_fwd(q: Seq<u8>, used: Seq<bool>) -> bool {
    forall|i: int| 0 <= i < 8 && used[i] ==> used[q[i] as int]
}

/// Every visited index is the image of a visited index.
pub open spec fn closed_bwd(q: Seq<u8>, used: Seq<bool>) -> bool {
    forall|j: int|
        0 <= j < 8 && used[j] ==> exists|i: int| 0 <= i < 8 && used[i] && q[i] as int == j
}

/// The visited set is an open chain from anchor a to tip t, plus whole
/// cycles: every visited index but the tip maps to a visited index other
/// than the anchor.
pub open spec fn chain_fwd(q: Seq<u8>, used: Seq<bool>, a: int, t: int) -> bool {
    forall|i: int|
        0 <= i < 8 && used[i] && i != t ==> used[q[i] as int] && q[i] as int != a
}

/// Every visited index but the anchor is the image of a visited index
/// other than the tip.
pub open spec fn chain_bwd(q: Seq<u8>, used: Seq<bool>, a: int, t: int) -> bool {
    forall|j: int|
        0 <= j < 8 && used[j] && j != a ==> exists|i: int|
            0 <= i < 8 && used[i] && i != t && q[i] as int == j
}

/// The product of the transpositions emitted while the visited set holds
/// whole cycles only: it agrees with the permutation on visited indices
/// and fixes the rest.
pub open spec fn prod_a(q: Seq<u8>, used: Seq<bool>) -> Seq<u8> {
    Seq::new(
        8,
        |i: int|
            if used[i] {
                q[i]
            } else {
                i as u8
            },
    )
}

/// The product of the transpositions emitted while a chain from anchor a
/// to tip t is open: it agrees with the permutation on visited indices
/// except at the tip, which still maps back to the anchor.
pub open spec fn prod_b(q: Seq<u8>, used: Seq<bool>, a: int, t: int) -> Seq<u8> {
    Seq::new(
        8,
        |i: int|
            if i == t {
                a as u8
            } else if used[i] {
                q[i]
            } else {
                i as u8
            },
    )
}

/// Visiting a fresh anchor keeps the decomposition invariant: a fixed
/// point closes at once, any other index opens a chain of length one.
#[verifier::rlimit(100)]
proof fn lemma_step_anchor(q: Seq<u8>, used: Seq<bool>, a: int)
    requires
        is_perm8(q),
        used.len() == 8,
        closed_fwd(q, used),
        closed_bwd(q, used),
        0 <= a < 8,
        !used[a],
    ensures
        ({
            let used2 = used.update(a, true);
            let y = q[a] as int;
            &&& (y == a ==> closed_fwd(q, used2) && closed_bwd(q, used2) && prod_a(q, used2) =~=
                prod_a(q, used))
            &&& (y != a ==> !used[y] && !used2[y] && preimage(q, y) == a && chain_fwd(
                q,
                used2,
                a,
                a,
            ) && chain_bwd(q, used2, a, a) && prod_b(q, used2, a, a) =~= prod_a(q, used))
        }),
{
    let used2 = used.update(a, true);
    let y = q[a] as int;
    assert(0 <= y < 8);
    if y == a {
        assert forall|j: int| 0 <= j < 8 && used2[j] implies exists|i: int|
            0 <= i < 8 && used2[i] && q[i] as int == j by {
            if j == a {
                assert(used2[a] && q[a] as int == j);
            } else {
                let i = choose|i: int| 0 <= i < 8 && used[i] && q[i] as int == j;
                assert(used2[i] && q[i] as int == j);
            }
        }
    } else {
        if used[y] {
            let i = choose|i: int| 0 <= i < 8 && used[i] && q[i] as int == y;
            assert(q[a] as int == y);
            assert(i == a);
            assert(false);
        }
        lemma_preimage(q, y);
        assert(q[a] as int == y);
        assert forall|i: int| 0 <= i < 8 && used2[i] && i != a implies used2[q[i] as int] && q[i] as int != a by {
            assert(used[i]);
            assert(used[q[i] as int]);
        }
        assert forall|j: int| 0 <= j < 8 && used2[j] && j != a implies exists|i: int|
            0 <= i < 8 && used2[i] && i != a && q[i] as int == j by {
            let i = choose|i: int| 0 <= i < 8 && used[i] && q[i] as int == j;
            assert(used2[i] && i != a && q[i] as int == j);
        }
    }
}

/// Visiting the tip's successor keeps the decomposition invariant: either
/// it is the anchor, which closes the chain into a whole cycle, or it
/// extends the chain by one.
#[verifier::rlimit(100)]
proof fn lemma_step_emit(q: Seq<u8>, used: Seq<bool>, a: int, y: int)
    requires
        is_perm8(q),
        used.len() == 8,
        0 <= a < 8,
        used[a],
        0 <= y < 8,
        !used[y],
        ({
            let t = preimage(q, y);
            &&& 0 <= t < 8
            &&& q[t] as int == y
            &&& used[t]
            &&& chain_fwd(q, used, a, t)
            &&& chain_bwd(q, used, a, t)
        }),
    ensures
        ({
            let used2 = used.update(y, true);
            let t = preimage(q, y);
            let z = q[y] as int;
            &&& (used2[z] ==> z == a && closed_fwd(q, used2) && closed_bwd(q, used2) && prod_a(
                q,
                used2,
            ) =~= tswap(a, y, prod_b(q, used, a, t)))
            &&& (!used2[z] ==> preimage(q, z) == y && chain_fwd(q, used2, a, y) && chain_bwd(
                q,
                used2,
                a,
                y,
            ) && prod_b(q, used2, a, y) =~= tswap(a, y, prod_b(q, used, a, t)))
        }),
{
    let used2 = used.update(y, true);
    let t = preimage(q, y);
    let z = q[y] as int;
    lemma_preimage(q, y);
    assert(t != y);
    assert(0 <= z < 8);
    if z == y {
        assert(q[y] as int == y && q[t] as int == y);
        assert(false);
    }
    let g = prod_b(q, used, a, t);
    if used2[z] {
        assert(used[z]);
        if z != a {
            let i = choose|i: int| 0 <= i < 8 && used[i] && i != t && q[i] as int == z;
            assert(q[i] as int == z && q[y] as int == z);
            assert(i == y);
            assert(false);
        }
        assert forall|i: int| 0 <= i < 8 && used2[i] implies used2[q[i] as int] by {
            if i == y {
                assert(q[y] as int == a);
            } else if i == t {
                assert(q[t] as int == y);
            } else {
                assert(used[i] && used[q[i] as int]);
            }
        }
        assert forall|j: int| 0 <= j < 8 && used2[j] implies exists|i: int|
            0 <= i < 8 && used2[i] && q[i] as int == j by {
            if j == y {
                assert(used2[t] && q[t] as int == j);
            } else if j == a {
                assert(used2[y] && q[y] as int == j);
            } else {
                let i = choose|i: int| 0 <= i < 8 && used[i] && i != t && q[i] as int == j;
                assert(used2[i] && q[i] as int == j);
            }
        }
        assert forall|k: int| 0 <= k < 8 implies prod_a(q, used2)[k] == tswap(a, y, g)[k] by {
            if k == t {
                assert(g[k] as int == a);
            } else if k == y {
                assert(g[k] as int == y);
            } else if used[k] {
                assert(g[k] == q[k]);
                assert(q[k] as int != a);
                if q[k] as int == y {
                    assert(k == t);
                }
            } else {
                assert(g[k] as int == k);
                assert(k != a && k != y);
            }
        }
        assert(prod_a(q, used2) =~= tswap(a, y, g));
    } else {
        assert(z != y);
        assert(!used[z]);
        lemma_preimage(q, z);
        assert(q[y] as int == z);
        assert forall|i: int| 0 <= i < 8 && used2[i] && i != y implies used2[q[i] as int] && q[i] as int != a by {
            if i == t {
                assert(q[t] as int == y);
                assert(y != a);
            } else {
                assert(used[i] && used[q[i] as int]);
            }
        }
        assert forall|j: int| 0 <= j < 8 && used2[j] && j != a implies exists|i: int|
            0 <= i < 8 && used2[i] && i != y && q[i] as int == j by {
            if j == y {
                assert(used2[t] && t != y && q[t] as int == j);
            } else {
                let i = choose|i: int| 0 <= i < 8 && used[i] && i != t && q[i] as int == j;
                assert(used2[i] && i != y && q[i] as int == j);
            }
        }
        assert forall|k: int| 0 <= k < 8 implies prod_b(q, used2, a, y)[k] == tswap(a, y, g)[k] by {
            if k == t {
                assert(g[k] as int == a);
                assert(prod_b(q, used2, a, y)[k] == q[t]);
            } else if k == y {
                assert(g[k] as int == y);
            } else if used[k] {
                assert(g[k] == q[k]);
                assert(q[k] as int != a);
                if q[k] as int == y {
                    assert(k == t);
                }
            } else {
                assert(g[k] as int == k);
                assert(k != a && k != y);
            }
        }
        assert(prod_b(q, used2, a, y) =~= tswap(a, y, g));
    }
}

/// Once every index is visited, the accumulated product is the whole
/// permutation.
proof fn lemma_prod_done(q: Seq<u8>, used: Seq<bool>)
    requires
        is_perm8(q),
        used.len() == 8,
        forall|i: int| 0 <= i < 8 ==> used[i],
    ensures
        prod_a(q, used) =~= q,
{
}

/// Turns the cycles of a permutation into transpositions: each closed
/// cycle of length L yields the L - 1 swaps of its first index with each
/// later index, in walk order. The products of the emitted swaps, applied
/// first to last, compose to the permutation itself.
pub struct TranspositionIterator {
    pub cycle_iterator: CycleIterator,
    pub swap_index: usize,
    pub first: bool,
}

impl TranspositionIterator {
    /// The permutation being decomposed.
    pub open spec fn q(self) -> Seq<u8> {
        self.cycle_iterator.q()
    }

    /// How many indices the walk has not visited yet.
    pub open spec fn unused(self) -> int {
        count_unused(self.cycle_iterator.used(), 8)
    }

    /// The decomposition invariant.
    pub open spec fn wf(self) -> bool {
        let q = self.cycle_iterator.q();
        let used = self.cycle_iterator.used();
        let a = self.swap_index as int;
        &&& is_perm8(q)
        &&& used.len() == 8
        &&& self.cycle_iterator.position_wf()
        &&& if self.first {
            closed_fwd(q, used) && closed_bwd(q, used)
        } else {
            &&& self.cycle_iterator.optional_next_index is Some
            &&& {
                let y = self.cycle_iterator.optional_next_index.unwrap() as int;
                let t = preimage(q, y);
                &&& 0 <= a < 8
                &&& used[a]
                &&& 0 <= t < 8
                &&& q[t] as int == y
                &&& used[t]
                &&& chain_fwd(q, used, a, t)
                &&& chain_bwd(q, used, a, t)
            }
        }
    }

    /// The composition of the transpositions emitted so far, as the
    /// permutation they produce when applied first to last.
    #[verifier::opaque]
    pub open spec fn prod(self) -> Seq<u8> {
        let q = self.cycle_iterator.q();
        let used = self.cycle_iterator.used();
        if self.first {
            prod_a(q, used)
        } else {
            prod_b(
                q,
                used,
                self.swap_index as int,
                preimage(q, self.cycle_iterator.optional_next_index.unwrap() as int),
            )
        }
    }

    /// The transpositions this iterator has yet to emit.
    pub open spec fn remaining(self) -> Seq<(int, int)> {
        walk(
            self.cycle_iterator.q(),
            self.cycle_iterator.used(),
            opt_index(self.cycle_iterator.optional_next_index),
            self.first,
            self.swap_index as int,
        )
    }

    pub fn new(p: [u8; 8]) -> (r: TranspositionIterator)
        requires
            is_perm8(p@),
        ensures
            r.wf(),
            r.q() == p@,
            r.prod() =~= id_perm(),
            r.remaining() == transpositions_of(p@),
    {
        let r = TranspositionIterator {
            cycle_iterator: CycleIterator::new(p),
            first: true,
            swap_index: 0,
        };
        proof {
            reveal(walk);
            reveal(transpositions_of);
            reveal(TranspositionIterator::prod);
            assert(r.prod() =~= id_perm());
            assert(r.cycle_iterator.used() =~= seq![
                false,
                false,
                false,
                false,
                false,
                false,
                false,
                false,
            ]);
            assert(r.remaining() == transpositions_of(p@));
        }
        r
    }

    /// The next transposition (i, j): the product so far, extended by the
    /// swap of the values i and j, stays a prefix product of the
    /// permutation; when the walk is exhausted the product equals the
    /// permutation itself.
    pub fn next(&mut self) -> (r: Option<(usize, usize)>)
        requires
            old(self).wf(),
        ensures
            final(self).wf(),
            final(self).q() == old(self).q(),
            final(self).unused() <= old(self).unused(),
            match r {
                None => final(self).prod() == old(self).prod() && final(self).prod() =~= old(
                    self,
                ).q() && old(self).remaining() == Seq::<(int, int)>::empty()
                    && final(self).remaining() == Seq::<(int, int)>::empty(),
                Some((i, j)) => {
                    &&& i < 8
                    &&& j < 8
                    &&& i != j
                    &&& final(self).prod() =~= tswap(i as int, j as int, old(self).prod())
                    &&& final(self).unused() < old(self).unused()
                    &&& old(self).remaining() == seq![(i as int, j as int)]
                        + final(self).remaining()
                },
            },
    {
        loop
            invariant
                self.wf(),
                self.q() == old(self).q(),
                self.prod() == old(self).prod(),
                self.remaining() == old(self).remaining(),
                self.unused() <= old(self).unused(),
            decreases self.unused(),
        {
            let ghost pre = *self;
            let got = self.cycle_iterator.next();
            match got {
                None => {
                    proof {
                        reveal(walk);
                        reveal(TranspositionIterator::prod);
                        lemma_prod_done(self.q(), self.cycle_iterator.used());
                        assert(self.first == pre.first);
                        if !self.first {
                            assert(false);
                        }
                        assert(self.remaining() == Seq::<(int, int)>::empty());
                    }
                    return None;
                },
                Some((last, index)) => {
                    proof {
                        lemma_count_unused_le(self.cycle_iterator.used(), 8);
                        lemma_count_unused_update(pre.cycle_iterator.used(), index as int, 8);
                        lemma_count_unused_same(
                            pre.cycle_iterator.used().update(index as int, true),
                            self.cycle_iterator.used(),
                            8,
                        );
                    }
                    let first = self.first;
                    self.first = last;
                    if first {
                        self.swap_index = index;
                        proof {
                            reveal(walk);
                            reveal(TranspositionIterator::prod);
                            lemma_step_anchor(
                                pre.q(),
                                pre.cycle_iterator.used(),
                                index as int,
                            );
                            let y = pre.q()[index as int] as int;
                            if last {
                                assert(y == index as int);
                                assert(self.prod() =~= pre.prod());
                            } else {
                                assert(y != index as int && !pre.cycle_iterator.used()[y]);
                                assert(self.prod() =~= pre.prod());
                            }
                            assert(self.cycle_iterator.used() == pre.cycle_iterator.used().update(
                                index as int,
                                true,
                            )) by {
                                assert(self.cycle_iterator.used() =~= pre.cycle_iterator.used()
                                    .update(index as int, true));
                            }
                            assert(self.remaining() == pre.remaining());
                        }
                    } else {
                        proof {
                            reveal(walk);
                            reveal(TranspositionIterator::prod);
                            let q = pre.q();
                            let used = pre.cycle_iterator.used();
                            let a = pre.swap_index as int;
                            let y = index as int;
                            lemma_step_emit(q, used, a, y);
                            let z = q[y] as int;
                            let used2 = used.update(y, true);
                            assert(self.cycle_iterator.used() =~= used2);
                            if last {
                                assert(used2[z]);
                                assert(self.prod() =~= tswap(a, y, pre.prod()));
                            } else {
                                assert(!used2[z]);
                                assert(self.cycle_iterator.optional_next_index == Some(
                                    q[y] as usize,
                                ));
                                assert(self.prod() =~= tswap(a, y, pre.prod()));
                            }
                            assert(a != y);
                            assert(self.cycle_iterator.used() == used2);
                            assert(pre.remaining() == seq![(a, y)] + self.remaining());
                        }
                        return Some((self.swap_index, index));
                    }
                },
            }
        }
    }
}

/// Relocates the entries of a vector: the entry at index i moves to index
/// p[i].
pub fn apply(a: &mut [u8; 8], p: &[u8; 8])
    requires
        is_perm8(p@),
    ensures
        forall|i: int| 0 <= i < 8 ==> final(a)@[p@[i] as int] == old(a)@[i],
{
    let orig = *a;
    let mut i: usize = 0;
    while i < 8
        invariant
            i <= 8,
            is_perm8(p@),
            orig@ == old(a)@,
            forall|k: int| 0 <= k < i ==> a@[p@[k] as int] == orig@[k],
            forall|k: int| i <= k < 8 ==> a@[p@[k] as int] == orig@[p@[k] as int],
        decreases 8 - i,
    {
        a[p[i] as usize] = orig[i];
        i += 1;
    }
}


/// Inverting twice gives the permutation back.
pub proof fn lemma_inv_perm_involution(p: Seq<u8>)
    requires
        is_perm8(p),
    ensures
        inv_perm(inv_perm(p)) == p,
{
    let q = inv_perm(p);
    assert forall|v: int| 0 <= v < 8 implies q[v] < 8 && p[q[v] as int] as int == v by {
        lemma_preimage(p, v);
    }
    assert(is_perm8(q)) by {
        assert forall|a: int, b: int|
            0 <= a < 8 && 0 <= b < 8 && a != b implies q[a] != q[b] by {
            assert(p[q[a] as int] as int == a);
            assert(p[q[b] as int] as int == b);
        }
    }
    assert forall|v: int| 0 <= v < 8 implies inv_perm(q)[v] == p[v] by {
        lemma_preimage(q, v);
        lemma_preimage(p, v);
        assert(q[p[v] as int] as int == v) by {
            assert(p[q[p[v] as int] as int] as int == p[v] as int);
        }
        assert(preimage(q, v) == p[v] as int);
    }
    assert(inv_perm(q) =~= p);
}

/// Whether an array holds a permutation of the eight corner indices.
pub fn is_permutation(p: &[u8; 8]) -> (b: bool)
    ensures
        b == is_perm8(p@),
{
    let mut seen = [false; 8];
    let mut i: usize = 0;
    while i < 8
        invariant
            i <= 8,
            forall|t: int| 0 <= t < i ==> p[t] < 8,
            forall|v: int|
                0 <= v < 8 ==> (seen[v] <==> exists|t: int| 0 <= t < i && p[t] as int == v),
            forall|a: int, b2: int| 0 <= a < i && 0 <= b2 < i && a != b2 ==> p[a] != p[b2],
        decreases 8 - i,
    {
        let v = p[i];
        if v >= 8 {
            return false;
        }
        if seen[v as usize] {
            proof {
                let t = choose|t: int| 0 <= t < i && p[t] as int == v as int;
                assert(p[t] == p[i as int] && t != i as int);
            }
            return false;
        }
        seen[v as usize] = true;
        proof {
            assert forall|v2: int|
                0 <= v2 < 8 implies (seen[v2] <==> exists|t: int|
                    0 <= t < i + 1 && p[t] as int == v2) by {
                if v2 == v as int {
                    assert(p[i as int] as int == v2);
                } else {
                    if exists|t: int| 0 <= t < i + 1 && p[t] as int == v2 {
                        let t = choose|t: int| 0 <= t < i + 1 && p[t] as int == v2;
                        assert(t < i);
                    }
                }
            }
        }
        i += 1;
    }
    true
}

} // verus!
