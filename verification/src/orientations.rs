//! The orientation solver: simulating moves on the twist vector, the three
//! families of twist macros, and the macro that untwists every corner
//! without disturbing placement.

use vstd::prelude::*;
use crate::cube::{bit, move_axis, move_quarters, move_sign, popcount3, Macro, Move};
use crate::positions;
use crate::positions::{bxor3, fam_mv, lemma_rot1_range, pw, rot1, sh};

verus! {

/// The twist a quarter turn of the face at end s of axis d adds to the
/// corner arriving in slot j.
pub open spec fn chg(d: int, s: int, j: int) -> int {
    if d == 0 {
        0
    } else if d == 1 {
        if s == 0 {
            // the D face
            if j == 0 {
                2
            } else if j == 1 {
                1
            } else if j == 4 {
                1
            } else if j == 5 {
                2
            } else {
                0
            }
        } else {
            // the U face
            if j == 2 {
                1
            } else if j == 3 {
                2
            } else if j == 6 {
                2
            } else if j == 7 {
                1
            } else {
                0
            }
        }
    } else {
        if s == 0 {
            // the B face
            if j == 0 {
                1
            } else if j == 1 {
                2
            } else if j == 2 {
                2
            } else if j == 3 {
                1
            } else {
                0
            }
        } else {
            // the F face
            if j == 4 {
                2
            } else if j == 5 {
                1
            } else if j == 6 {
                1
            } else if j == 7 {
                2
            } else {
                0
            }
        }
    }
}

/// The slot a corner moves from under one quarter turn: three forward
/// quarter turns, because the turn has order four.
pub open spec fn q_back(d: int, s: int, j: int) -> int {
    rot1(d, s, rot1(d, s, rot1(d, s, j)))
}

/// One quarter turn applied to a twist vector: the corner arriving in each
/// slot brings its twist along and picks up the turn's twist for that
/// slot.
pub open spec fn ori_q(o: Seq<u8>, d: int, s: int) -> Seq<u8> {
    Seq::new(8, |j: int| (((o[q_back(d, s, j)] + chg(d, s, j)) % 3) as u8))
}

/// One move applied to a twist vector: its quarter turn, applied once,
/// twice or three times.
pub open spec fn ori_step(o: Seq<u8>, m: Move) -> Seq<u8> {
    let d = move_axis(m);
    let s = move_sign(m);
    let c = move_quarters(m);
    if c == 1 {
        ori_q(o, d, s)
    } else if c == 2 {
        ori_q(ori_q(o, d, s), d, s)
    } else {
        ori_q(ori_q(ori_q(o, d, s), d, s), d, s)
    }
}

/// The first n moves of a run applied to a twist vector, first move first.
pub open spec fn ori_run(ms: Seq<Move>, o: Seq<u8>, n: int) -> Seq<u8>
    decreases n,
{
    if n <= 0 {
        o
    } else {
        ori_step(ori_run(ms, o, n - 1), ms[n - 1])
    }
}

/// The slot a twist travels from across the first n moves of a run,
/// followed backwards from slot j.
pub open spec fn ori_src(ms: Seq<Move>, n: int, j: int) -> int
    decreases n,
{
    if n <= 0 {
        j
    } else {
        let m = ms[n - 1];
        let d = move_axis(m);
        let s = move_sign(m);
        let c = move_quarters(m);
        if c == 1 {
            ori_src(ms, n - 1, q_back(d, s, j))
        } else if c == 2 {
            ori_src(ms, n - 1, q_back(d, s, q_back(d, s, j)))
        } else {
            ori_src(ms, n - 1, q_back(d, s, q_back(d, s, q_back(d, s, j))))
        }
    }
}

/// The twist the first n moves of a run add to the corner that ends in
/// slot j.
pub open spec fn ori_acc(ms: Seq<Move>, n: int, j: int) -> int
    decreases n,
{
    if n <= 0 {
        0
    } else {
        let m = ms[n - 1];
        let d = move_axis(m);
        let s = move_sign(m);
        let c = move_quarters(m);
        if c == 1 {
            ori_acc(ms, n - 1, q_back(d, s, j)) + chg(d, s, j)
        } else if c == 2 {
            ori_acc(ms, n - 1, q_back(d, s, q_back(d, s, j))) + chg(d, s, q_back(d, s, j)) + chg(
                d,
                s,
                j,
            )
        } else {
            ori_acc(ms, n - 1, q_back(d, s, q_back(d, s, q_back(d, s, j)))) + chg(
                d,
                s,
                q_back(d, s, q_back(d, s, j)),
            ) + chg(d, s, q_back(d, s, j)) + chg(d, s, j)
        }
    }
}

/// Quarter turns keep slot indices in range when followed backwards.
pub proof fn lemma_q_back_range(d: int, s: int, j: int)
    requires
        0 <= d < 3,
        0 <= s < 2,
        0 <= j < 8,
    ensures
        0 <= q_back(d, s, j) < 8,
{
    lemma_rot1_range(d, s, j);
    lemma_rot1_range(d, s, rot1(d, s, j));
    lemma_rot1_range(d, s, rot1(d, s, rot1(d, s, j)));
}

/// The accumulated twist of a run is never negative.
pub proof fn lemma_ori_acc_nonneg(ms: Seq<Move>, n: int, j: int)
    requires
        0 <= n,
        0 <= j < 8,
    ensures
        0 <= ori_acc(ms, n, j),
    decreases n,
{
    if n > 0 {
        let m = ms[n - 1];
        let d = move_axis(m);
        let s = move_sign(m);
        lemma_q_back_range(d, s, j);
        lemma_q_back_range(d, s, q_back(d, s, j));
        lemma_q_back_range(d, s, q_back(d, s, q_back(d, s, j)));
        lemma_ori_acc_nonneg(ms, n - 1, q_back(d, s, j));
        lemma_ori_acc_nonneg(ms, n - 1, q_back(d, s, q_back(d, s, j)));
        lemma_ori_acc_nonneg(ms, n - 1, q_back(d, s, q_back(d, s, q_back(d, s, j))));
    }
}

/// Reducing one summand mod 3 before adding does not change the sum mod 3.
proof fn lemma_mod3_shift(x: int, y: int)
    ensures
        ((x % 3) + y) % 3 == (x + y) % 3,
{
    vstd::arithmetic::div_mod::lemma_add_mod_noop(x, y, 3);
    vstd::arithmetic::div_mod::lemma_add_mod_noop(x % 3, y, 3);
    vstd::arithmetic::div_mod::lemma_mod_twice(x, 3);
}

/// A run acts on a twist vector slot by slot: the twist ending in slot j
/// is the start vector's twist at the source slot, plus the accumulated
/// twist of the run, reduced mod 3.
pub proof fn lemma_ori_run_pointwise(ms: Seq<Move>, o: Seq<u8>, n: int, j: int)
    requires
        o.len() == 8,
        forall|t: int| 0 <= t < 8 ==> o[t] < 3,
        0 <= j < 8,
        0 <= n,
    ensures
        ori_run(ms, o, n).len() == 8,
        0 <= ori_src(ms, n, j) < 8,
        ori_run(ms, o, n)[j] as int == (o[ori_src(ms, n, j)] + ori_acc(ms, n, j)) % 3,
    decreases n,
{
    if n > 0 {
        let m = ms[n - 1];
        let d = move_axis(m);
        let s = move_sign(m);
        let c = move_quarters(m);
        let prev = ori_run(ms, o, n - 1);
        lemma_q_back_range(d, s, j);
        let j1 = q_back(d, s, j);
        lemma_q_back_range(d, s, j1);
        let j2 = q_back(d, s, j1);
        lemma_q_back_range(d, s, j2);
        let j3 = q_back(d, s, j2);
        lemma_ori_run_pointwise(ms, o, n - 1, j);
        lemma_ori_run_pointwise(ms, o, n - 1, j1);
        lemma_ori_run_pointwise(ms, o, n - 1, j2);
        lemma_ori_run_pointwise(ms, o, n - 1, j3);
        lemma_ori_acc_nonneg(ms, n - 1, j1);
        lemma_ori_acc_nonneg(ms, n - 1, j2);
        lemma_ori_acc_nonneg(ms, n - 1, j3);
        if c == 1 {
            assert(ori_run(ms, o, n) == ori_q(prev, d, s));
            assert(ori_run(ms, o, n)[j] as int == (prev[j1] as int + chg(d, s, j)) % 3);
            lemma_mod3_shift(o[ori_src(ms, n - 1, j1)] as int + ori_acc(ms, n - 1, j1), chg(d, s, j));
            assert(ori_src(ms, n, j) == ori_src(ms, n - 1, j1));
            assert(ori_acc(ms, n, j) == ori_acc(ms, n - 1, j1) + chg(d, s, j));
            assert(ori_run(ms, o, n)[j] as int == (o[ori_src(ms, n, j)] + ori_acc(ms, n, j)) % 3);
        } else if c == 2 {
            assert(ori_run(ms, o, n)[j] as int == ((prev[j2] as int + chg(d, s, j1)) % 3 + chg(
                d,
                s,
                j,
            )) % 3);
            lemma_mod3_shift(
                o[ori_src(ms, n - 1, j2)] as int + ori_acc(ms, n - 1, j2),
                chg(d, s, j1),
            );
            lemma_mod3_shift(
                o[ori_src(ms, n - 1, j2)] as int + ori_acc(ms, n - 1, j2) + chg(d, s, j1),
                chg(d, s, j),
            );
        } else {
            assert(ori_run(ms, o, n)[j] as int == (((prev[j3] as int + chg(d, s, j2)) % 3 + chg(
                d,
                s,
                j1,
            )) % 3 + chg(d, s, j)) % 3);
            lemma_mod3_shift(
                o[ori_src(ms, n - 1, j3)] as int + ori_acc(ms, n - 1, j3),
                chg(d, s, j2),
            );
            lemma_mod3_shift(
                o[ori_src(ms, n - 1, j3)] as int + ori_acc(ms, n - 1, j3) + chg(d, s, j2),
                chg(d, s, j1),
            );
            lemma_mod3_shift(
                o[ori_src(ms, n - 1, j3)] as int + ori_acc(ms, n - 1, j3) + chg(d, s, j2) + chg(
                    d,
                    s,
                    j1,
                ),
                chg(d, s, j),
            );
        }
    }
}

/// The all-zero twist vector: every corner in its home attitude.
pub fn identity() -> (r: [u8; 8])
    ensures
        r@ =~= seq![0u8, 0u8, 0u8, 0u8, 0u8, 0u8, 0u8, 0u8],
        forall|t: int| 0 <= t < 8 ==> r@[t] == 0,
{
    [0; 8]
}

/// One quarter turn applied to a twist vector in place.
fn apply_quarter(o: &mut [u8; 8], d: u8, s: u8)
    requires
        d < 3,
        s < 2,
        forall|j: int| 0 <= j < 8 ==> old(o)[j] < 3,
    ensures
        final(o)@ =~= ori_q(old(o)@, d as int, s as int),
        forall|j: int| 0 <= j < 8 ==> final(o)[j] < 3,
{
    let src = *o;
    let mut j: usize = 0;
    while j < 8
        invariant
            j <= 8,
            d < 3,
            s < 2,
            src@ == old(o)@,
            forall|t: int| 0 <= t < 8 ==> src@[t] < 3,
            o@.len() == 8,
            forall|t: int| 0 <= t < j ==> o@[t] as int == (src@[q_back(d as int, s as int, t)]
                + chg(d as int, s as int, t)) % 3,
            forall|t: int| 0 <= t < j ==> o@[t] < 3,
        decreases 8 - j,
    {
        proof {
            lemma_q_back_range(d as int, s as int, j as int);
        }
        let b1 = positions::rot_once(d, s, j as u8);
        let b2 = positions::rot_once(d, s, b1);
        let b3 = positions::rot_once(d, s, b2);
        let dd = if d == 0 {
            0
        } else if d == 1 {
            if s == 0 {
                if j == 0 {
                    2
                } else if j == 1 {
                    1
                } else if j == 4 {
                    1
                } else if j == 5 {
                    2
                } else {
                    0
                }
            } else {
                if j == 2 {
                    1
                } else if j == 3 {
                    2
                } else if j == 6 {
                    2
                } else if j == 7 {
                    1
                } else {
                    0
                }
            }
        } else {
            if s == 0 {
                if j == 0 {
                    1
                } else if j == 1 {
                    2
                } else if j == 2 {
                    2
                } else if j == 3 {
                    1
                } else {
                    0
                }
            } else {
                if j == 4 {
                    2
                } else if j == 5 {
                    1
                } else if j == 6 {
                    1
                } else if j == 7 {
                    2
                } else {
                    0
                }
            }
        };
        proof {
            assert(dd as int == chg(d as int, s as int, j as int));
            assert(b3 as int == q_back(d as int, s as int, j as int));
            assert(src[b3 as int] < 3);
        }
        o[j] = (src[b3 as usize] + dd) % 3;
        j += 1;
    }
}

/// Applies one move to a twist vector in place.
pub fn apply(o: &mut [u8; 8], m: &Move)
    requires
        forall|j: int| 0 <= j < 8 ==> old(o)[j] < 3,
    ensures
        final(o)@ =~= ori_step(old(o)@, *m),
        forall|j: int| 0 <= j < 8 ==> final(o)[j] < 3,
{
    let idx = m.to_index();
    let f = idx / 3;
    let c = idx % 3 + 1;
    let d = f / 2;
    let s = f % 2;
    proof {
        assert(d as int == move_axis(*m));
        assert(s as int == move_sign(*m));
        assert(c as int == move_quarters(*m));
    }
    apply_quarter(o, d, s);
    if c >= 2 {
        apply_quarter(o, d, s);
    }
    if c == 3 {
        apply_quarter(o, d, s);
    }
}


/// The twist the macro for the pair (i, j) imparts: one forward twist at
/// i, two at j, none elsewhere.
pub open spec fn twist_delta(i: int, j: int, t: int) -> int {
    if t == i {
        1
    } else if t == j {
        2
    } else {
        0
    }
}

/// The twelve-move macro that twists two corners differing in one axis
/// bit.
pub open spec fn twist_edge_seq(i: int, j: int) -> Seq<Move> {
    let x = bxor3(i, j);
    let d0 = x / 2;
    let f = popcount3(i) % 2;
    let d_a = (d0 + 1 + ((0 + f) % 2)) % 3;
    let d_b = (d0 + 1 + ((1 + f) % 2)) % 3;
    let s_a = bit(i, d_a);
    let s_b = bit(i, d_b);
    seq![
        Move::of_index(6 * d_a + 3 * s_a + 0),
        Move::of_index(6 * d_b + 3 * s_b + 2),
        Move::of_index(6 * d_a + 3 * s_a + 0),
        Move::of_index(6 * d_b + 3 * s_b + 2),
        Move::of_index(6 * d_a + 3 * s_a + 0),
        Move::of_index(6 * d_b + 3 * s_b + 2),
        Move::of_index(6 * d_a + 3 * s_a + 2),
        Move::of_index(6 * d_b + 3 * s_b + 0),
        Move::of_index(6 * d_a + 3 * s_a + 2),
        Move::of_index(6 * d_b + 3 * s_b + 0),
        Move::of_index(6 * d_a + 3 * s_a + 2),
        Move::of_index(6 * d_b + 3 * s_b + 0),
    ]
}

/// The fourteen-move macro that twists two corners differing in two axis
/// bits.
pub open spec fn twist_diag_seq(i: int, j: int) -> Seq<Move> {
    let x = bxor3(i, j);
    let d0 = bxor3(x, 7) / 2;
    let f = popcount3(i) % 2;
    let base = if f == 1 {
        j
    } else {
        i
    };
    let d_a = (0 + d0) % 3;
    let d_b = (1 + d0) % 3;
    let d_c = (2 + d0) % 3;
    let f_a = bit(base, d_a);
    let f_b = bit(base, d_b);
    let f_c = bit(base, d_c);
    seq![
        fam_mv(d_c, (1 + f_c) % 2, f, 1),
        fam_mv(d_a, (0 + f_a) % 2, f, 1),
        fam_mv(d_b, (0 + f_b) % 2, f, 3),
        fam_mv(d_a, (0 + f_a) % 2, f, 1),
        fam_mv(d_b, (0 + f_b) % 2, f, 3),
        fam_mv(d_a, (0 + f_a) % 2, f, 1),
        fam_mv(d_b, (0 + f_b) % 2, f, 3),
        fam_mv(d_a, (0 + f_a) % 2, f, 3),
        fam_mv(d_b, (0 + f_b) % 2, f, 1),
        fam_mv(d_a, (0 + f_a) % 2, f, 3),
        fam_mv(d_b, (0 + f_b) % 2, f, 1),
        fam_mv(d_a, (0 + f_a) % 2, f, 3),
        fam_mv(d_b, (0 + f_b) % 2, f, 1),
        fam_mv(d_c, (1 + f_c) % 2, f, 3),
    ]
}

/// The axis relabelling the space-diagonal twist macro uses when its
/// inversion flag is set.
pub open spec fn opp_axis(d: int, f: int) -> int {
    if f == 0 {
        d
    } else if d == 0 {
        1
    } else if d == 1 {
        0
    } else {
        2
    }
}

/// The fourteen-move macro that twists two corners differing in all three
/// axis bits.
pub open spec fn twist_opposite_seq(i: int, j: int) -> Seq<Move> {
    let f = popcount3(i) % 2;
    let a0 = opp_axis(0, f);
    let a1 = opp_axis(1, f);
    let a2 = opp_axis(2, f);
    let s0 = bit(i, a0);
    let s1 = bit(i, a1);
    let s2 = bit(i, a2);
    seq![
        Move::of_index(6 * a2 + 3 * ((1 + s2) % 2) + 1),
        Move::of_index(6 * a0 + 3 * ((0 + s0) % 2) + 0),
        Move::of_index(6 * a1 + 3 * ((0 + s1) % 2) + 2),
        Move::of_index(6 * a0 + 3 * ((0 + s0) % 2) + 0),
        Move::of_index(6 * a1 + 3 * ((0 + s1) % 2) + 2),
        Move::of_index(6 * a0 + 3 * ((0 + s0) % 2) + 0),
        Move::of_index(6 * a1 + 3 * ((0 + s1) % 2) + 2),
        Move::of_index(6 * a0 + 3 * ((0 + s0) % 2) + 2),
        Move::of_index(6 * a1 + 3 * ((0 + s1) % 2) + 0),
        Move::of_index(6 * a0 + 3 * ((0 + s0) % 2) + 2),
        Move::of_index(6 * a1 + 3 * ((0 + s1) % 2) + 0),
        Move::of_index(6 * a0 + 3 * ((0 + s0) % 2) + 2),
        Move::of_index(6 * a1 + 3 * ((0 + s1) % 2) + 0),
        Move::of_index(6 * a2 + 3 * ((1 + s2) % 2) + 1),
    ]
}

/// The macro that twists corners i and j, chosen by how many axis bits
/// they differ in.
#[verifier::opaque]
pub open spec fn twist_seq_for(i: int, j: int) -> Seq<Move> {
    let pc = popcount3(bxor3(i, j));
    if pc == 1 {
        twist_edge_seq(i, j)
    } else if pc == 2 {
        twist_diag_seq(i, j)
    } else {
        twist_opposite_seq(i, j)
    }
}

/// The twist macro for (i, j) leaves every corner in place and twists
/// exactly i forward once and j forward twice.
pub open spec fn twist_pair_ok(i: int, j: int) -> bool {
    let tw = twist_seq_for(i, j);
    let n = tw.len() as int;
    &&& crate::positions::pos_net(tw) == crate::permutations::id_perm()
    &&& forall|t: int| 0 <= t < 8 ==> ori_src(tw, n, t) == t
    &&& forall|t: int| 0 <= t < 8 ==> #[trigger] ori_acc(tw, n, t) % 3 == twist_delta(i, j, t)
}


/// The twelve-move macro that twists two corners differing in one axis
/// bit.
#[verifier::rlimit(100)]
#[verifier::spinoff_prover]
pub fn twist_edge_moves(i: u8, j: u8) -> (r: [Move; 12])
    requires
        i < 8,
        j < 8,
        popcount3(bxor3(i as int, j as int)) == 1,
    ensures
        r@ =~= twist_edge_seq(i as int, j as int),
{
    let x = positions::xor3(i, j);
    let d0 = x / 2;
    let f = (i % 2 + (i / 2) % 2 + (i / 4) % 2) % 2;
    let d_a = (d0 + 1 + ((0 + f) % 2)) % 3;
    let d_b = (d0 + 1 + ((1 + f) % 2)) % 3;
    let s_a = positions::bit_of(i, d_a);
    let s_b = positions::bit_of(i, d_b);
    let ma1 = Move::from(6 * d_a + 3 * s_a + 0);
    let ma3 = Move::from(6 * d_a + 3 * s_a + 2);
    let mb1 = Move::from(6 * d_b + 3 * s_b + 0);
    let mb3 = Move::from(6 * d_b + 3 * s_b + 2);
    [ma1, mb3, ma1, mb3, ma1, mb3, ma3, mb1, ma3, mb1, ma3, mb1]
}

/// The fourteen-move macro that twists two corners differing in two axis
/// bits.
#[verifier::rlimit(100)]
#[verifier::spinoff_prover]
pub fn twist_diag_moves(i: u8, j: u8) -> (r: [Move; 14])
    requires
        i < 8,
        j < 8,
        popcount3(bxor3(i as int, j as int)) == 2,
    ensures
        r@ =~= twist_diag_seq(i as int, j as int),
{
    let x = positions::xor3(i, j);
    let x7 = (x % 2 + 1) % 2 + 2 * (((x / 2) % 2 + 1) % 2) + 4 * (((x / 4) % 2 + 1) % 2);
    proof {
        assert(x7 as int == bxor3(x as int, 7));
    }
    let d0 = x7 / 2;
    let f = (i % 2 + (i / 2) % 2 + (i / 4) % 2) % 2;
    let base = if f == 1 {
        j
    } else {
        i
    };
    let d_a = (0 + d0) % 3;
    let d_b = (1 + d0) % 3;
    let d_c = (2 + d0) % 3;
    let f_a = positions::bit_of(base, d_a);
    let f_b = positions::bit_of(base, d_b);
    let f_c = positions::bit_of(base, d_c);
    let mc1 = positions::family_move(d_c, (1 + f_c) % 2, f, 1);
    let mc3 = positions::family_move(d_c, (1 + f_c) % 2, f, 3);
    let ma1 = positions::family_move(d_a, (0 + f_a) % 2, f, 1);
    let ma3 = positions::family_move(d_a, (0 + f_a) % 2, f, 3);
    let mb1 = positions::family_move(d_b, (0 + f_b) % 2, f, 1);
    let mb3 = positions::family_move(d_b, (0 + f_b) % 2, f, 3);
    [mc1, ma1, mb3, ma1, mb3, ma1, mb3, ma3, mb1, ma3, mb1, ma3, mb1, mc3]
}

/// The fourteen-move macro that twists two corners differing in all three
/// axis bits.
#[verifier::rlimit(100)]
#[verifier::spinoff_prover]
pub fn twist_opposite_moves(i: u8, j: u8) -> (r: [Move; 14])
    requires
        i < 8,
        j < 8,
        popcount3(bxor3(i as int, j as int)) == 3,
    ensures
        r@ =~= twist_opposite_seq(i as int, j as int),
{
    let f = (i % 2 + (i / 2) % 2 + (i / 4) % 2) % 2;
    let a0: u8 = if f == 0 {
        0
    } else {
        1
    };
    let a1: u8 = if f == 0 {
        1
    } else {
        0
    };
    let a2: u8 = 2;
    let s0 = positions::bit_of(i, a0);
    let s1 = positions::bit_of(i, a1);
    let s2 = positions::bit_of(i, a2);
    let ma1 = Move::from(6 * a0 + 3 * ((0 + s0) % 2) + 0);
    let ma3 = Move::from(6 * a0 + 3 * ((0 + s0) % 2) + 2);
    let mb1 = Move::from(6 * a1 + 3 * ((0 + s1) % 2) + 0);
    let mb3 = Move::from(6 * a1 + 3 * ((0 + s1) % 2) + 2);
    let mc2 = Move::from(6 * a2 + 3 * ((1 + s2) % 2) + 1);
    [mc2, ma1, mb3, ma1, mb3, ma1, mb3, ma3, mb1, ma3, mb1, ma3, mb1, mc2]
}


/// A twist run reads only the moves below n.
proof fn lemma_ori_run_prefix(ms1: Seq<Move>, ms2: Seq<Move>, o: Seq<u8>, n: int)
    requires
        0 <= n,
        forall|k: int| 0 <= k < n ==> ms1[k] == ms2[k],
    ensures
        ori_run(ms1, o, n) == ori_run(ms2, o, n),
    decreases n,
{
    if n > 0 {
        lemma_ori_run_prefix(ms1, ms2, o, n - 1);
    }
}

/// Running a concatenation on a twist vector equals running the parts in
/// order.
pub proof fn lemma_ori_run_append(ms1: Seq<Move>, ms2: Seq<Move>, o: Seq<u8>, n2: int)
    requires
        0 <= n2 <= ms2.len(),
    ensures
        ori_run(ms1 + ms2, o, ms1.len() + n2) == ori_run(
            ms2,
            ori_run(ms1, o, ms1.len() as int),
            n2,
        ),
    decreases n2,
{
    if n2 == 0 {
        lemma_ori_run_prefix(ms1 + ms2, ms1, o, ms1.len() as int);
    } else {
        lemma_ori_run_append(ms1, ms2, o, n2 - 1);
        assert((ms1 + ms2)[ms1.len() + n2 - 1] == ms2[n2 - 1]);
    }
}

/// Appending the twist macro for (i, j) to a run whose placement effect is
/// the identity keeps that identity and adds the twist deltas slot by
/// slot.
proof fn lemma_twist_step(oldmoves: Seq<Move>, o: Seq<u8>, i: int, j: int)
    requires
        o.len() == 8,
        forall|t: int| 0 <= t < 8 ==> o[t] < 3,
        0 <= i < 8,
        0 <= j < 8,
        i != j,
        crate::positions::pos_net(oldmoves) == crate::permutations::id_perm(),
    ensures
        ({
            let tw = twist_seq_for(i, j);
            let newm = oldmoves + tw;
            let cur = ori_run(oldmoves, o, oldmoves.len() as int);
            let nw = ori_run(newm, o, newm.len() as int);
            &&& crate::positions::pos_net(newm) == crate::permutations::id_perm()
            &&& nw.len() == 8
            &&& forall|t: int|
                0 <= t < 8 ==> (#[trigger] nw[t]) as int == (cur[t] + twist_delta(i, j, t)) % 3
        }),
{
    let tw = twist_seq_for(i, j);
    let newm = oldmoves + tw;
    let n0 = oldmoves.len() as int;
    let ltw = tw.len() as int;
    let cur = ori_run(oldmoves, o, n0);
    crate::twist_cases::lemma_twist_macro(i, j);
    lemma_ori_run_append(oldmoves, tw, o, ltw);
    assert forall|t: int| 0 <= t < 8 implies 0 <= #[trigger] cur[t] < 3 && cur.len() == 8 by {
        lemma_ori_run_pointwise(oldmoves, o, n0, t);
    }
    assert forall|t: int|
        0 <= t < 8 implies (#[trigger] ori_run(newm, o, newm.len() as int)[t]) as int == (cur[t]
        + twist_delta(i, j, t)) % 3 by {
        lemma_ori_run_pointwise(tw, cur, ltw, t);
        assert(ori_src(tw, ltw, t) == t);
        assert(ori_acc(tw, ltw, t) % 3 == twist_delta(i, j, t));
        lemma_mod3_shift(ori_acc(tw, ltw, t), cur[t] as int);
    }
    // placement: the twist macro's net permutation is the identity, so the
    // concatenation keeps the identity placement.
    crate::positions::lemma_pos_run_append(
        oldmoves,
        tw,
        crate::permutations::id_perm(),
        ltw,
    );
    assert forall|k: int|
        0 <= k < 8 implies (#[trigger] crate::positions::pos_net(newm)[k])
        == crate::permutations::id_perm()[k] by {
        crate::positions::lemma_pos_run_compose(tw, crate::permutations::id_perm(), ltw, k);
        crate::positions::lemma_id_perm_at(k);
        assert(crate::permutations::id_perm()[k] < 8);
    }
    assert(crate::positions::pos_net(newm) =~= crate::permutations::id_perm());
}

/// The sum of the twists of corners 1 up to (not including) k.
pub open spec fn sum_to(o: Seq<u8>, k: int) -> int
    decreases k,
{
    if k <= 1 {
        0
    } else {
        sum_to(o, k - 1) + o[k - 1]
    }
}

/// The total twist of a vector.
pub open spec fn sum3(o: Seq<u8>) -> int {
    o[0] + sum_to(o, 8)
}

/// The macro the orientation solver emits: for each corner 1 up to 7 with
/// a nonzero twist, the twist macro that pairs it with corner 0, oriented
/// by the twist value.
pub open spec fn twist_moves_from(o: Seq<u8>, k: int) -> Seq<Move>
    decreases 8 - k,
{
    if k < 1 || k >= 8 {
        Seq::empty()
    } else {
        (if o[k] == 0 {
            Seq::<Move>::empty()
        } else if o[k] == 1 {
            twist_seq_for(0, k)
        } else {
            twist_seq_for(k, 0)
        }) + twist_moves_from(o, k + 1)
    }
}

/// Appends to the macro the twist macro the pair's axis distance selects.
#[verifier::rlimit(100)]
#[verifier::spinoff_prover]
fn push_twist_moves(mac: &mut Macro, i: u8, j: u8)
    requires
        i < 8,
        j < 8,
        i != j,
    ensures
        final(mac).moves@ == old(mac).moves@ + twist_seq_for(i as int, j as int),
{
    proof {
        reveal(twist_seq_for);
        crate::positions::lemma_bxor3_pc(i as int, j as int);
    }
    let x = positions::xor3(i, j);
    let pc = x % 2 + (x / 2) % 2 + (x / 4) % 2;
    if pc == 1 {
        let arr = twist_edge_moves(i, j);
        positions::extend_macro(mac, &arr);
        proof {
            assert(arr@ =~= twist_seq_for(i as int, j as int));
        }
    } else if pc == 2 {
        let arr = twist_diag_moves(i, j);
        positions::extend_macro(mac, &arr);
        proof {
            assert(arr@ =~= twist_seq_for(i as int, j as int));
        }
    } else {
        let arr = twist_opposite_moves(i, j);
        positions::extend_macro(mac, &arr);
        proof {
            assert(arr@ =~= twist_seq_for(i as int, j as int));
        }
    }
}


/// The macro that untwists every corner without disturbing placement: one
/// twist macro against corner 0 for each twisted corner 1 up to 7. The
/// emitted macro keeps every corner in its slot; replaying it on the
/// given twist vector zeroes corners 1 up to 7 and leaves the total twist
/// at corner 0, so a vector with total twist 0 mod 3 ends all zero.
#[verifier::rlimit(100)]
#[verifier::spinoff_prover]
pub fn solve_macro(o: [u8; 8]) -> (m: Macro)
    requires
        forall|t: int| 0 <= t < 8 ==> o[t] < 3,
    ensures
        m.moves@ == twist_moves_from(o@, 1),
        crate::positions::pos_net(m.moves@) == crate::permutations::id_perm(),
        ori_run(m.moves@, o@, m.moves@.len() as int).len() == 8,
        forall|t: int| 1 <= t < 8 ==> ori_run(m.moves@, o@, m.moves@.len() as int)[t] == 0,
        ori_run(m.moves@, o@, m.moves@.len() as int)[0] as int == sum3(o@) % 3,
        sum3(o@) % 3 == 0 ==> ori_run(m.moves@, o@, m.moves@.len() as int) =~= seq![
            0u8,
            0u8,
            0u8,
            0u8,
            0u8,
            0u8,
            0u8,
            0u8,
        ],
{
    let mut mac = Macro::identity();
    proof {
        assert(mac.moves@ =~= Seq::<Move>::empty());
        assert(crate::positions::pos_net(mac.moves@) =~= crate::permutations::id_perm());
        assert(mac.moves@ + twist_moves_from(o@, 1) =~= twist_moves_from(o@, 1));
    }
    let mut k: usize = 1;
    while k < 8
        invariant
            1 <= k <= 8,
            forall|t: int| 0 <= t < 8 ==> o[t] < 3,
            crate::positions::pos_net(mac.moves@) == crate::permutations::id_perm(),
            mac.moves@ + twist_moves_from(o@, k as int) == twist_moves_from(o@, 1),
            ori_run(mac.moves@, o@, mac.moves@.len() as int).len() == 8,
            forall|t: int|
                1 <= t < k ==> ori_run(mac.moves@, o@, mac.moves@.len() as int)[t] == 0,
            forall|t: int|
                k <= t < 8 ==> ori_run(mac.moves@, o@, mac.moves@.len() as int)[t] == o@[t],
            ori_run(mac.moves@, o@, mac.moves@.len() as int)[0] as int == (o@[0] + sum_to(
                o@,
                k as int,
            )) % 3,
        decreases 8 - k,
    {
        let t = o[k];
        let ghost oldmoves = mac.moves@;
        let ghost curold = ori_run(oldmoves, o@, oldmoves.len() as int);
        if t != 0 {
            let pair = if t == 1 {
                (0u8, k as u8)
            } else {
                (k as u8, 0u8)
            };
            let iu = pair.0;
            let ju = pair.1;
            push_twist_moves(&mut mac, iu, ju);
            proof {
                lemma_twist_step(oldmoves, o@, iu as int, ju as int);
                assert(twist_moves_from(o@, k as int) == twist_seq_for(iu as int, ju as int)
                    + twist_moves_from(o@, k + 1));
                assert(mac.moves@ + twist_moves_from(o@, k + 1) == twist_moves_from(o@, 1)) by {
                    assert(oldmoves + (twist_seq_for(iu as int, ju as int) + twist_moves_from(
                        o@,
                        k + 1,
                    )) =~= (oldmoves + twist_seq_for(iu as int, ju as int)) + twist_moves_from(
                        o@,
                        k + 1,
                    ));
                }
                let curn = ori_run(mac.moves@, o@, mac.moves@.len() as int);
                assert forall|t2: int| 1 <= t2 < k + 1 implies curn[t2] == 0 by {
                    assert(curn[t2] as int == (curold[t2] + twist_delta(
                        iu as int,
                        ju as int,
                        t2,
                    )) % 3);
                }
                assert forall|t2: int| k + 1 <= t2 < 8 implies curn[t2] == o@[t2] by {
                    assert(curn[t2] as int == (curold[t2] + twist_delta(
                        iu as int,
                        ju as int,
                        t2,
                    )) % 3);
                }
                assert(curn[0] as int == (curold[0] + twist_delta(iu as int, ju as int, 0)) % 3);
                lemma_mod3_shift(o@[0] + sum_to(o@, k as int), t as int);
                assert(curn[0] as int == (o@[0] + sum_to(o@, k + 1)) % 3);
            }
        } else {
            proof {
                assert(twist_moves_from(o@, k as int) == Seq::<Move>::empty() + twist_moves_from(
                    o@,
                    k + 1,
                ));
                assert(Seq::<Move>::empty() + twist_moves_from(o@, k + 1) =~= twist_moves_from(
                    o@,
                    k + 1,
                ));
                assert(sum_to(o@, k + 1) == sum_to(o@, k as int));
            }
        }
        k += 1;
    }
    proof {
        assert(mac.moves@ + twist_moves_from(o@, 8) == twist_moves_from(o@, 1));
        assert(mac.moves@ + twist_moves_from(o@, 8) =~= mac.moves@);
        let curf = ori_run(mac.moves@, o@, mac.moves@.len() as int);
        if sum3(o@) % 3 == 0 {
            assert(curf =~= seq![0u8, 0u8, 0u8, 0u8, 0u8, 0u8, 0u8, 0u8]);
        }
    }
    mac
}


/// The backward slot action of every quarter turn on every slot, as a
/// value table.
pub(crate) proof fn lemma_q_back_table()
    ensures

        q_back(0, 0, 0) == 2,
        q_back(0, 0, 1) == 1,
        q_back(0, 0, 2) == 6,
        q_back(0, 0, 3) == 3,
        q_back(0, 0, 4) == 0,
        q_back(0, 0, 5) == 5,
        q_back(0, 0, 6) == 4,
        q_back(0, 0, 7) == 7,
        q_back(0, 1, 0) == 0,
        q_back(0, 1, 1) == 5,
        q_back(0, 1, 2) == 2,
        q_back(0, 1, 3) == 1,
        q_back(0, 1, 4) == 4,
        q_back(0, 1, 5) == 7,
        q_back(0, 1, 6) == 6,
        q_back(0, 1, 7) == 3,
        q_back(1, 0, 0) == 4,
        q_back(1, 0, 1) == 0,
        q_back(1, 0, 2) == 2,
        q_back(1, 0, 3) == 3,
        q_back(1, 0, 4) == 5,
        q_back(1, 0, 5) == 1,
        q_back(1, 0, 6) == 6,
        q_back(1, 0, 7) == 7,
        q_back(1, 1, 0) == 0,
        q_back(1, 1, 1) == 1,
        q_back(1, 1, 2) == 3,
        q_back(1, 1, 3) == 7,
        q_back(1, 1, 4) == 4,
        q_back(1, 1, 5) == 5,
        q_back(1, 1, 6) == 2,
        q_back(1, 1, 7) == 6,
        q_back(2, 0, 0) == 1,
        q_back(2, 0, 1) == 3,
        q_back(2, 0, 2) == 0,
        q_back(2, 0, 3) == 2,
        q_back(2, 0, 4) == 4,
        q_back(2, 0, 5) == 5,
        q_back(2, 0, 6) == 6,
        q_back(2, 0, 7) == 7,
        q_back(2, 1, 0) == 0,
        q_back(2, 1, 1) == 1,
        q_back(2, 1, 2) == 2,
        q_back(2, 1, 3) == 3,
        q_back(2, 1, 4) == 6,
        q_back(2, 1, 5) == 4,
        q_back(2, 1, 6) == 7,
        q_back(2, 1, 7) == 5,
{
    reveal(crate::positions::rot1);
}

/// One quarter turn does not change the total twist mod 3: it permutes
/// the slots and adds a face's twist pattern, whose entries sum to a
/// multiple of three.
#[verifier::rlimit(100)]
#[verifier::spinoff_prover]
proof fn lemma_ori_q_sum(o: Seq<u8>, d: int, s: int)
    requires
        o.len() == 8,
        0 <= d < 3,
        0 <= s < 2,
    ensures
        sum3(ori_q(o, d, s)) % 3 == sum3(o) % 3,
{
    lemma_q_back_table();
    let n = ori_q(o, d, s);
    assert forall|j: int| 0 <= j < 8 implies 0 <= #[trigger] q_back(d, s, j) < 8 by {
        lemma_q_back_range(d, s, j);
    }
    let raw = (o[q_back(d, s, 0)] + chg(d, s, 0)) + (o[q_back(d, s, 1)] + chg(d, s, 1)) + (o[q_back(
        d,
        s,
        2,
    )] + chg(d, s, 2)) + (o[q_back(d, s, 3)] + chg(d, s, 3)) + (o[q_back(d, s, 4)] + chg(d, s, 4))
        + (o[q_back(d, s, 5)] + chg(d, s, 5)) + (o[q_back(d, s, 6)] + chg(d, s, 6)) + (o[q_back(
        d,
        s,
        7,
    )] + chg(d, s, 7));
    let q0 = (o[q_back(d, s, 0)] + chg(d, s, 0)) / 3;
    let q1 = (o[q_back(d, s, 1)] + chg(d, s, 1)) / 3;
    let q2 = (o[q_back(d, s, 2)] + chg(d, s, 2)) / 3;
    let q3 = (o[q_back(d, s, 3)] + chg(d, s, 3)) / 3;
    let q4 = (o[q_back(d, s, 4)] + chg(d, s, 4)) / 3;
    let q5 = (o[q_back(d, s, 5)] + chg(d, s, 5)) / 3;
    let q6 = (o[q_back(d, s, 6)] + chg(d, s, 6)) / 3;
    let q7 = (o[q_back(d, s, 7)] + chg(d, s, 7)) / 3;
    assert(sum3(n) % 3 == raw % 3) by {
        reveal_with_fuel(sum_to, 9);
        vstd::arithmetic::div_mod::lemma_fundamental_div_mod(o[q_back(d, s, 0)] + chg(d, s, 0), 3);
        vstd::arithmetic::div_mod::lemma_fundamental_div_mod(o[q_back(d, s, 1)] + chg(d, s, 1), 3);
        vstd::arithmetic::div_mod::lemma_fundamental_div_mod(o[q_back(d, s, 2)] + chg(d, s, 2), 3);
        vstd::arithmetic::div_mod::lemma_fundamental_div_mod(o[q_back(d, s, 3)] + chg(d, s, 3), 3);
        vstd::arithmetic::div_mod::lemma_fundamental_div_mod(o[q_back(d, s, 4)] + chg(d, s, 4), 3);
        vstd::arithmetic::div_mod::lemma_fundamental_div_mod(o[q_back(d, s, 5)] + chg(d, s, 5), 3);
        vstd::arithmetic::div_mod::lemma_fundamental_div_mod(o[q_back(d, s, 6)] + chg(d, s, 6), 3);
        vstd::arithmetic::div_mod::lemma_fundamental_div_mod(o[q_back(d, s, 7)] + chg(d, s, 7), 3);
        assert(sum3(n) == raw - 3 * (q0 + q1 + q2 + q3 + q4 + q5 + q6 + q7));
        vstd::arithmetic::div_mod::lemma_mod_multiples_vanish(
            q0 + q1 + q2 + q3 + q4 + q5 + q6 + q7,
            sum3(n),
            3,
        );
    }
    assert(raw % 3 == sum3(o) % 3) by {
        reveal_with_fuel(sum_to, 9);
        assert(chg(d, s, 0) + chg(d, s, 1) + chg(d, s, 2) + chg(d, s, 3) + chg(d, s, 4) + chg(
            d,
            s,
            5,
        ) + chg(d, s, 6) + chg(d, s, 7) == 6 || chg(d, s, 0) + chg(d, s, 1) + chg(d, s, 2) + chg(
            d,
            s,
            3,
        ) + chg(d, s, 4) + chg(d, s, 5) + chg(d, s, 6) + chg(d, s, 7) == 0);
        assert(o[q_back(d, s, 0)] + o[q_back(d, s, 1)] + o[q_back(d, s, 2)] + o[q_back(d, s, 3)]
            + o[q_back(d, s, 4)] + o[q_back(d, s, 5)] + o[q_back(d, s, 6)] + o[q_back(d, s, 7)]
            == o[0] + o[1] + o[2] + o[3] + o[4] + o[5] + o[6] + o[7]) by {
            if d == 0 {
            } else if d == 1 {
                if s == 0 {
                } else {
                }
            } else {
                if s == 0 {
                } else {
                }
            }
        }
        vstd::arithmetic::div_mod::lemma_mod_multiples_vanish(2, sum3(o), 3);
    }
}

/// One move does not change the total twist mod 3.
proof fn lemma_ori_step_sum(o: Seq<u8>, m: Move)
    requires
        o.len() == 8,
    ensures
        sum3(ori_step(o, m)) % 3 == sum3(o) % 3,
        ori_step(o, m).len() == 8,
{
    let d = move_axis(m);
    let s = move_sign(m);
    lemma_ori_q_sum(o, d, s);
    lemma_ori_q_sum(ori_q(o, d, s), d, s);
    lemma_ori_q_sum(ori_q(ori_q(o, d, s), d, s), d, s);
}

/// A run of moves does not change the total twist mod 3.
pub proof fn lemma_ori_run_sum(ms: Seq<Move>, o: Seq<u8>, n: int)
    requires
        o.len() == 8,
        0 <= n,
    ensures
        sum3(ori_run(ms, o, n)) % 3 == sum3(o) % 3,
        ori_run(ms, o, n).len() == 8,
    decreases n,
{
    if n > 0 {
        lemma_ori_run_sum(ms, o, n - 1);
        lemma_ori_step_sum(ori_run(ms, o, n - 1), ms[n - 1]);
    }
}


/// Replays a macro against a twist vector.
pub fn apply_macro(o: &mut [u8; 8], mac: &Macro)
    requires
        forall|t: int| 0 <= t < 8 ==> old(o)[t] < 3,
    ensures
        final(o)@ == ori_run(mac.moves@, old(o)@, mac.moves@.len() as int),
        forall|t: int| 0 <= t < 8 ==> final(o)[t] < 3,
{
    let n = mac.moves.len();
    let mut t: usize = 0;
    while t < n
        invariant
            t <= n,
            n == mac.moves@.len(),
            o@ == ori_run(mac.moves@, old(o)@, t as int),
            forall|k: int| 0 <= k < 8 ==> o[k] < 3,
        decreases n - t,
    {
        apply(o, &mac.moves[t]);
        t += 1;
    }
}

/// Checks statically that the twist macro for a pair of distinct corners
/// twists exactly that pair, one forward twist at the first corner and
/// two at the second, and leaves every corner in its slot.
#[verifier::rlimit(100)]
#[verifier::spinoff_prover]
pub fn test_twist(i: u8, j: u8)
    requires
        i < 8,
        j < 8,
        i != j,
{
    let mut mac = Macro::identity();
    push_twist_moves(&mut mac, i, j);
    proof {
        assert(mac.moves@ =~= twist_seq_for(i as int, j as int));
        crate::twist_cases::lemma_twist_macro(i as int, j as int);
    }
    let mut o = identity();
    let ghost zeros = o@;
    apply_macro(&mut o, &mac);
    let mut p: [u8; 8] = [0, 1, 2, 3, 4, 5, 6, 7];
    proof {
        assert(p@ =~= crate::permutations::id_perm());
    }
    crate::positions::apply_macro(&mut p, &mac);
    proof {
        let tw = twist_seq_for(i as int, j as int);
        let n = tw.len() as int;
        assert forall|t: int| 0 <= t < 8 implies o@[t] as int == twist_delta(
            i as int,
            j as int,
            t,
        ) by {
            lemma_ori_run_pointwise(tw, zeros, n, t);
            assert(zeros[ori_src(tw, n, t)] == 0);
            assert(ori_acc(tw, n, t) % 3 == twist_delta(i as int, j as int, t));
        }
        assert(o@[i as int] == 1 && o@[j as int] == 2);
        assert forall|t: int| 0 <= t < 8 && t != i && t != j implies o@[t] == 0 by {}
        assert forall|k: int| 0 <= k < 8 implies p@[k] as int == k by {
            crate::positions::lemma_pos_run_compose(
                tw,
                crate::permutations::id_perm(),
                n,
                k,
            );
            crate::positions::lemma_id_perm_at(k);
        }
    }
}

/// Checks statically, for every pair of distinct corners, that the twist
/// macro twists exactly that pair and moves nothing.
pub fn test_twists()
{
    let mut i: u8 = 0;
    while i < 8
        decreases 8 - i,
    {
        let mut j: u8 = 0;
        while j < 8
            invariant
                i < 8,
            decreases 8 - j,
        {
            if i != j {
                test_twist(i, j);
            }
            j += 1;
        }
        i += 1;
    }
}

/// Checks statically that the untwisting macro for a twist vector with
/// total twist 0 mod 3, replayed against that vector, ends all zero.
pub fn test_solve(o: [u8; 8])
    requires
        forall|t: int| 0 <= t < 8 ==> o[t] < 3,
        sum3(o@) % 3 == 0,
{
    let mac = solve_macro(o);
    let mut s = o;
    apply_macro(&mut s, &mac);
    proof {
        assert(s@ =~= seq![0u8, 0u8, 0u8, 0u8, 0u8, 0u8, 0u8, 0u8]);
    }
}


/// Whether an array is a twist vector a legal cube can show: every entry
/// below three, total twist 0 mod 3.
pub fn is_twist_vector(o: &[u8; 8]) -> (b: bool)
    ensures
        b == ((forall|t: int| 0 <= t < 8 ==> o[t] < 3) && sum3(o@) % 3 == 0),
{
    let mut total: u32 = 0;
    let mut t: usize = 0;
    while t < 8
        invariant
            t <= 8,
            forall|k: int| 0 <= k < t ==> o[k] < 3,
            t >= 1 ==> total as int == o@[0] + sum_to(o@, t as int),
            t == 0 ==> total == 0,
            total <= 2 * t as u32,
        decreases 8 - t,
    {
        if o[t] >= 3 {
            return false;
        }
        total = total + o[t] as u32;
        t += 1;
    }
    proof {
        assert(total as int == sum3(o@));
    }
    total % 3 == 0
}

} // verus!
