//! The position solver: simulating moves on the position vector, the three
//! families of transposition macros, and the macro that brings any corner
//! placement back to the solved one.

use vstd::prelude::*;
use crate::cube::{bit, popcount3, sm, Macro, Move};
use crate::permutations;
use crate::permutations::{id_perm, is_perm8, tswap};

verus! {

/// 2 raised to an axis index.
pub open spec fn pw(d: int) -> int {
    if d == 0 {
        1
    } else if d == 1 {
        2
    } else {
        4
    }
}

/// The bitwise exclusive or of two corner indices.
pub open spec fn bxor3(x: int, y: int) -> int {
    (bit(x, 0) + bit(y, 0)) % 2 + 2 * ((bit(x, 1) + bit(y, 1)) % 2) + 4 * ((bit(x, 2) + bit(
        y,
        2,
    )) % 2)
}

/// One quarter turn of the face at end s of axis d, acting on a corner
/// index: corners off the face stay, corners on the face rotate to the
/// neighbouring corner of the same face.
#[verifier::opaque]
pub open spec fn rot1(d: int, s: int, k: int) -> int {
    if bit(k, d) != s {
        k
    } else {
        let a1 = (d + 1) % 3;
        let a2 = (d + 2) % 3;
        let b1 = bit(k, a1);
        let b2 = bit(k, a2);
        let nb1 = if s == 1 {
            1 - b2
        } else {
            b2
        };
        let nb2 = if s == 0 {
            1 - b1
        } else {
            b1
        };
        sm(s, pw(d)) + sm(nb1, pw(a1)) + sm(nb2, pw(a2))
    }
}

/// A move's action on a corner index: its quarter turn, applied once,
/// twice or three times.
#[verifier::opaque]
pub open spec fn move_rot(m: Move, k: int) -> int {
    let d = crate::cube::move_axis(m);
    let s = crate::cube::move_sign(m);
    let c = crate::cube::move_quarters(m);
    if c == 1 {
        rot1(d, s, k)
    } else if c == 2 {
        rot1(d, s, rot1(d, s, k))
    } else {
        rot1(d, s, rot1(d, s, rot1(d, s, k)))
    }
}

/// One move applied to a position vector: every entry names a corner, and
/// the move relocates the corners on its face.
pub open spec fn pos_step(v: Seq<u8>, m: Move) -> Seq<u8> {
    Seq::new(8, |i: int| move_rot(m, v[i] as int) as u8)
}

/// The first n moves of a run applied to a position vector, first move
/// first.
pub open spec fn pos_run(ms: Seq<Move>, v: Seq<u8>, n: int) -> Seq<u8>
    decreases n,
{
    if n <= 0 {
        v
    } else {
        pos_step(pos_run(ms, v, n - 1), ms[n - 1])
    }
}

/// The permutation a run of moves performs: its effect on the identity
/// vector.
pub open spec fn pos_net(ms: Seq<Move>) -> Seq<u8> {
    pos_run(ms, id_perm(), ms.len() as int)
}

/// The permutation that swaps exactly the corners i and j.
pub open spec fn transposed(i: int, j: int) -> Seq<u8> {
    Seq::new(
        8,
        |k: int|
            if k == i {
                j as u8
            } else if k == j {
                i as u8
            } else {
                k as u8
            },
    )
}

/// A quarter turn sends corner indices to corner indices.
pub proof fn lemma_rot1_range(d: int, s: int, k: int)
    requires
        0 <= d < 3,
        0 <= s < 2,
        0 <= k < 8,
    ensures
        0 <= rot1(d, s, k) < 8,
{
    reveal(rot1);
}

/// A move's corner action sends corner indices to corner indices.
pub proof fn lemma_move_rot_range(m: Move, k: int)
    requires
        0 <= k < 8,
    ensures
        0 <= move_rot(m, k) < 8,
{
    reveal(move_rot);
    let d = crate::cube::move_axis(m);
    let s = crate::cube::move_sign(m);
    lemma_rot1_range(d, s, k);
    lemma_rot1_range(d, s, rot1(d, s, k));
    lemma_rot1_range(d, s, rot1(d, s, rot1(d, s, k)));
}

/// One quarter turn of a corner index.
pub(crate) fn rot_once(d: u8, s: u8, k: u8) -> (r: u8)
    requires
        d < 3,
        s < 2,
        k < 8,
    ensures
        r as int == rot1(d as int, s as int, k as int),
        r < 8,
{
    proof {
        reveal(rot1);
        lemma_rot1_range(d as int, s as int, k as int);
    }
    let bd = if d == 0 {
        k % 2
    } else if d == 1 {
        (k / 2) % 2
    } else {
        (k / 4) % 2
    };
    if bd != s {
        k
    } else {
        let a1 = (d + 1) % 3;
        let a2 = (d + 2) % 3;
        let b1 = if a1 == 0 {
            k % 2
        } else if a1 == 1 {
            (k / 2) % 2
        } else {
            (k / 4) % 2
        };
        let b2 = if a2 == 0 {
            k % 2
        } else if a2 == 1 {
            (k / 2) % 2
        } else {
            (k / 4) % 2
        };
        let nb1 = if s == 1 {
            1 - b2
        } else {
            b2
        };
        let nb2 = if s == 0 {
            1 - b1
        } else {
            b1
        };
        let p0 = if d == 0 {
            1
        } else if d == 1 {
            2
        } else {
            4
        };
        let p1 = if a1 == 0 {
            1
        } else if a1 == 1 {
            2
        } else {
            4
        };
        let p2 = if a2 == 0 {
            1
        } else if a2 == 1 {
            2
        } else {
            4
        };
        s * p0 + nb1 * p1 + nb2 * p2
    }
}

/// Applies one move to a position vector in place.
pub fn apply(positions: &mut [u8; 8], m: &Move)
    requires
        forall|i: int| 0 <= i < 8 ==> old(positions)[i] < 8,
    ensures
        final(positions)@ =~= pos_step(old(positions)@, *m),
        forall|i: int| 0 <= i < 8 ==> final(positions)[i] < 8,
{
    let idx = m.to_index();
    let f = idx / 3;
    let c = idx % 3 + 1;
    let d = f / 2;
    let s = f % 2;
    let ghost v0 = positions@;
    let mut p: usize = 0;
    while p < 8
        invariant
            p <= 8,
            d as int == crate::cube::move_axis(*m),
            s as int == crate::cube::move_sign(*m),
            c as int == crate::cube::move_quarters(*m),
            d < 3,
            s < 2,
            1 <= c <= 3,
            forall|i: int| 0 <= i < 8 ==> v0[i] < 8,
            positions@.len() == 8,
            forall|i: int| 0 <= i < p ==> positions[i] as int == move_rot(*m, v0[i] as int),
            forall|i: int| p <= i < 8 ==> positions[i] == v0[i],
        decreases 8 - p,
    {
        let mut k = positions[p];
        proof {
            reveal(move_rot);
            assert(k == v0[p as int]);
            assert(v0[p as int] < 8);
        }
        k = rot_once(d, s, k);
        if c >= 2 {
            k = rot_once(d, s, k);
        }
        if c == 3 {
            k = rot_once(d, s, k);
        }
        positions[p] = k;
        p += 1;
    }
    proof {
        assert forall|i: int| 0 <= i < 8 implies final(positions)[i] < 8 by {
            lemma_move_rot_range(*m, v0[i] as int);
        }
    }
}


/// Doubles the turn count when the frame is mirrored: c shifted left by
/// flag f.
pub open spec fn sh(c: int, f: int) -> int {
    if f == 1 {
        2 * c
    } else {
        c
    }
}

/// The move that turns the face at end sp of axis d by c quarter turns,
/// with the turn direction mirrored when the inversion flag f is set.
pub open spec fn fam_mv(d: int, sp: int, f: int, c: int) -> Move {
    Move::of_index(6 * d + 3 * sp + (2 + f + sh(c, f)) % 3)
}

/// Bit b of i, masked to the axes where i and the difference mask x agree
/// on zero: bit b of i AND NOT x.
pub open spec fn mask_bit(i: int, x: int, b: int) -> int {
    if bit(x, b) == 0 {
        bit(i, b)
    } else {
        0
    }
}

/// The eleven-move macro that swaps two corners differing in one axis bit.
pub open spec fn edge_seq(i: int, j: int) -> Seq<Move> {
    let x = bxor3(i, j);
    let d0 = x / 2;
    let f = (mask_bit(i, x, 0) + mask_bit(i, x, 1) + mask_bit(i, x, 2)) % 2;
    let da = (0 + d0) % 3;
    let db = (1 + d0) % 3;
    let dc = (2 + d0) % 3;
    let sa = mask_bit(i, x, da);
    let sb = mask_bit(i, x, db);
    let sc = mask_bit(i, x, dc);
    seq![
        fam_mv(dc, (0 + sc) % 2, f, 3),
        fam_mv(da, (1 + sa) % 2, f, 3),
        fam_mv(db, (1 + sb) % 2, f, 3),
        fam_mv(da, (1 + sa) % 2, f, 1),
        fam_mv(db, (1 + sb) % 2, f, 1),
        fam_mv(dc, (0 + sc) % 2, f, 1),
        fam_mv(da, (1 + sa) % 2, f, 3),
        fam_mv(db, (1 + sb) % 2, f, 3),
        fam_mv(da, (1 + sa) % 2, f, 1),
        fam_mv(db, (1 + sb) % 2, f, 1),
        fam_mv(dc, (0 + sc) % 2, f, 3),
    ]
}

/// The thirteen-move macro that swaps two corners differing in two axis
/// bits.
pub open spec fn diag_seq(i: int, j: int) -> Seq<Move> {
    let x = bxor3(i, j);
    let d0 = bxor3(x, 7) / 2;
    let f = popcount3(i) % 2;
    let da = (d0 + 1 + 0) % 3;
    let db = (d0 + 1 + 1) % 3;
    let dc = (d0 + 1 + 2) % 3;
    let sa = bit(i, da);
    let sb = bit(i, db);
    let sc = bit(i, dc);
    seq![
        fam_mv(da, (1 + sa) % 2, f, 3),
        fam_mv(dc, (0 + sc) % 2, f, 3),
        fam_mv(da, (1 + sa) % 2, f, 3),
        fam_mv(db, (1 + sb) % 2, f, 3),
        fam_mv(da, (1 + sa) % 2, f, 1),
        fam_mv(db, (1 + sb) % 2, f, 1),
        fam_mv(dc, (0 + sc) % 2, f, 1),
        fam_mv(da, (1 + sa) % 2, f, 3),
        fam_mv(db, (1 + sb) % 2, f, 3),
        fam_mv(da, (1 + sa) % 2, f, 1),
        fam_mv(db, (1 + sb) % 2, f, 1),
        fam_mv(dc, (0 + sc) % 2, f, 3),
        fam_mv(da, (1 + sa) % 2, f, 1),
    ]
}

/// The thirteen-move macro that swaps two corners differing in all three
/// axis bits.
pub open spec fn opposite_seq(i: int, j: int) -> Seq<Move> {
    let f = popcount3(i) % 2;
    seq![
        fam_mv(0, bit(i, 0), f, 2),
        fam_mv(2, bit(j, 2), f, 3),
        fam_mv(0, bit(j, 0), f, 3),
        fam_mv(1, bit(i, 1), f, 3),
        fam_mv(0, bit(j, 0), f, 1),
        fam_mv(1, bit(i, 1), f, 1),
        fam_mv(2, bit(j, 2), f, 1),
        fam_mv(0, bit(j, 0), f, 3),
        fam_mv(1, bit(i, 1), f, 3),
        fam_mv(0, bit(j, 0), f, 1),
        fam_mv(1, bit(i, 1), f, 1),
        fam_mv(2, bit(j, 2), f, 3),
        fam_mv(0, bit(i, 0), f, 2),
    ]
}

/// The macro that swaps corners i and j, chosen by how many axis bits
/// they differ in.
#[verifier::opaque]
pub open spec fn swap_seq_for(i: int, j: int) -> Seq<Move> {
    let pc = popcount3(bxor3(i, j));
    if pc == 1 {
        edge_seq(i, j)
    } else if pc == 2 {
        diag_seq(i, j)
    } else {
        opposite_seq(i, j)
    }
}

/// The swap macro for (i, j) performs exactly the transposition of i and
/// j on the position vector.
pub open spec fn swap_pair_ok(i: int, j: int) -> bool {
    pos_net(swap_seq_for(i, j)) == transposed(i, j)
}

#[verifier::rlimit(100)]
proof fn lemma_move_rot_vals_l1()
    ensures
        move_rot(Move::L1, 0) == 4,
        move_rot(Move::L1, 1) == 1,
        move_rot(Move::L1, 2) == 0,
        move_rot(Move::L1, 3) == 3,
        move_rot(Move::L1, 4) == 6,
        move_rot(Move::L1, 5) == 5,
        move_rot(Move::L1, 6) == 2,
        move_rot(Move::L1, 7) == 7,
{
    reveal(move_rot);
    reveal(rot1);
}

#[verifier::rlimit(100)]
proof fn lemma_move_rot_vals_l2()
    ensures
        move_rot(Move::L2, 0) == 6,
        move_rot(Move::L2, 1) == 1,
        move_rot(Move::L2, 2) == 4,
        move_rot(Move::L2, 3) == 3,
        move_rot(Move::L2, 4) == 2,
        move_rot(Move::L2, 5) == 5,
        move_rot(Move::L2, 6) == 0,
        move_rot(Move::L2, 7) == 7,
{
    reveal(move_rot);
    reveal(rot1);
}

#[verifier::rlimit(100)]
proof fn lemma_move_rot_vals_l3()
    ensures
        move_rot(Move::L3, 0) == 2,
        move_rot(Move::L3, 1) == 1,
        move_rot(Move::L3, 2) == 6,
        move_rot(Move::L3, 3) == 3,
        move_rot(Move::L3, 4) == 0,
        move_rot(Move::L3, 5) == 5,
        move_rot(Move::L3, 6) == 4,
        move_rot(Move::L3, 7) == 7,
{
    reveal(move_rot);
    reveal(rot1);
}

#[verifier::rlimit(100)]
proof fn lemma_move_rot_vals_r1()
    ensures
        move_rot(Move::R1, 0) == 0,
        move_rot(Move::R1, 1) == 3,
        move_rot(Move::R1, 2) == 2,
        move_rot(Move::R1, 3) == 7,
        move_rot(Move::R1, 4) == 4,
        move_rot(Move::R1, 5) == 1,
        move_rot(Move::R1, 6) == 6,
        move_rot(Move::R1, 7) == 5,
{
    reveal(move_rot);
    reveal(rot1);
}

#[verifier::rlimit(100)]
proof fn lemma_move_rot_vals_r2()
    ensures
        move_rot(Move::R2, 0) == 0,
        move_rot(Move::R2, 1) == 7,
        move_rot(Move::R2, 2) == 2,
        move_rot(Move::R2, 3) == 5,
        move_rot(Move::R2, 4) == 4,
        move_rot(Move::R2, 5) == 3,
        move_rot(Move::R2, 6) == 6,
        move_rot(Move::R2, 7) == 1,
{
    reveal(move_rot);
    reveal(rot1);
}

#[verifier::rlimit(100)]
proof fn lemma_move_rot_vals_r3()
    ensures
        move_rot(Move::R3, 0) == 0,
        move_rot(Move::R3, 1) == 5,
        move_rot(Move::R3, 2) == 2,
        move_rot(Move::R3, 3) == 1,
        move_rot(Move::R3, 4) == 4,
        move_rot(Move::R3, 5) == 7,
        move_rot(Move::R3, 6) == 6,
        move_rot(Move::R3, 7) == 3,
{
    reveal(move_rot);
    reveal(rot1);
}

#[verifier::rlimit(100)]
proof fn lemma_move_rot_vals_d1()
    ensures
        move_rot(Move::D1, 0) == 1,
        move_rot(Move::D1, 1) == 5,
        move_rot(Move::D1, 2) == 2,
        move_rot(Move::D1, 3) == 3,
        move_rot(Move::D1, 4) == 0,
        move_rot(Move::D1, 5) == 4,
        move_rot(Move::D1, 6) == 6,
        move_rot(Move::D1, 7) == 7,
{
    reveal(move_rot);
    reveal(rot1);
}

#[verifier::rlimit(100)]
proof fn lemma_move_rot_vals_d2()
    ensures
        move_rot(Move::D2, 0) == 5,
        move_rot(Move::D2, 1) == 4,
        move_rot(Move::D2, 2) == 2,
        move_rot(Move::D2, 3) == 3,
        move_rot(Move::D2, 4) == 1,
        move_rot(Move::D2, 5) == 0,
        move_rot(Move::D2, 6) == 6,
        move_rot(Move::D2, 7) == 7,
{
    reveal(move_rot);
    reveal(rot1);
}

#[verifier::rlimit(100)]
proof fn lemma_move_rot_vals_d3()
    ensures
        move_rot(Move::D3, 0) == 4,
        move_rot(Move::D3, 1) == 0,
        move_rot(Move::D3, 2) == 2,
        move_rot(Move::D3, 3) == 3,
        move_rot(Move::D3, 4) == 5,
        move_rot(Move::D3, 5) == 1,
        move_rot(Move::D3, 6) == 6,
        move_rot(Move::D3, 7) == 7,
{
    reveal(move_rot);
    reveal(rot1);
}

#[verifier::rlimit(100)]
proof fn lemma_move_rot_vals_u1()
    ensures
        move_rot(Move::U1, 0) == 0,
        move_rot(Move::U1, 1) == 1,
        move_rot(Move::U1, 2) == 6,
        move_rot(Move::U1, 3) == 2,
        move_rot(Move::U1, 4) == 4,
        move_rot(Move::U1, 5) == 5,
        move_rot(Move::U1, 6) == 7,
        move_rot(Move::U1, 7) == 3,
{
    reveal(move_rot);
    reveal(rot1);
}

#[verifier::rlimit(100)]
proof fn lemma_move_rot_vals_u2()
    ensures
        move_rot(Move::U2, 0) == 0,
        move_rot(Move::U2, 1) == 1,
        move_rot(Move::U2, 2) == 7,
        move_rot(Move::U2, 3) == 6,
        move_rot(Move::U2, 4) == 4,
        move_rot(Move::U2, 5) == 5,
        move_rot(Move::U2, 6) == 3,
        move_rot(Move::U2, 7) == 2,
{
    reveal(move_rot);
    reveal(rot1);
}

#[verifier::rlimit(100)]
proof fn lemma_move_rot_vals_u3()
    ensures
        move_rot(Move::U3, 0) == 0,
        move_rot(Move::U3, 1) == 1,
        move_rot(Move::U3, 2) == 3,
        move_rot(Move::U3, 3) == 7,
        move_rot(Move::U3, 4) == 4,
        move_rot(Move::U3, 5) == 5,
        move_rot(Move::U3, 6) == 2,
        move_rot(Move::U3, 7) == 6,
{
    reveal(move_rot);
    reveal(rot1);
}

#[verifier::rlimit(100)]
proof fn lemma_move_rot_vals_b1()
    ensures
        move_rot(Move::B1, 0) == 2,
        move_rot(Move::B1, 1) == 0,
        move_rot(Move::B1, 2) == 3,
        move_rot(Move::B1, 3) == 1,
        move_rot(Move::B1, 4) == 4,
        move_rot(Move::B1, 5) == 5,
        move_rot(Move::B1, 6) == 6,
        move_rot(Move::B1, 7) == 7,
{
    reveal(move_rot);
    reveal(rot1);
}

#[verifier::rlimit(100)]
proof fn lemma_move_rot_vals_b2()
    ensures
        move_rot(Move::B2, 0) == 3,
        move_rot(Move::B2, 1) == 2,
        move_rot(Move::B2, 2) == 1,
        move_rot(Move::B2, 3) == 0,
        move_rot(Move::B2, 4) == 4,
        move_rot(Move::B2, 5) == 5,
        move_rot(Move::B2, 6) == 6,
        move_rot(Move::B2, 7) == 7,
{
    reveal(move_rot);
    reveal(rot1);
}

#[verifier::rlimit(100)]
proof fn lemma_move_rot_vals_b3()
    ensures
        move_rot(Move::B3, 0) == 1,
        move_rot(Move::B3, 1) == 3,
        move_rot(Move::B3, 2) == 0,
        move_rot(Move::B3, 3) == 2,
        move_rot(Move::B3, 4) == 4,
        move_rot(Move::B3, 5) == 5,
        move_rot(Move::B3, 6) == 6,
        move_rot(Move::B3, 7) == 7,
{
    reveal(move_rot);
    reveal(rot1);
}

#[verifier::rlimit(100)]
proof fn lemma_move_rot_vals_f1()
    ensures
        move_rot(Move::F1, 0) == 0,
        move_rot(Move::F1, 1) == 1,
        move_rot(Move::F1, 2) == 2,
        move_rot(Move::F1, 3) == 3,
        move_rot(Move::F1, 4) == 5,
        move_rot(Move::F1, 5) == 7,
        move_rot(Move::F1, 6) == 4,
        move_rot(Move::F1, 7) == 6,
{
    reveal(move_rot);
    reveal(rot1);
}

#[verifier::rlimit(100)]
proof fn lemma_move_rot_vals_f2()
    ensures
        move_rot(Move::F2, 0) == 0,
        move_rot(Move::F2, 1) == 1,
        move_rot(Move::F2, 2) == 2,
        move_rot(Move::F2, 3) == 3,
        move_rot(Move::F2, 4) == 7,
        move_rot(Move::F2, 5) == 6,
        move_rot(Move::F2, 6) == 5,
        move_rot(Move::F2, 7) == 4,
{
    reveal(move_rot);
    reveal(rot1);
}

#[verifier::rlimit(100)]
proof fn lemma_move_rot_vals_f3()
    ensures
        move_rot(Move::F3, 0) == 0,
        move_rot(Move::F3, 1) == 1,
        move_rot(Move::F3, 2) == 2,
        move_rot(Move::F3, 3) == 3,
        move_rot(Move::F3, 4) == 6,
        move_rot(Move::F3, 5) == 4,
        move_rot(Move::F3, 6) == 7,
        move_rot(Move::F3, 7) == 5,
{
    reveal(move_rot);
    reveal(rot1);
}

/// The corner action of every move on every corner, as a value table:
/// proving it once lets every macro replay below go by plain rewriting.
pub proof fn lemma_move_rot_table()
    ensures
        move_rot(Move::L1, 0) == 4,
        move_rot(Move::L1, 1) == 1,
        move_rot(Move::L1, 2) == 0,
        move_rot(Move::L1, 3) == 3,
        move_rot(Move::L1, 4) == 6,
        move_rot(Move::L1, 5) == 5,
        move_rot(Move::L1, 6) == 2,
        move_rot(Move::L1, 7) == 7,
        move_rot(Move::L2, 0) == 6,
        move_rot(Move::L2, 1) == 1,
        move_rot(Move::L2, 2) == 4,
        move_rot(Move::L2, 3) == 3,
        move_rot(Move::L2, 4) == 2,
        move_rot(Move::L2, 5) == 5,
        move_rot(Move::L2, 6) == 0,
        move_rot(Move::L2, 7) == 7,
        move_rot(Move::L3, 0) == 2,
        move_rot(Move::L3, 1) == 1,
        move_rot(Move::L3, 2) == 6,
        move_rot(Move::L3, 3) == 3,
        move_rot(Move::L3, 4) == 0,
        move_rot(Move::L3, 5) == 5,
        move_rot(Move::L3, 6) == 4,
        move_rot(Move::L3, 7) == 7,
        move_rot(Move::R1, 0) == 0,
        move_rot(Move::R1, 1) == 3,
        move_rot(Move::R1, 2) == 2,
        move_rot(Move::R1, 3) == 7,
        move_rot(Move::R1, 4) == 4,
        move_rot(Move::R1, 5) == 1,
        move_rot(Move::R1, 6) == 6,
        move_rot(Move::R1, 7) == 5,
        move_rot(Move::R2, 0) == 0,
        move_rot(Move::R2, 1) == 7,
        move_rot(Move::R2, 2) == 2,
        move_rot(Move::R2, 3) == 5,
        move_rot(Move::R2, 4) == 4,
        move_rot(Move::R2, 5) == 3,
        move_rot(Move::R2, 6) == 6,
        move_rot(Move::R2, 7) == 1,
        move_rot(Move::R3, 0) == 0,
        move_rot(Move::R3, 1) == 5,
        move_rot(Move::R3, 2) == 2,
        move_rot(Move::R3, 3) == 1,
        move_rot(Move::R3, 4) == 4,
        move_rot(Move::R3, 5) == 7,
        move_rot(Move::R3, 6) == 6,
        move_rot(Move::R3, 7) == 3,
        move_rot(Move::D1, 0) == 1,
        move_rot(Move::D1, 1) == 5,
        move_rot(Move::D1, 2) == 2,
        move_rot(Move::D1, 3) == 3,
        move_rot(Move::D1, 4) == 0,
        move_rot(Move::D1, 5) == 4,
        move_rot(Move::D1, 6) == 6,
        move_rot(Move::D1, 7) == 7,
        move_rot(Move::D2, 0) == 5,
        move_rot(Move::D2, 1) == 4,
        move_rot(Move::D2, 2) == 2,
        move_rot(Move::D2, 3) == 3,
        move_rot(Move::D2, 4) == 1,
        move_rot(Move::D2, 5) == 0,
        move_rot(Move::D2, 6) == 6,
        move_rot(Move::D2, 7) == 7,
        move_rot(Move::D3, 0) == 4,
        move_rot(Move::D3, 1) == 0,
        move_rot(Move::D3, 2) == 2,
        move_rot(Move::D3, 3) == 3,
        move_rot(Move::D3, 4) == 5,
        move_rot(Move::D3, 5) == 1,
        move_rot(Move::D3, 6) == 6,
        move_rot(Move::D3, 7) == 7,
        move_rot(Move::U1, 0) == 0,
        move_rot(Move::U1, 1) == 1,
        move_rot(Move::U1, 2) == 6,
        move_rot(Move::U1, 3) == 2,
        move_rot(Move::U1, 4) == 4,
        move_rot(Move::U1, 5) == 5,
        move_rot(Move::U1, 6) == 7,
        move_rot(Move::U1, 7) == 3,
        move_rot(Move::U2, 0) == 0,
        move_rot(Move::U2, 1) == 1,
        move_rot(Move::U2, 2) == 7,
        move_rot(Move::U2, 3) == 6,
        move_rot(Move::U2, 4) == 4,
        move_rot(Move::U2, 5) == 5,
        move_rot(Move::U2, 6) == 3,
        move_rot(Move::U2, 7) == 2,
        move_rot(Move::U3, 0) == 0,
        move_rot(Move::U3, 1) == 1,
        move_rot(Move::U3, 2) == 3,
        move_rot(Move::U3, 3) == 7,
        move_rot(Move::U3, 4) == 4,
        move_rot(Move::U3, 5) == 5,
        move_rot(Move::U3, 6) == 2,
        move_rot(Move::U3, 7) == 6,
        move_rot(Move::B1, 0) == 2,
        move_rot(Move::B1, 1) == 0,
        move_rot(Move::B1, 2) == 3,
        move_rot(Move::B1, 3) == 1,
        move_rot(Move::B1, 4) == 4,
        move_rot(Move::B1, 5) == 5,
        move_rot(Move::B1, 6) == 6,
        move_rot(Move::B1, 7) == 7,
        move_rot(Move::B2, 0) == 3,
        move_rot(Move::B2, 1) == 2,
        move_rot(Move::B2, 2) == 1,
        move_rot(Move::B2, 3) == 0,
        move_rot(Move::B2, 4) == 4,
        move_rot(Move::B2, 5) == 5,
        move_rot(Move::B2, 6) == 6,
        move_rot(Move::B2, 7) == 7,
        move_rot(Move::B3, 0) == 1,
        move_rot(Move::B3, 1) == 3,
        move_rot(Move::B3, 2) == 0,
        move_rot(Move::B3, 3) == 2,
        move_rot(Move::B3, 4) == 4,
        move_rot(Move::B3, 5) == 5,
        move_rot(Move::B3, 6) == 6,
        move_rot(Move::B3, 7) == 7,
        move_rot(Move::F1, 0) == 0,
        move_rot(Move::F1, 1) == 1,
        move_rot(Move::F1, 2) == 2,
        move_rot(Move::F1, 3) == 3,
        move_rot(Move::F1, 4) == 5,
        move_rot(Move::F1, 5) == 7,
        move_rot(Move::F1, 6) == 4,
        move_rot(Move::F1, 7) == 6,
        move_rot(Move::F2, 0) == 0,
        move_rot(Move::F2, 1) == 1,
        move_rot(Move::F2, 2) == 2,
        move_rot(Move::F2, 3) == 3,
        move_rot(Move::F2, 4) == 7,
        move_rot(Move::F2, 5) == 6,
        move_rot(Move::F2, 6) == 5,
        move_rot(Move::F2, 7) == 4,
        move_rot(Move::F3, 0) == 0,
        move_rot(Move::F3, 1) == 1,
        move_rot(Move::F3, 2) == 2,
        move_rot(Move::F3, 3) == 3,
        move_rot(Move::F3, 4) == 6,
        move_rot(Move::F3, 5) == 4,
        move_rot(Move::F3, 6) == 7,
        move_rot(Move::F3, 7) == 5,
{
    lemma_move_rot_vals_l1();
    lemma_move_rot_vals_l2();
    lemma_move_rot_vals_l3();
    lemma_move_rot_vals_r1();
    lemma_move_rot_vals_r2();
    lemma_move_rot_vals_r3();
    lemma_move_rot_vals_d1();
    lemma_move_rot_vals_d2();
    lemma_move_rot_vals_d3();
    lemma_move_rot_vals_u1();
    lemma_move_rot_vals_u2();
    lemma_move_rot_vals_u3();
    lemma_move_rot_vals_b1();
    lemma_move_rot_vals_b2();
    lemma_move_rot_vals_b3();
    lemma_move_rot_vals_f1();
    lemma_move_rot_vals_f2();
    lemma_move_rot_vals_f3();
}


/// The corner a value travels to under the first n moves of a run: the
/// run's action is pointwise, so one corner can be followed alone.
pub open spec fn iter_rot(ms: Seq<Move>, n: int, x: int) -> int
    decreases n,
{
    if n <= 0 {
        x
    } else {
        move_rot(ms[n - 1], iter_rot(ms, n - 1, x))
    }
}

/// A run acts on a position vector entry by entry: entry i after n moves
/// is entry i followed through the moves alone.
pub proof fn lemma_pos_run_pointwise(ms: Seq<Move>, v: Seq<u8>, n: int, i: int)
    requires
        v.len() == 8,
        forall|k: int| 0 <= k < 8 ==> v[k] < 8,
        0 <= i < 8,
        0 <= n,
    ensures
        pos_run(ms, v, n).len() == 8,
        pos_run(ms, v, n)[i] as int == iter_rot(ms, n, v[i] as int),
    decreases n,
{
    if n > 0 {
        lemma_pos_run_pointwise(ms, v, n - 1, i);
        assert(move_rot(ms[n - 1], iter_rot(ms, n - 1, v[i] as int)) as u8 as int == iter_rot(
            ms,
            n,
            v[i] as int,
        )) by {
            lemma_iter_rot_range(ms, n - 1, v[i] as int);
            lemma_move_rot_range(ms[n - 1], iter_rot(ms, n - 1, v[i] as int));
        }
    }
}

/// Following a corner index through any run keeps it a corner index.
pub proof fn lemma_iter_rot_range(ms: Seq<Move>, n: int, x: int)
    requires
        0 <= x < 8,
        0 <= n,
    ensures
        0 <= iter_rot(ms, n, x) < 8,
    decreases n,
{
    if n > 0 {
        lemma_iter_rot_range(ms, n - 1, x);
        lemma_move_rot_range(ms[n - 1], iter_rot(ms, n - 1, x));
    }
}


/// A run reads only the moves below n.
pub(crate) proof fn lemma_pos_run_prefix(ms1: Seq<Move>, ms2: Seq<Move>, v: Seq<u8>, n: int)
    requires
        0 <= n,
        forall|k: int| 0 <= k < n ==> ms1[k] == ms2[k],
    ensures
        pos_run(ms1, v, n) == pos_run(ms2, v, n),
    decreases n,
{
    if n > 0 {
        lemma_pos_run_prefix(ms1, ms2, v, n - 1);
    }
}

/// Running a concatenation equals running the parts in order.
pub(crate) proof fn lemma_pos_run_append(ms1: Seq<Move>, ms2: Seq<Move>, v: Seq<u8>, n2: int)
    requires
        0 <= n2 <= ms2.len(),
    ensures
        pos_run(ms1 + ms2, v, ms1.len() + n2) == pos_run(ms2, pos_run(ms1, v, ms1.len() as int), n2),
    decreases n2,
{
    if n2 == 0 {
        lemma_pos_run_prefix(ms1 + ms2, ms1, v, ms1.len() as int);
    } else {
        lemma_pos_run_append(ms1, ms2, v, n2 - 1);
        assert((ms1 + ms2)[ms1.len() + n2 - 1] == ms2[n2 - 1]);
    }
}

/// The identity permutation maps every index to itself.
pub(crate) proof fn lemma_id_perm_at(x: int)
    requires
        0 <= x < 8,
    ensures
        id_perm()[x] as int == x,
{
    if x == 0 {
        assert(id_perm()[0] == 0u8);
    } else if x == 1 {
        assert(id_perm()[1] == 1u8);
    } else if x == 2 {
        assert(id_perm()[2] == 2u8);
    } else if x == 3 {
        assert(id_perm()[3] == 3u8);
    } else if x == 4 {
        assert(id_perm()[4] == 4u8);
    } else if x == 5 {
        assert(id_perm()[5] == 5u8);
    } else if x == 6 {
        assert(id_perm()[6] == 6u8);
    } else {
        assert(id_perm()[7] == 7u8);
    }
}

/// Entry k of a run from any start vector is the run's permutation read at
/// the start vector's entry k: runs compose through their net effect.
pub proof fn lemma_pos_run_compose(ms: Seq<Move>, w: Seq<u8>, n: int, k: int)
    requires
        w.len() == 8,
        forall|t: int| 0 <= t < 8 ==> w[t] < 8,
        0 <= k < 8,
        0 <= n,
    ensures
        pos_run(ms, w, n)[k] == pos_run(ms, id_perm(), n)[w[k] as int],
{
    lemma_pos_run_pointwise(ms, w, n, k);
    lemma_pos_run_pointwise(ms, id_perm(), n, w[k] as int);
    lemma_id_perm_at(w[k] as int);
}

/// Entries of a run from a vector of corner indices stay corner indices.
pub proof fn lemma_pos_run_range(ms: Seq<Move>, w: Seq<u8>, n: int, k: int)
    requires
        w.len() == 8,
        forall|t: int| 0 <= t < 8 ==> w[t] < 8,
        0 <= k < 8,
        0 <= n,
    ensures
        pos_run(ms, w, n)[k] < 8,
        pos_run(ms, w, n).len() == 8,
{
    lemma_pos_run_pointwise(ms, w, n, k);
    lemma_iter_rot_range(ms, n, w[k] as int);
}

/// The bitwise exclusive or of two corner indices.
pub(crate) fn xor3(i: u8, j: u8) -> (r: u8)
    requires
        i < 8,
        j < 8,
    ensures
        r as int == bxor3(i as int, j as int),
        r < 8,
{
    (i % 2 + j % 2) % 2 + 2 * (((i / 2) % 2 + (j / 2) % 2) % 2) + 4 * (((i / 4) % 2 + (j / 4) % 2)
        % 2)
}

/// The move that turns the face at end sp of axis d by c quarter turns,
/// mirrored when the inversion flag f is set.
pub(crate) fn family_move(d: u8, sp: u8, f: u8, c: u8) -> (r: Move)
    requires
        d < 3,
        sp < 2,
        f < 2,
        1 <= c <= 3,
    ensures
        r == fam_mv(d as int, sp as int, f as int, c as int),
{
    let cc = if f == 1 {
        2 * c
    } else {
        c
    };
    Move::from(6 * d + 3 * sp + (2 + f + cc) % 3)
}

/// Bit b of a corner index.
pub(crate) fn bit_of(k: u8, b: u8) -> (r: u8)
    requires
        k < 8,
        b < 3,
    ensures
        r as int == bit(k as int, b as int),
        r < 2,
{
    if b == 0 {
        k % 2
    } else if b == 1 {
        (k / 2) % 2
    } else {
        (k / 4) % 2
    }
}

/// The eleven-move macro that swaps two corners differing in one axis bit.
#[verifier::rlimit(100)]
#[verifier::spinoff_prover]
pub fn swap_edge_moves(i: u8, j: u8) -> (r: [Move; 11])
    requires
        i < 8,
        j < 8,
        popcount3(bxor3(i as int, j as int)) == 1,
    ensures
        r@ =~= edge_seq(i as int, j as int),
{
    let x = xor3(i, j);
    let d0 = x / 2;
    let mb0 = if x % 2 == 0 {
        i % 2
    } else {
        0
    };
    let mb1 = if (x / 2) % 2 == 0 {
        (i / 2) % 2
    } else {
        0
    };
    let mb2 = if (x / 4) % 2 == 0 {
        (i / 4) % 2
    } else {
        0
    };
    let f = (mb0 + mb1 + mb2) % 2;
    let da = (0 + d0) % 3;
    let db = (1 + d0) % 3;
    let dc = (2 + d0) % 3;
    let sa = if da == 0 {
        mb0
    } else if da == 1 {
        mb1
    } else {
        mb2
    };
    let sb = if db == 0 {
        mb0
    } else if db == 1 {
        mb1
    } else {
        mb2
    };
    let sc = if dc == 0 {
        mb0
    } else if dc == 1 {
        mb1
    } else {
        mb2
    };
    [
        family_move(dc, (0 + sc) % 2, f, 3),
        family_move(da, (1 + sa) % 2, f, 3),
        family_move(db, (1 + sb) % 2, f, 3),
        family_move(da, (1 + sa) % 2, f, 1),
        family_move(db, (1 + sb) % 2, f, 1),
        family_move(dc, (0 + sc) % 2, f, 1),
        family_move(da, (1 + sa) % 2, f, 3),
        family_move(db, (1 + sb) % 2, f, 3),
        family_move(da, (1 + sa) % 2, f, 1),
        family_move(db, (1 + sb) % 2, f, 1),
        family_move(dc, (0 + sc) % 2, f, 3),
    ]
}

/// The thirteen-move macro that swaps two corners differing in two axis
/// bits.
#[verifier::rlimit(100)]
#[verifier::spinoff_prover]
pub fn swap_diag_moves(i: u8, j: u8) -> (r: [Move; 13])
    requires
        i < 8,
        j < 8,
        popcount3(bxor3(i as int, j as int)) == 2,
    ensures
        r@ =~= diag_seq(i as int, j as int),
{
    let x = xor3(i, j);
    let x7 = (x % 2 + 1) % 2 + 2 * (((x / 2) % 2 + 1) % 2) + 4 * (((x / 4) % 2 + 1) % 2);
    proof {
        assert(x7 as int == bxor3(x as int, 7));
    }
    let d0 = x7 / 2;
    let f = (i % 2 + (i / 2) % 2 + (i / 4) % 2) % 2;
    let da = (d0 + 1 + 0) % 3;
    let db = (d0 + 1 + 1) % 3;
    let dc = (d0 + 1 + 2) % 3;
    let sa = bit_of(i, da);
    let sb = bit_of(i, db);
    let sc = bit_of(i, dc);
    [
        family_move(da, (1 + sa) % 2, f, 3),
        family_move(dc, (0 + sc) % 2, f, 3),
        family_move(da, (1 + sa) % 2, f, 3),
        family_move(db, (1 + sb) % 2, f, 3),
        family_move(da, (1 + sa) % 2, f, 1),
        family_move(db, (1 + sb) % 2, f, 1),
        family_move(dc, (0 + sc) % 2, f, 1),
        family_move(da, (1 + sa) % 2, f, 3),
        family_move(db, (1 + sb) % 2, f, 3),
        family_move(da, (1 + sa) % 2, f, 1),
        family_move(db, (1 + sb) % 2, f, 1),
        family_move(dc, (0 + sc) % 2, f, 3),
        family_move(da, (1 + sa) % 2, f, 1),
    ]
}

/// The thirteen-move macro that swaps two corners differing in all three
/// axis bits.
#[verifier::rlimit(100)]
#[verifier::spinoff_prover]
pub fn swap_opposite_moves(i: u8, j: u8) -> (r: [Move; 13])
    requires
        i < 8,
        j < 8,
        popcount3(bxor3(i as int, j as int)) == 3,
    ensures
        r@ =~= opposite_seq(i as int, j as int),
{
    let f = (i % 2 + (i / 2) % 2 + (i / 4) % 2) % 2;
    let bi0 = i % 2;
    let bi1 = (i / 2) % 2;
    let bj0 = j % 2;
    let bj2 = (j / 4) % 2;
    [
        family_move(0, bi0, f, 2),
        family_move(2, bj2, f, 3),
        family_move(0, bj0, f, 3),
        family_move(1, bi1, f, 3),
        family_move(0, bj0, f, 1),
        family_move(1, bi1, f, 1),
        family_move(2, bj2, f, 1),
        family_move(0, bj0, f, 3),
        family_move(1, bi1, f, 3),
        family_move(0, bj0, f, 1),
        family_move(1, bi1, f, 1),
        family_move(2, bj2, f, 3),
        family_move(0, bi0, f, 2),
    ]
}

/// Appends moves to a macro.
pub(crate) fn extend_macro(mac: &mut Macro, arr: &[Move])
    ensures
        final(mac).moves@ == old(mac).moves@ + arr@,
{
    let mut k: usize = 0;
    while k < arr.len()
        invariant
            k <= arr.len(),
            mac.moves@ == old(mac).moves@ + arr@.take(k as int),
        decreases arr.len() - k,
    {
        mac.moves.push(arr[k]);
        proof {
            assert(old(mac).moves@ + arr@.take(k as int) + seq![arr@[k as int]] =~= old(
                mac,
            ).moves@ + arr@.take(k + 1));
        }
        k += 1;
    }
    proof {
        assert(arr@.take(arr@.len() as int) =~= arr@);
    }
}


/// Two distinct corner indices differ in one, two or three axis bits.
pub proof fn lemma_bxor3_pc(i: int, j: int)
    requires
        0 <= i < 8,
        0 <= j < 8,
        i != j,
    ensures
        0 <= bxor3(i, j) < 8,
        1 <= popcount3(bxor3(i, j)) <= 3,
{
    if bit(i, 0) == bit(j, 0) && bit(i, 1) == bit(j, 1) && bit(i, 2) == bit(j, 2) {
        assert(i == bit(i, 0) + 2 * bit(i, 1) + 4 * bit(i, 2));
        assert(j == bit(j, 0) + 2 * bit(j, 1) + 4 * bit(j, 2));
    }
}

/// Appending the swap macro for (i, j) to a run composes the transposition
/// of i and j onto the run's permutation.
proof fn lemma_solve_step(oldmoves: Seq<Move>, ii: int, jj: int)
    requires
        0 <= ii < 8,
        0 <= jj < 8,
        ii != jj,
        pos_net(oldmoves).len() == 8,
        forall|t: int| 0 <= t < 8 ==> pos_net(oldmoves)[t] < 8,
    ensures
        ({
            let newm = oldmoves + swap_seq_for(ii, jj);
            &&& pos_net(newm).len() == 8
            &&& (forall|t: int| 0 <= t < 8 ==> pos_net(newm)[t] < 8)
            &&& pos_net(newm) == tswap(ii, jj, pos_net(oldmoves))
        }),
{
    let sw = swap_seq_for(ii, jj);
    let gpre = pos_net(oldmoves);
    let newm = oldmoves + sw;
    crate::swap_cases::lemma_swap_macro(ii, jj);
    lemma_pos_run_append(oldmoves, sw, id_perm(), sw.len() as int);
    assert forall|k: int| 0 <= k < 8 implies #[trigger] pos_net(newm)[k] == tswap(ii, jj, gpre)[k] by {
        lemma_pos_run_compose(sw, gpre, sw.len() as int, k);
    }
    assert forall|k: int| 0 <= k < 8 implies #[trigger] pos_net(newm)[k] < 8 by {
        lemma_pos_run_range(sw, gpre, sw.len() as int, k);
    }
    lemma_pos_run_range(sw, gpre, sw.len() as int, 0);
    assert(pos_net(newm) =~= tswap(ii, jj, gpre));
}

/// Appends to the macro the swap macro the pair's axis distance selects.
#[verifier::rlimit(100)]
#[verifier::spinoff_prover]
fn push_swap_moves(mac: &mut Macro, i: u8, j: u8)
    requires
        i < 8,
        j < 8,
        i != j,
    ensures
        final(mac).moves@ == old(mac).moves@ + swap_seq_for(i as int, j as int),
{
    proof {
        reveal(swap_seq_for);
        lemma_bxor3_pc(i as int, j as int);
    }
    let x = xor3(i, j);
    let pc = x % 2 + (x / 2) % 2 + (x / 4) % 2;
    if pc == 1 {
        let arr = swap_edge_moves(i, j);
        extend_macro(mac, &arr);
        proof {
            assert(arr@ =~= swap_seq_for(i as int, j as int));
        }
    } else if pc == 2 {
        let arr = swap_diag_moves(i, j);
        extend_macro(mac, &arr);
        proof {
            assert(arr@ =~= swap_seq_for(i as int, j as int));
        }
    } else {
        let arr = swap_opposite_moves(i, j);
        extend_macro(mac, &arr);
        proof {
            assert(arr@ =~= swap_seq_for(i as int, j as int));
        }
    }
}

/// The concatenation of the swap macros for a list of transpositions, in
/// order.
pub open spec fn swaps_moves(ps: Seq<(int, int)>) -> Seq<Move>
    decreases ps.len(),
{
    if ps.len() == 0 {
        Seq::empty()
    } else {
        swap_seq_for(ps[0].0, ps[0].1) + swaps_moves(ps.drop_first())
    }
}

/// Peeling the first transposition off a list peels its swap macro off
/// the concatenation.
proof fn lemma_swaps_moves_cons(pair: (int, int), rest: Seq<(int, int)>)
    ensures
        swaps_moves(seq![pair] + rest) == swap_seq_for(pair.0, pair.1) + swaps_moves(rest),
{
    let ps = seq![pair] + rest;
    assert(ps[0] == pair);
    assert(ps.drop_first() =~= rest);
}

/// Every swap macro holds at most thirteen moves.
#[verifier::rlimit(100)]
proof fn lemma_swap_seq_len(i: int, j: int)
    ensures
        swap_seq_for(i, j).len() <= 13,
{
    reveal(swap_seq_for);
    assert(edge_seq(i, j).len() == 11);
    assert(diag_seq(i, j).len() == 13);
    assert(opposite_seq(i, j).len() == 13);
}

/// Starts the emitted-macro bookkeeping at the empty macro.
proof fn lemma_track_entry(
    tr: Seq<(int, int)>,
    mac0: Seq<Move>,
    pair: (int, int),
    rem_after: Seq<(int, int)>,
)
    requires
        mac0 =~= Seq::<Move>::empty(),
        tr == seq![pair] + rem_after,
    ensures
        swaps_moves(tr) == mac0 + swap_seq_for(pair.0, pair.1) + swaps_moves(rem_after),
{
    lemma_swaps_moves_cons(pair, rem_after);
    assert(mac0 + swap_seq_for(pair.0, pair.1) + swaps_moves(rem_after) =~= swap_seq_for(
        pair.0,
        pair.1,
    ) + swaps_moves(rem_after));
}

/// Carries the emitted-macro bookkeeping over one fetched transposition.
proof fn lemma_track_fetch(
    tr: Seq<(int, int)>,
    macnow: Seq<Move>,
    pair: (int, int),
    rem_after: Seq<(int, int)>,
)
    requires
        swaps_moves(tr) == macnow + swaps_moves(seq![pair] + rem_after),
    ensures
        swaps_moves(tr) == macnow + swap_seq_for(pair.0, pair.1) + swaps_moves(rem_after),
{
    lemma_swaps_moves_cons(pair, rem_after);
    assert(macnow + (swap_seq_for(pair.0, pair.1) + swaps_moves(rem_after)) =~= macnow
        + swap_seq_for(pair.0, pair.1) + swaps_moves(rem_after));
}

/// A list of transpositions expands to at most thirteen moves each.
proof fn lemma_swaps_moves_len(ps: Seq<(int, int)>)
    ensures
        swaps_moves(ps).len() <= 13 * ps.len(),
    decreases ps.len(),
{
    if ps.len() > 0 {
        lemma_swap_seq_len(ps[0].0, ps[0].1);
        lemma_swaps_moves_len(ps.drop_first());
    }
}

/// The macro that puts every corner back in place: for a cube whose
/// derived position vector is p, running the returned moves on p yields
/// the identity vector. The permutation the macro performs is exactly the
/// inverse of p.
/// Decomposes a permutation into its walk transpositions and emits the
/// corresponding swap macros: the returned macro is exactly that
/// concatenation, and the permutation it performs is q itself.
#[verifier::rlimit(100)]
#[verifier::spinoff_prover]
fn decompose_moves(q: [u8; 8]) -> (m: Macro)
    requires
        is_perm8(q@),
    ensures
        m.moves@ == swaps_moves(permutations::transpositions_of(q@)),
        m.moves@.len() <= 91,
        pos_net(m.moves@) == q@,
        pos_net(m.moves@).len() == 8,
        forall|t: int| 0 <= t < 8 ==> pos_net(m.moves@)[t] < 8,
{
    let mut mac = Macro::identity();
    let mut it = permutations::TranspositionIterator::new(q);
    proof {
        assert(pos_net(mac.moves@) =~= id_perm());
    }
    let ghost trall = permutations::transpositions_of(q@);
    let mut r = it.next();
    proof {
        if r is Some {
            let (i, j) = r.unwrap();
            assert(trall == seq![(i as int, j as int)] + it.remaining());
            lemma_track_entry(trall, mac.moves@, (i as int, j as int), it.remaining());
        } else {
            assert(swaps_moves(trall) == mac.moves@) by {
                assert(mac.moves@ =~= Seq::<Move>::empty());
            }
        }
    }
    while r.is_some()
        invariant
            it.wf(),
            it.q() == q@,
            is_perm8(q@),
            trall == permutations::transpositions_of(q@),
            pos_net(mac.moves@).len() == 8,
            forall|t: int| 0 <= t < 8 ==> pos_net(mac.moves@)[t] < 8,
            match r {
                Some((i, j)) => i < 8 && j < 8 && i != j && it.prod() == tswap(
                    i as int,
                    j as int,
                    pos_net(mac.moves@),
                ) && swaps_moves(permutations::transpositions_of(q@)) == mac.moves@
                    + swap_seq_for(i as int, j as int) + swaps_moves(it.remaining()),
                None => it.prod() == pos_net(mac.moves@) && pos_net(mac.moves@) == q@
                    && swaps_moves(permutations::transpositions_of(q@)) == mac.moves@,
            },
        decreases it.unused(), (if r is Some { 1int } else { 0int }),
    {
        proof {
            permutations::lemma_count_unused_le(it.cycle_iterator.used(), 8);
        }
        let (ii, jj) = r.unwrap();
        let ghost oldmoves = mac.moves@;
        push_swap_moves(&mut mac, ii as u8, jj as u8);
        proof {
            lemma_solve_step(oldmoves, ii as int, jj as int);
            assert(pos_net(mac.moves@) == it.prod());
        }
        let ghost rempre = it.remaining();
        let ghost machere = mac.moves@;
        proof {
            assert(machere == oldmoves + swap_seq_for(ii as int, jj as int));
            assert(swaps_moves(trall) == oldmoves + swap_seq_for(ii as int, jj as int)
                + swaps_moves(rempre));
            assert(swaps_moves(trall) == machere + swaps_moves(rempre));
        }
        r = it.next();
        proof {
            permutations::lemma_count_unused_le(it.cycle_iterator.used(), 8);
            if r is Some {
                let (i2, j2) = r.unwrap();
                assert(rempre == seq![(i2 as int, j2 as int)] + it.remaining());
                lemma_track_fetch(trall, machere, (i2 as int, j2 as int), it.remaining());
            }
        }
    }
    proof {
        assert(pos_net(mac.moves@) == q@);
        assert(mac.moves@ == swaps_moves(trall));
        lemma_transpositions_len(q@);
        lemma_swaps_moves_len(trall);
    }
    mac
}

/// A permutation of eight indices decomposes into at most seven
/// transpositions.
pub proof fn lemma_transpositions_len(q: Seq<u8>)
    requires
        is_perm8(q),
    ensures
        permutations::transpositions_of(q).len() <= 7,
{
    reveal(permutations::transpositions_of);
    let ff = seq![false, false, false, false, false, false, false, false];
    permutations::lemma_walk_len(q, ff, Some(0int), true, 0);
    assert(permutations::count_unused(ff, 8) == 8) by {
        reveal_with_fuel(permutations::count_unused, 9);
    }
}

/// The macro that puts every corner back in place: for a cube whose
/// derived position vector is p, running the returned moves on p yields
/// the identity vector. The macro is exactly the concatenation of the
/// swap macros for the transpositions of the inverse permutation, in walk
/// order, and the permutation it performs is that inverse.
pub fn solve_macro(p: [u8; 8]) -> (m: Macro)
    requires
        is_perm8(p@),
    ensures
        m.moves@ == swaps_moves(permutations::transpositions_of(permutations::inv_perm(p@))),
        m.moves@.len() <= 91,
        pos_net(m.moves@).len() == 8,
        forall|v: int| 0 <= v < 8 ==> pos_net(m.moves@)[v] < 8,
        forall|v: int| 0 <= v < 8 ==> p@[pos_net(m.moves@)[v] as int] as int == v,
        forall|k: int| 0 <= k < 8 ==> pos_net(m.moves@)[p@[k] as int] as int == k,
{
    let q = permutations::inverse(p);
    decompose_moves(q)
}

/// Replays a macro against a position vector.
pub fn apply_macro(positions: &mut [u8; 8], mac: &Macro)
    requires
        forall|i: int| 0 <= i < 8 ==> old(positions)[i] < 8,
    ensures
        final(positions)@ == pos_run(mac.moves@, old(positions)@, mac.moves@.len() as int),
        forall|i: int| 0 <= i < 8 ==> final(positions)[i] < 8,
{
    let n = mac.moves.len();
    let mut t: usize = 0;
    while t < n
        invariant
            t <= n,
            n == mac.moves@.len(),
            positions@ == pos_run(mac.moves@, old(positions)@, t as int),
            forall|i: int| 0 <= i < 8 ==> positions[i] < 8,
        decreases n - t,
    {
        apply(positions, &mac.moves[t]);
        t += 1;
    }
}

/// Checks statically that the solving macro for p, replayed against p,
/// ends in the identity vector.
pub fn test_solve(p: [u8; 8])
    requires
        is_perm8(p@),
{
    let mac = solve_macro(p);
    let mut q = p;
    apply_macro(&mut q, &mac);
    proof {
        assert forall|k: int| 0 <= k < 8 implies #[trigger] q@[k] as int == k by {
            lemma_pos_run_compose(mac.moves@, p@, mac.moves@.len() as int, k);
        }
        assert(q@ =~= id_perm());
    }
}

/// Checks statically that a macro performing the transposition of i and j
/// swaps exactly those two corners of the identity vector.
pub fn test_swap(i: u8, j: u8, m: Macro)
    requires
        i < 8,
        j < 8,
        i != j,
        pos_net(m.moves@) == transposed(i as int, j as int),
{
    let mut p: [u8; 8] = [0, 1, 2, 3, 4, 5, 6, 7];
    proof {
        assert(p@ =~= id_perm());
    }
    apply_macro(&mut p, &m);
    proof {
        assert forall|k: int| 0 <= k < 8 implies #[trigger] p@[k] == transposed(
            i as int,
            j as int,
        )[k] by {
            lemma_pos_run_compose(m.moves@, id_perm(), m.moves@.len() as int, k);
            lemma_id_perm_at(k);
        }
    }
}

/// Checks statically, for every pair of distinct corners, that the swap
/// macro the pair's axis distance selects performs exactly that
/// transposition.
pub fn test_swaps()
{
    let mut i: u8 = 0;
    while i < 8
        decreases 8 - i,
    {
        let mut j: u8 = 0;
        while j < 8
            invariant
                i < 8,
            decreases 8 - j,
        {
            if i != j {
                let x = xor3(i, j);
                let pc = x % 2 + (x / 2) % 2 + (x / 4) % 2;
                proof {
                    reveal(swap_seq_for);
                    crate::swap_cases::lemma_swap_macro(i as int, j as int);
                    assert(1 <= popcount3(bxor3(i as int, j as int)) <= 3) by {
                        if bit(i as int, 0) == bit(j as int, 0) && bit(i as int, 1) == bit(
                            j as int,
                            1,
                        ) && bit(i as int, 2) == bit(j as int, 2) {
                            assert(i as int == bit(i as int, 0) + 2 * bit(i as int, 1) + 4 * bit(
                                i as int,
                                2,
                            ));
                            assert(j as int == bit(j as int, 0) + 2 * bit(j as int, 1) + 4 * bit(
                                j as int,
                                2,
                            ));
                        }
                    }
                }
                if pc == 3 {
                    let arr = swap_opposite_moves(i, j);
                    let mut mac = Macro::identity();
                    extend_macro(&mut mac, &arr);
                    proof {
                        assert(mac.moves@ =~= swap_seq_for(i as int, j as int));
                    }
                    test_swap(i, j, mac);
                } else if pc == 2 {
                    let arr = swap_diag_moves(i, j);
                    let mut mac = Macro::identity();
                    extend_macro(&mut mac, &arr);
                    proof {
                        assert(mac.moves@ =~= swap_seq_for(i as int, j as int));
                    }
                    test_swap(i, j, mac);
                } else {
                    let arr = swap_edge_moves(i, j);
                    let mut mac = Macro::identity();
                    extend_macro(&mut mac, &arr);
                    proof {
                        assert(mac.moves@ =~= swap_seq_for(i as int, j as int));
                    }
                    test_swap(i, j, mac);
                }
            }
            j += 1;
        }
        i += 1;
    }
}

} // verus!
