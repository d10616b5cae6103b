//! The solver orchestrator: extracts the scrambled cube's placement and
//! twist vectors, solves placement first, replays the placement macro
//! against the twist vector, solves the remaining twists, and returns the
//! two macros concatenated.

use vstd::prelude::*;
use crate::cube::{cube_wf, extract_ori_at, extract_pos_at, Cube, Move};
use crate::orientations;
use crate::orientations::{ori_run, sum3, twist_moves_from};
use crate::permutations;
use crate::permutations::{id_perm, inv_perm, is_perm8, transpositions_of};
use crate::positions;
use crate::positions::{pos_net, pos_run, swaps_moves};

verus! {

/// The derived position vector of a cube: entry s names the solved corner
/// occupying slot s.
pub open spec fn extract_pos_seq(c: Cube) -> Seq<u8> {
    Seq::new(8, |k: int| extract_pos_at(c, k) as u8)
}

/// The derived twist vector of a cube: entry s is the twist of the corner
/// occupying slot s.
pub open spec fn extract_ori_seq(c: Cube) -> Seq<u8> {
    Seq::new(8, |k: int| extract_ori_at(c, k) as u8)
}

/// The move sequence the solver returns for a cube: the swap macros for
/// the transpositions of the derived position vector, followed by the
/// twist macros for the twist vector as it stands once the placement
/// macro has been replayed against it.
pub open spec fn solution_moves(c: Cube) -> Seq<Move> {
    let mp = swaps_moves(transpositions_of(extract_pos_seq(c)));
    let o1 = ori_run(mp, extract_ori_seq(c), mp.len() as int);
    mp + twist_moves_from(o1, 1)
}

/// Solves a cube: the returned moves perform exactly the permutation the
/// cube's corners currently show, so that replaying them puts every
/// corner back in its slot, and they end with every corner of slots 1 up
/// to 7 untwisted. The corners of a cube reached by legal moves twist to
/// a total of 0 mod 3, and for such a cube the final twist vector is all
/// zero: the cube is solved.
#[verifier::rlimit(100)]
#[verifier::spinoff_prover]
pub fn solution(cube: &Cube) -> (r: Vec<Move>)
    requires
        cube_wf(*cube),
        is_perm8(extract_pos_seq(*cube)),
    ensures
        r@ == solution_moves(*cube),
        pos_net(r@) == extract_pos_seq(*cube),
        pos_run(r@, inv_perm(extract_pos_seq(*cube)), r@.len() as int) == id_perm(),
        ori_run(r@, extract_ori_seq(*cube), r@.len() as int).len() == 8,
        forall|t: int| 1 <= t < 8 ==> ori_run(r@, extract_ori_seq(*cube), r@.len() as int)[t]
            == 0,
        ori_run(r@, extract_ori_seq(*cube), r@.len() as int)[0] as int == sum3(
            extract_ori_seq(*cube),
        ) % 3,
        sum3(extract_ori_seq(*cube)) % 3 == 0 ==> ori_run(
            r@,
            extract_ori_seq(*cube),
            r@.len() as int,
        ) =~= seq![0u8, 0u8, 0u8, 0u8, 0u8, 0u8, 0u8, 0u8],
{
    let (initial_positions, initial_orientations) = cube.positions_orientations();
    let ghost p0 = extract_pos_seq(*cube);
    let ghost o0 = extract_ori_seq(*cube);
    proof {
        assert(initial_positions@ =~= p0);
        assert(initial_orientations@ =~= o0);
        assert forall|t: int| 0 <= t < 8 implies initial_orientations[t] < 3 by {
            crate::cube::lemma_extract_ranges(*cube, t);
        }
    }
    let pinv = permutations::inverse(initial_positions);
    let mp = positions::solve_macro(pinv);
    proof {
        permutations::lemma_inv_perm_involution(p0);
        assert(mp.moves@ == swaps_moves(transpositions_of(p0)));
        // The placement macro performs the inverse of pinv, which is the
        // derived position vector itself.
        assert forall|k: int| 0 <= k < 8 implies #[trigger] pos_net(mp.moves@)[k] == p0[k] by {
            permutations::lemma_perm8_surjective(pinv@, k);
            let v = choose|v: int| 0 <= v < 8 && pinv@[v] == k;
            assert(pos_net(mp.moves@)[pinv@[v] as int] as int == v);
            assert(initial_positions@[pinv@[v] as int] as int == v);
        }
        assert(pos_net(mp.moves@) =~= p0);
    }
    // Replay the placement macro against the twist vector to learn the
    // twists once every corner is back in its slot.
    let mut orientations_now = initial_orientations;
    let mut t: usize = 0;
    let n = mp.moves.len();
    while t < n
        invariant
            t <= n,
            n == mp.moves@.len(),
            orientations_now@ == ori_run(mp.moves@, o0, t as int),
            forall|k: int| 0 <= k < 8 ==> orientations_now[k] < 3,
        decreases n - t,
    {
        orientations::apply(&mut orientations_now, &mp.moves[t]);
        t += 1;
    }
    let mo = orientations::solve_macro(orientations_now);
    let ghost o1 = ori_run(mp.moves@, o0, mp.moves@.len() as int);
    let mut solution_moves: Vec<Move> = Vec::new();
    let mut i: usize = 0;
    while i < mp.moves.len()
        invariant
            i <= mp.moves@.len(),
            solution_moves@ == mp.moves@.take(i as int),
        decreases mp.moves@.len() - i,
    {
        solution_moves.push(mp.moves[i]);
        proof {
            assert(mp.moves@.take(i as int).push(mp.moves@[i as int]) =~= mp.moves@.take(i + 1));
        }
        i += 1;
    }
    let mut j: usize = 0;
    while j < mo.moves.len()
        invariant
            j <= mo.moves@.len(),
            solution_moves@ == mp.moves@ + mo.moves@.take(j as int),
        decreases mo.moves@.len() - j,
    {
        solution_moves.push(mo.moves[j]);
        proof {
            assert((mp.moves@ + mo.moves@.take(j as int)).push(mo.moves@[j as int]) =~= mp.moves@
                + mo.moves@.take(j + 1));
        }
        j += 1;
    }
    proof {
        assert(mp.moves@.take(mp.moves@.len() as int) =~= mp.moves@);
        assert(mo.moves@.take(mo.moves@.len() as int) =~= mo.moves@);
        assert(solution_moves@ == mp.moves@ + mo.moves@);
        lemma_solution_assembly(mp.moves@, mo.moves@, p0, o0, o1);
        assert(solution_moves@ == crate::solver::solution_moves(*cube));
    }
    solution_moves
}

/// The two halves of the solution compose: the concatenation performs the
/// placement macro's permutation, and its twist effect is the twist
/// macro's effect on the replayed twist vector.
proof fn lemma_solution_assembly(
    mpm: Seq<Move>,
    mom: Seq<Move>,
    p0: Seq<u8>,
    o0: Seq<u8>,
    o1: Seq<u8>,
)
    requires
        is_perm8(p0),
        o0.len() == 8,
        o1 == ori_run(mpm, o0, mpm.len() as int),
        pos_net(mpm) == p0,
        pos_net(mom) == id_perm(),
        ori_run(mom, o1, mom.len() as int).len() == 8,
        forall|t: int| 1 <= t < 8 ==> ori_run(mom, o1, mom.len() as int)[t] == 0,
        ori_run(mom, o1, mom.len() as int)[0] as int == sum3(o1) % 3,
    ensures
        pos_net(mpm + mom) == p0,
        pos_run(mpm + mom, inv_perm(p0), (mpm + mom).len() as int) == id_perm(),
        ori_run(mpm + mom, o0, (mpm + mom).len() as int) == ori_run(mom, o1, mom.len() as int),
        ori_run(mpm + mom, o0, (mpm + mom).len() as int)[0] as int == sum3(o0) % 3,
{
    let all = mpm + mom;
    let nall = all.len() as int;
    // twist effect: run the halves in order, and the total twist mod 3 is
    // preserved by the placement half.
    orientations::lemma_ori_run_append(mpm, mom, o0, mom.len() as int);
    orientations::lemma_ori_run_sum(mpm, o0, mpm.len() as int);
    // placement: net of the concatenation is the placement half's net,
    // because the twist half moves nothing.
    positions::lemma_pos_run_append(mpm, mom, id_perm(), mom.len() as int);
    assert forall|k: int| 0 <= k < 8 implies #[trigger] pos_net(all)[k] == p0[k] by {
        positions::lemma_pos_run_compose(mom, p0, mom.len() as int, k);
        positions::lemma_id_perm_at(p0[k] as int);
    }
    assert(pos_net(all) =~= p0);
    // replaying the whole solution on the inverse vector ends in identity.
    positions::lemma_pos_run_append(mpm, mom, inv_perm(p0), mom.len() as int);
    assert forall|k: int| 0 <= k < 8 implies #[trigger] pos_run(all, inv_perm(p0), nall)[k]
        == id_perm()[k] by {
        assert(inv_perm(p0).len() == 8);
        assert forall|v: int| 0 <= v < 8 implies inv_perm(p0)[v] < 8 by {
            permutations::lemma_preimage(p0, v);
        }
        positions::lemma_pos_run_compose(mpm, inv_perm(p0), mpm.len() as int, k);
        permutations::lemma_preimage(p0, k);
        assert(pos_net(mpm)[inv_perm(p0)[k] as int] == p0[inv_perm(p0)[k] as int]);
        assert(p0[inv_perm(p0)[k] as int] as int == k);
        let w = pos_run(mpm, inv_perm(p0), mpm.len() as int);
        assert forall|v: int| 0 <= v < 8 implies w[v] < 8 && w.len() == 8 by {
            positions::lemma_pos_run_range(mpm, inv_perm(p0), mpm.len() as int, v);
        }
        positions::lemma_pos_run_compose(mom, w, mom.len() as int, k);
        positions::lemma_id_perm_at(w[k] as int);
        positions::lemma_id_perm_at(k);
    }
    assert(pos_run(all, inv_perm(p0), nall) =~= id_perm());
}


/// Runs the solver's self-checks on the recorded vectors. Every check is
/// statically verified, so the body only has to witness that the vectors
/// meet the checks' preconditions.
pub fn test()
{
    positions::test_swaps();
    check_positions([0, 1, 2, 3, 4, 5, 6, 7]);
    check_positions([0, 1, 2, 4, 3, 5, 6, 7]);
    check_positions([0, 7, 2, 4, 3, 5, 6, 1]);
    check_positions([6, 7, 5, 2, 3, 4, 0, 1]);
    orientations::test_twists();
    check_orientations([0, 1, 2, 0, 1, 2, 0, 0]);
    check_orientations([1, 1, 1, 2, 2, 2, 1, 2]);
    check_orientations([1, 1, 1, 0, 2, 2, 0, 2]);
    check_orientations([0, 0, 0, 0, 0, 0, 0, 0]);
    check_orientations([2, 0, 0, 0, 0, 0, 0, 1]);
    check_orientations([2, 0, 0, 1, 1, 1, 0, 1]);
    check_orientations([2, 2, 2, 2, 2, 2, 2, 1]);
}

/// Round-trips one placement vector, if it is a permutation.
fn check_positions(p: [u8; 8])
{
    if permutations::is_permutation(&p) {
        positions::test_solve(p);
    }
}

/// Round-trips one twist vector, if a legal cube can show it.
fn check_orientations(o: [u8; 8])
{
    if orientations::is_twist_vector(&o) {
        orientations::test_solve(o);
    }
}

} // verus!
