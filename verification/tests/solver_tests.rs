//! End-to-end scenarios for the position solver and the cube algebra.

use rubik2x2::cube::{Cube, Macro, Move, Side, Transform};
use rubik2x2::orientations;
use rubik2x2::solver;
use rubik2x2::permutations;
use rubik2x2::positions;

fn replay(mut p: [u8; 8], mac: &Macro) -> [u8; 8] {
    for m in mac.move_iter() {
        positions::apply(&mut p, m);
    }
    p
}

#[test]
fn identity_cube_gives_empty_macro() {
    let p: [u8; 8] = [0, 1, 2, 3, 4, 5, 6, 7];
    let mac = positions::solve_macro(p);
    assert_eq!(mac.moves.len(), 0);
}

#[test]
fn space_diagonal_swap_takes_thirteen_moves() {
    let p: [u8; 8] = [0, 1, 2, 4, 3, 5, 6, 7];
    let mac = positions::solve_macro(p);
    assert_eq!(mac.moves.len(), 13);
    let q = replay(p, &mac);
    assert_eq!(q, [0, 1, 2, 3, 4, 5, 6, 7]);
}

#[test]
fn three_cycle_round_trips() {
    let p: [u8; 8] = [6, 7, 5, 2, 3, 4, 0, 1];
    let mac = positions::solve_macro(p);
    let q = replay(p, &mac);
    assert_eq!(q, [0, 1, 2, 3, 4, 5, 6, 7]);
}

#[test]
fn two_swaps_round_trip() {
    let p: [u8; 8] = [0, 7, 2, 4, 3, 5, 6, 1];
    let mac = positions::solve_macro(p);
    let q = replay(p, &mac);
    assert_eq!(q, [0, 1, 2, 3, 4, 5, 6, 7]);
}

#[test]
fn swap_macros_swap_exactly_their_pair() {
    for i in 0u8..8 {
        for j in 0u8..8 {
            if i == j {
                continue;
            }
            let pc = (i ^ j).count_ones();
            let moves: Vec<Move> = match pc {
                1 => positions::swap_edge_moves(i, j).to_vec(),
                2 => positions::swap_diag_moves(i, j).to_vec(),
                _ => positions::swap_opposite_moves(i, j).to_vec(),
            };
            let mac = Macro { moves };
            let q = replay([0, 1, 2, 3, 4, 5, 6, 7], &mac);
            for k in 0u8..8 {
                let expect = if k == i {
                    j
                } else if k == j {
                    i
                } else {
                    k
                };
                assert_eq!(q[k as usize], expect);
            }
        }
    }
}

#[test]
fn permutation_inverse_round_trips() {
    let p: [u8; 8] = [6, 7, 5, 2, 3, 4, 0, 1];
    let q = permutations::inverse(p);
    for i in 0..8 {
        assert_eq!(q[p[i] as usize] as usize, i);
        assert_eq!(p[q[i] as usize] as usize, i);
    }
}

#[test]
fn transposition_iterator_covers_cycles() {
    let p: [u8; 8] = [1, 0, 3, 2, 4, 5, 6, 7];
    let mut it = permutations::TranspositionIterator::new(p);
    let mut swaps = Vec::new();
    while let Some(pair) = it.next() {
        swaps.push(pair);
    }
    assert_eq!(swaps, vec![(0, 1), (2, 3)]);
}

#[test]
fn transform_inverse_is_transpose() {
    let t = Move::D1.transform();
    let inv = t.inverse();
    for r in 0..3 {
        for c in 0..3 {
            assert_eq!(inv.entries[r][c], t.entries[c][r]);
        }
    }
    let prod = t.sequence(inv);
    assert_eq!(prod, Transform::identity());
}

#[test]
fn move_transform_moves_a_corner_position() {
    let t = Move::U1.transform();
    let y = t.apply(&[1, 1, 1]);
    assert_eq!(y[1], 1);
    assert_eq!(y[0].abs(), 1);
    assert_eq!(y[2].abs(), 1);
}

#[test]
fn solved_cube_extracts_identity() {
    let c = Cube::solved();
    let (ps, os) = c.positions_orientations();
    assert_eq!(ps, [0, 1, 2, 3, 4, 5, 6, 7]);
    assert_eq!(os, [0; 8]);
}

#[test]
fn one_move_then_undo_restores_the_cube() {
    let c = Cube::solved();
    let turned = c.sequence(Move::F1);
    let back = turned.sequence(Move::F3);
    let (ps, os) = back.positions_orientations();
    assert_eq!(ps, [0, 1, 2, 3, 4, 5, 6, 7]);
    assert_eq!(os, [0; 8]);
}

#[test]
fn extract_after_one_move_is_a_legal_state() {
    for idx in 0u8..18 {
        let m = Move::from(idx);
        let c = Cube::solved().sequence(m);
        let (ps, os) = c.positions_orientations();
        let mut seen = [false; 8];
        let mut twist_sum = 0u32;
        for k in 0..8 {
            assert!(ps[k] < 8);
            assert!(!seen[ps[k] as usize]);
            seen[ps[k] as usize] = true;
            assert!(os[k] < 3);
            twist_sum += os[k] as u32;
        }
        assert_eq!(twist_sum % 3, 0);
    }
}

#[test]
fn quarter_turn_twist_tables() {
    let mut o = orientations::identity();
    orientations::apply(&mut o, &Move::D1);
    assert_eq!(o, [2, 1, 0, 0, 1, 2, 0, 0]);
    let mut o = orientations::identity();
    orientations::apply(&mut o, &Move::U1);
    assert_eq!(o, [0, 0, 1, 2, 0, 0, 2, 1]);
    let mut o = orientations::identity();
    orientations::apply(&mut o, &Move::B1);
    assert_eq!(o, [1, 2, 2, 1, 0, 0, 0, 0]);
    let mut o = orientations::identity();
    orientations::apply(&mut o, &Move::F1);
    assert_eq!(o, [0, 0, 0, 0, 2, 1, 1, 2]);
    let mut o = orientations::identity();
    orientations::apply(&mut o, &Move::L1);
    assert_eq!(o, [0; 8]);
    let mut o = orientations::identity();
    orientations::apply(&mut o, &Move::R1);
    assert_eq!(o, [0; 8]);
}

#[test]
fn side_names_round_trip() {
    for idx in 0..6 {
        let side = Side::from(idx);
        let name = Side::serialization(side);
        assert_eq!(Side::deserialize(name), Some(side));
    }
    assert_eq!(Side::deserialize("lef"), None);
    assert_eq!(Side::deserialize("lefts"), None);
    assert_eq!(Side::deserialize(""), None);
}

#[test]
fn moves_round_trip_through_their_index() {
    for idx in 0u8..18 {
        let m = Move::from(idx);
        assert_eq!(m.to_index(), idx);
    }
    assert_eq!(Move::L1.side(), Side::L);
    assert_eq!(Move::U2.side(), Side::U);
    assert_eq!(Move::F3.side(), Side::F);
}

fn replay_twists(mut o: [u8; 8], mac: &Macro) -> [u8; 8] {
    for m in mac.move_iter() {
        orientations::apply(&mut o, m);
    }
    o
}

#[test]
fn orientation_scenario_untwists() {
    let o: [u8; 8] = [1, 1, 1, 2, 2, 2, 1, 2];
    let mac = orientations::solve_macro(o);
    let s = replay_twists(o, &mac);
    assert_eq!(s, [0; 8]);
}

#[test]
fn orientation_round_trips() {
    for o in [
        [0u8, 1, 2, 0, 1, 2, 0, 0],
        [1, 1, 1, 0, 2, 2, 0, 2],
        [0, 0, 0, 0, 0, 0, 0, 0],
        [2, 0, 0, 0, 0, 0, 0, 1],
        [2, 0, 0, 1, 1, 1, 0, 1],
        [2, 2, 2, 2, 2, 2, 2, 1],
    ] {
        let mac = orientations::solve_macro(o);
        let s = replay_twists(o, &mac);
        assert_eq!(s, [0; 8]);
        let p = replay([0, 1, 2, 3, 4, 5, 6, 7], &mac);
        assert_eq!(p, [0, 1, 2, 3, 4, 5, 6, 7]);
    }
}

#[test]
fn twist_macros_twist_exactly_their_pair() {
    for i in 0u8..8 {
        for j in 0u8..8 {
            if i == j {
                continue;
            }
            let pc = (i ^ j).count_ones();
            let moves: Vec<Move> = match pc {
                1 => orientations::twist_edge_moves(i, j).to_vec(),
                2 => orientations::twist_diag_moves(i, j).to_vec(),
                _ => orientations::twist_opposite_moves(i, j).to_vec(),
            };
            assert_eq!(moves.len(), if pc == 1 { 12 } else { 14 });
            let mac = Macro { moves };
            let o = replay_twists([0; 8], &mac);
            for k in 0u8..8 {
                let expect = if k == i {
                    1
                } else if k == j {
                    2
                } else {
                    0
                };
                assert_eq!(o[k as usize], expect);
            }
            let p = replay([0, 1, 2, 3, 4, 5, 6, 7], &mac);
            assert_eq!(p, [0, 1, 2, 3, 4, 5, 6, 7]);
        }
    }
}

#[test]
fn solution_solves_a_scrambled_cube() {
    let scramble = [
        Move::F1,
        Move::U2,
        Move::L3,
        Move::B1,
        Move::D3,
        Move::R2,
        Move::F3,
        Move::U1,
        Move::B2,
        Move::L1,
    ];
    let mut cube = Cube::solved();
    for m in &scramble {
        cube = cube.sequence(*m);
    }
    let moves = solver::solution(&cube);
    let solved = cube.sequence_moves(&moves);
    let (ps, os) = solved.positions_orientations();
    assert_eq!(ps, [0, 1, 2, 3, 4, 5, 6, 7]);
    assert_eq!(os, [0; 8]);
}

#[test]
fn solution_of_solved_cube_is_empty() {
    let cube = Cube::solved();
    let moves = solver::solution(&cube);
    assert!(moves.is_empty());
}

#[test]
fn self_checks_run() {
    solver::test();
}
