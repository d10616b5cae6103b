//! The fifty-six concrete instances of the twist-macro law: for each
//! ordered pair of distinct corners, the selected macro leaves every
//! corner in place and twists exactly the first corner of the pair forward
//! once and the second forward twice.

use vstd::prelude::*;
use crate::cube::Move;
use crate::orientations::{ori_acc, ori_src, q_back, twist_delta, twist_pair_ok, twist_seq_for};
use crate::permutations::id_perm;
use crate::positions::{
    iter_rot, lemma_pos_run_pointwise, pos_net, pos_run, rot1,
};

verus! {

#[verifier::rlimit(100)]
#[verifier::spinoff_prover]
proof fn twist_pair_0_1()
    ensures
        twist_pair_ok(0, 1),
{
    reveal_with_fuel(iter_rot, 16);
    reveal_with_fuel(ori_src, 16);
    reveal_with_fuel(ori_acc, 16);
    crate::positions::lemma_move_rot_table();
    crate::orientations::lemma_q_back_table();
    reveal(twist_seq_for);
    let msl: Seq<Move> = seq![Move::D1, Move::B3, Move::D1, Move::B3, Move::D1, Move::B3, Move::D3, Move::B1, Move::D3, Move::B1, Move::D3, Move::B1];
    assert(twist_seq_for(0, 1) =~= msl);
    assert(iter_rot(msl, 3, 0) == 3);
    assert(iter_rot(msl, 3, 1) == 4);
    assert(iter_rot(msl, 3, 2) == 1);
    assert(iter_rot(msl, 3, 3) == 2);
    assert(iter_rot(msl, 3, 4) == 5);
    assert(iter_rot(msl, 3, 5) == 0);
    assert(iter_rot(msl, 3, 6) == 6);
    assert(iter_rot(msl, 3, 7) == 7);
    assert(ori_src(msl, 3, 0) == 5);
    assert(ori_acc(msl, 3, 0) == 3);
    assert(ori_src(msl, 3, 1) == 2);
    assert(ori_acc(msl, 3, 1) == 5);
    assert(ori_src(msl, 3, 2) == 3);
    assert(ori_acc(msl, 3, 2) == 5);
    assert(ori_src(msl, 3, 3) == 0);
    assert(ori_acc(msl, 3, 3) == 5);
    assert(ori_src(msl, 3, 4) == 1);
    assert(ori_acc(msl, 3, 4) == 3);
    assert(ori_src(msl, 3, 5) == 4);
    assert(ori_acc(msl, 3, 5) == 9);
    assert(ori_src(msl, 3, 6) == 6);
    assert(ori_acc(msl, 3, 6) == 0);
    assert(ori_src(msl, 3, 7) == 7);
    assert(ori_acc(msl, 3, 7) == 0);
    assert(iter_rot(msl, 9, 0) == 5);
    assert(iter_rot(msl, 9, 1) == 2);
    assert(iter_rot(msl, 9, 2) == 3);
    assert(iter_rot(msl, 9, 3) == 0);
    assert(iter_rot(msl, 9, 4) == 1);
    assert(iter_rot(msl, 9, 5) == 4);
    assert(iter_rot(msl, 9, 6) == 6);
    assert(iter_rot(msl, 9, 7) == 7);
    assert(ori_src(msl, 9, 0) == 3);
    assert(ori_acc(msl, 9, 0) == 21);
    assert(ori_src(msl, 9, 1) == 4);
    assert(ori_acc(msl, 9, 1) == 19);
    assert(ori_src(msl, 9, 2) == 1);
    assert(ori_acc(msl, 9, 2) == 17);
    assert(ori_src(msl, 9, 3) == 2);
    assert(ori_acc(msl, 9, 3) == 15);
    assert(ori_src(msl, 9, 4) == 5);
    assert(ori_acc(msl, 9, 4) == 19);
    assert(ori_src(msl, 9, 5) == 0);
    assert(ori_acc(msl, 9, 5) == 23);
    assert(ori_src(msl, 9, 6) == 6);
    assert(ori_acc(msl, 9, 6) == 0);
    assert(ori_src(msl, 9, 7) == 7);
    assert(ori_acc(msl, 9, 7) == 0);
    assert(iter_rot(msl, 6, 0) == 0);
    assert(iter_rot(msl, 12, 0) == 0);
    assert(iter_rot(msl, 6, 1) == 1);
    assert(iter_rot(msl, 12, 1) == 1);
    assert(iter_rot(msl, 6, 2) == 2);
    assert(iter_rot(msl, 12, 2) == 2);
    assert(iter_rot(msl, 6, 3) == 3);
    assert(iter_rot(msl, 12, 3) == 3);
    assert(iter_rot(msl, 6, 4) == 4);
    assert(iter_rot(msl, 12, 4) == 4);
    assert(iter_rot(msl, 6, 5) == 5);
    assert(iter_rot(msl, 12, 5) == 5);
    assert(iter_rot(msl, 6, 6) == 6);
    assert(iter_rot(msl, 12, 6) == 6);
    assert(iter_rot(msl, 6, 7) == 7);
    assert(iter_rot(msl, 12, 7) == 7);
    assert(ori_src(msl, 6, 0) == 0);
    assert(ori_acc(msl, 6, 0) == 14);
    assert(ori_src(msl, 6, 1) == 1);
    assert(ori_acc(msl, 6, 1) == 10);
    assert(ori_src(msl, 6, 2) == 2);
    assert(ori_acc(msl, 6, 2) == 14);
    assert(ori_src(msl, 6, 3) == 3);
    assert(ori_acc(msl, 6, 3) == 14);
    assert(ori_src(msl, 6, 4) == 4);
    assert(ori_acc(msl, 6, 4) == 10);
    assert(ori_src(msl, 6, 5) == 5);
    assert(ori_acc(msl, 6, 5) == 10);
    assert(ori_src(msl, 6, 6) == 6);
    assert(ori_acc(msl, 6, 6) == 0);
    assert(ori_src(msl, 6, 7) == 7);
    assert(ori_acc(msl, 6, 7) == 0);
    assert(ori_src(msl, 12, 0) == 0);
    assert(ori_acc(msl, 12, 0) == 28);
    assert(ori_src(msl, 12, 1) == 1);
    assert(ori_acc(msl, 12, 1) == 20);
    assert(ori_src(msl, 12, 2) == 2);
    assert(ori_acc(msl, 12, 2) == 24);
    assert(ori_src(msl, 12, 3) == 3);
    assert(ori_acc(msl, 12, 3) == 24);
    assert(ori_src(msl, 12, 4) == 4);
    assert(ori_acc(msl, 12, 4) == 24);
    assert(ori_src(msl, 12, 5) == 5);
    assert(ori_acc(msl, 12, 5) == 24);
    assert(ori_src(msl, 12, 6) == 6);
    assert(ori_acc(msl, 12, 6) == 0);
    assert(ori_src(msl, 12, 7) == 7);
    assert(ori_acc(msl, 12, 7) == 0);
    assert forall|k: int| 0 <= k < 8 implies #[trigger] pos_net(twist_seq_for(0, 1))[k] == id_perm()[k] by {
        lemma_pos_run_pointwise(msl, id_perm(), 12, k);
        if k == 0 {
            assert(id_perm()[0] == 0u8);
            assert(pos_net(twist_seq_for(0, 1))[0] == 0u8);
        } else if k == 1 {
            assert(id_perm()[1] == 1u8);
            assert(pos_net(twist_seq_for(0, 1))[1] == 1u8);
        } else if k == 2 {
            assert(id_perm()[2] == 2u8);
            assert(pos_net(twist_seq_for(0, 1))[2] == 2u8);
        } else if k == 3 {
            assert(id_perm()[3] == 3u8);
            assert(pos_net(twist_seq_for(0, 1))[3] == 3u8);
        } else if k == 4 {
            assert(id_perm()[4] == 4u8);
            assert(pos_net(twist_seq_for(0, 1))[4] == 4u8);
        } else if k == 5 {
            assert(id_perm()[5] == 5u8);
            assert(pos_net(twist_seq_for(0, 1))[5] == 5u8);
        } else if k == 6 {
            assert(id_perm()[6] == 6u8);
            assert(pos_net(twist_seq_for(0, 1))[6] == 6u8);
        } else if k == 7 {
            assert(id_perm()[7] == 7u8);
            assert(pos_net(twist_seq_for(0, 1))[7] == 7u8);
        }
    }
    lemma_pos_run_pointwise(msl, id_perm(), 12, 0);
    assert(pos_net(twist_seq_for(0, 1)) =~= id_perm());
    assert forall|t: int| 0 <= t < 8 implies ori_src(twist_seq_for(0, 1), 12, t) == t && #[trigger] ori_acc(twist_seq_for(0, 1), 12, t) % 3 == twist_delta(0, 1, t) by {
        if t == 0 {
            assert(ori_acc(msl, 12, 0) % 3 == 1);
        } else if t == 1 {
            assert(ori_acc(msl, 12, 1) % 3 == 2);
        } else if t == 2 {
            assert(ori_acc(msl, 12, 2) % 3 == 0);
        } else if t == 3 {
            assert(ori_acc(msl, 12, 3) % 3 == 0);
        } else if t == 4 {
            assert(ori_acc(msl, 12, 4) % 3 == 0);
        } else if t == 5 {
            assert(ori_acc(msl, 12, 5) % 3 == 0);
        } else if t == 6 {
            assert(ori_acc(msl, 12, 6) % 3 == 0);
        } else if t == 7 {
            assert(ori_acc(msl, 12, 7) % 3 == 0);
        }
    }
}

#[verifier::rlimit(100)]
#[verifier::spinoff_prover]
proof fn twist_pair_0_2()
    ensures
        twist_pair_ok(0, 2),
{
    reveal_with_fuel(iter_rot, 16);
    reveal_with_fuel(ori_src, 16);
    reveal_with_fuel(ori_acc, 16);
    crate::positions::lemma_move_rot_table();
    crate::orientations::lemma_q_back_table();
    reveal(twist_seq_for);
    let msl: Seq<Move> = seq![Move::B1, Move::L3, Move::B1, Move::L3, Move::B1, Move::L3, Move::B3, Move::L1, Move::B3, Move::L1, Move::B3, Move::L1];
    assert(twist_seq_for(0, 2) =~= msl);
    assert(iter_rot(msl, 3, 0) == 6);
    assert(iter_rot(msl, 3, 1) == 3);
    assert(iter_rot(msl, 3, 2) == 1);
    assert(iter_rot(msl, 3, 3) == 0);
    assert(iter_rot(msl, 3, 4) == 2);
    assert(iter_rot(msl, 3, 5) == 5);
    assert(iter_rot(msl, 3, 6) == 4);
    assert(iter_rot(msl, 3, 7) == 7);
    assert(ori_src(msl, 3, 0) == 3);
    assert(ori_acc(msl, 3, 0) == 3);
    assert(ori_src(msl, 3, 1) == 2);
    assert(ori_acc(msl, 3, 1) == 3);
    assert(ori_src(msl, 3, 2) == 4);
    assert(ori_acc(msl, 3, 2) == 2);
    assert(ori_src(msl, 3, 3) == 1);
    assert(ori_acc(msl, 3, 3) == 2);
    assert(ori_src(msl, 3, 4) == 6);
    assert(ori_acc(msl, 3, 4) == 0);
    assert(ori_src(msl, 3, 5) == 5);
    assert(ori_acc(msl, 3, 5) == 0);
    assert(ori_src(msl, 3, 6) == 0);
    assert(ori_acc(msl, 3, 6) == 2);
    assert(ori_src(msl, 3, 7) == 7);
    assert(ori_acc(msl, 3, 7) == 0);
    assert(iter_rot(msl, 9, 0) == 3);
    assert(iter_rot(msl, 9, 1) == 2);
    assert(iter_rot(msl, 9, 2) == 4);
    assert(iter_rot(msl, 9, 3) == 1);
    assert(iter_rot(msl, 9, 4) == 6);
    assert(iter_rot(msl, 9, 5) == 5);
    assert(iter_rot(msl, 9, 6) == 0);
    assert(iter_rot(msl, 9, 7) == 7);
    assert(ori_src(msl, 9, 0) == 6);
    assert(ori_acc(msl, 9, 0) == 6);
    assert(ori_src(msl, 9, 1) == 3);
    assert(ori_acc(msl, 9, 1) == 14);
    assert(ori_src(msl, 9, 2) == 1);
    assert(ori_acc(msl, 9, 2) == 13);
    assert(ori_src(msl, 9, 3) == 0);
    assert(ori_acc(msl, 9, 3) == 11);
    assert(ori_src(msl, 9, 4) == 2);
    assert(ori_acc(msl, 9, 4) == 8);
    assert(ori_src(msl, 9, 5) == 5);
    assert(ori_acc(msl, 9, 5) == 0);
    assert(ori_src(msl, 9, 6) == 4);
    assert(ori_acc(msl, 9, 6) == 2);
    assert(ori_src(msl, 9, 7) == 7);
    assert(ori_acc(msl, 9, 7) == 0);
    assert(iter_rot(msl, 6, 0) == 0);
    assert(iter_rot(msl, 12, 0) == 0);
    assert(iter_rot(msl, 6, 1) == 1);
    assert(iter_rot(msl, 12, 1) == 1);
    assert(iter_rot(msl, 6, 2) == 2);
    assert(iter_rot(msl, 12, 2) == 2);
    assert(iter_rot(msl, 6, 3) == 3);
    assert(iter_rot(msl, 12, 3) == 3);
    assert(iter_rot(msl, 6, 4) == 4);
    assert(iter_rot(msl, 12, 4) == 4);
    assert(iter_rot(msl, 6, 5) == 5);
    assert(iter_rot(msl, 12, 5) == 5);
    assert(iter_rot(msl, 6, 6) == 6);
    assert(iter_rot(msl, 12, 6) == 6);
    assert(iter_rot(msl, 6, 7) == 7);
    assert(iter_rot(msl, 12, 7) == 7);
    assert(ori_src(msl, 6, 0) == 0);
    assert(ori_acc(msl, 6, 0) == 2);
    assert(ori_src(msl, 6, 1) == 1);
    assert(ori_acc(msl, 6, 1) == 4);
    assert(ori_src(msl, 6, 2) == 2);
    assert(ori_acc(msl, 6, 2) == 4);
    assert(ori_src(msl, 6, 3) == 3);
    assert(ori_acc(msl, 6, 3) == 4);
    assert(ori_src(msl, 6, 4) == 4);
    assert(ori_acc(msl, 6, 4) == 2);
    assert(ori_src(msl, 6, 5) == 5);
    assert(ori_acc(msl, 6, 5) == 0);
    assert(ori_src(msl, 6, 6) == 6);
    assert(ori_acc(msl, 6, 6) == 2);
    assert(ori_src(msl, 6, 7) == 7);
    assert(ori_acc(msl, 6, 7) == 0);
    assert(ori_src(msl, 12, 0) == 0);
    assert(ori_acc(msl, 12, 0) == 16);
    assert(ori_src(msl, 12, 1) == 1);
    assert(ori_acc(msl, 12, 1) == 18);
    assert(ori_src(msl, 12, 2) == 2);
    assert(ori_acc(msl, 12, 2) == 8);
    assert(ori_src(msl, 12, 3) == 3);
    assert(ori_acc(msl, 12, 3) == 18);
    assert(ori_src(msl, 12, 4) == 4);
    assert(ori_acc(msl, 12, 4) == 6);
    assert(ori_src(msl, 12, 5) == 5);
    assert(ori_acc(msl, 12, 5) == 0);
    assert(ori_src(msl, 12, 6) == 6);
    assert(ori_acc(msl, 12, 6) == 6);
    assert(ori_src(msl, 12, 7) == 7);
    assert(ori_acc(msl, 12, 7) == 0);
    assert forall|k: int| 0 <= k < 8 implies #[trigger] pos_net(twist_seq_for(0, 2))[k] == id_perm()[k] by {
        lemma_pos_run_pointwise(msl, id_perm(), 12, k);
        if k == 0 {
            assert(id_perm()[0] == 0u8);
            assert(pos_net(twist_seq_for(0, 2))[0] == 0u8);
        } else if k == 1 {
            assert(id_perm()[1] == 1u8);
            assert(pos_net(twist_seq_for(0, 2))[1] == 1u8);
        } else if k == 2 {
            assert(id_perm()[2] == 2u8);
            assert(pos_net(twist_seq_for(0, 2))[2] == 2u8);
        } else if k == 3 {
            assert(id_perm()[3] == 3u8);
            assert(pos_net(twist_seq_for(0, 2))[3] == 3u8);
        } else if k == 4 {
            assert(id_perm()[4] == 4u8);
            assert(pos_net(twist_seq_for(0, 2))[4] == 4u8);
        } else if k == 5 {
            assert(id_perm()[5] == 5u8);
            assert(pos_net(twist_seq_for(0, 2))[5] == 5u8);
        } else if k == 6 {
            assert(id_perm()[6] == 6u8);
            assert(pos_net(twist_seq_for(0, 2))[6] == 6u8);
        } else if k == 7 {
            assert(id_perm()[7] == 7u8);
            assert(pos_net(twist_seq_for(0, 2))[7] == 7u8);
        }
    }
    lemma_pos_run_pointwise(msl, id_perm(), 12, 0);
    assert(pos_net(twist_seq_for(0, 2)) =~= id_perm());
    assert forall|t: int| 0 <= t < 8 implies ori_src(twist_seq_for(0, 2), 12, t) == t && #[trigger] ori_acc(twist_seq_for(0, 2), 12, t) % 3 == twist_delta(0, 2, t) by {
        if t == 0 {
            assert(ori_acc(msl, 12, 0) % 3 == 1);
        } else if t == 1 {
            assert(ori_acc(msl, 12, 1) % 3 == 0);
        } else if t == 2 {
            assert(ori_acc(msl, 12, 2) % 3 == 2);
        } else if t == 3 {
            assert(ori_acc(msl, 12, 3) % 3 == 0);
        } else if t == 4 {
            assert(ori_acc(msl, 12, 4) % 3 == 0);
        } else if t == 5 {
            assert(ori_acc(msl, 12, 5) % 3 == 0);
        } else if t == 6 {
            assert(ori_acc(msl, 12, 6) % 3 == 0);
        } else if t == 7 {
            assert(ori_acc(msl, 12, 7) % 3 == 0);
        }
    }
}

#[verifier::rlimit(100)]
#[verifier::spinoff_prover]
proof fn twist_pair_0_3()
    ensures
        twist_pair_ok(0, 3),
{
    reveal_with_fuel(iter_rot, 16);
    reveal_with_fuel(ori_src, 16);
    reveal_with_fuel(ori_acc, 16);
    crate::positions::lemma_move_rot_table();
    crate::orientations::lemma_q_back_table();
    reveal(twist_seq_for);
    let msl: Seq<Move> = seq![Move::U1, Move::B1, Move::L3, Move::B1, Move::L3, Move::B1, Move::L3, Move::B3, Move::L1, Move::B3, Move::L1, Move::B3, Move::L1, Move::U3];
    assert(twist_seq_for(0, 3) =~= msl);
    assert(iter_rot(msl, 3, 0) == 6);
    assert(iter_rot(msl, 3, 1) == 2);
    assert(iter_rot(msl, 3, 2) == 4);
    assert(iter_rot(msl, 3, 3) == 3);
    assert(iter_rot(msl, 3, 4) == 0);
    assert(iter_rot(msl, 3, 5) == 5);
    assert(iter_rot(msl, 3, 6) == 7);
    assert(iter_rot(msl, 3, 7) == 1);
    assert(ori_src(msl, 3, 0) == 4);
    assert(ori_acc(msl, 3, 0) == 0);
    assert(ori_src(msl, 3, 1) == 7);
    assert(ori_acc(msl, 3, 1) == 4);
    assert(ori_src(msl, 3, 2) == 1);
    assert(ori_acc(msl, 3, 2) == 1);
    assert(ori_src(msl, 3, 3) == 3);
    assert(ori_acc(msl, 3, 3) == 2);
    assert(ori_src(msl, 3, 4) == 2);
    assert(ori_acc(msl, 3, 4) == 2);
    assert(ori_src(msl, 3, 5) == 5);
    assert(ori_acc(msl, 3, 5) == 0);
    assert(ori_src(msl, 3, 6) == 0);
    assert(ori_acc(msl, 3, 6) == 2);
    assert(ori_src(msl, 3, 7) == 6);
    assert(ori_acc(msl, 3, 7) == 1);
    assert(iter_rot(msl, 10, 0) == 3);
    assert(iter_rot(msl, 10, 1) == 2);
    assert(iter_rot(msl, 10, 2) == 0);
    assert(iter_rot(msl, 10, 3) == 4);
    assert(iter_rot(msl, 10, 4) == 6);
    assert(iter_rot(msl, 10, 5) == 5);
    assert(iter_rot(msl, 10, 6) == 7);
    assert(iter_rot(msl, 10, 7) == 1);
    assert(ori_src(msl, 10, 0) == 2);
    assert(ori_acc(msl, 10, 0) == 8);
    assert(ori_src(msl, 10, 1) == 7);
    assert(ori_acc(msl, 10, 1) == 16);
    assert(ori_src(msl, 10, 2) == 1);
    assert(ori_acc(msl, 10, 2) == 13);
    assert(ori_src(msl, 10, 3) == 0);
    assert(ori_acc(msl, 10, 3) == 11);
    assert(ori_src(msl, 10, 4) == 3);
    assert(ori_acc(msl, 10, 4) == 9);
    assert(ori_src(msl, 10, 5) == 5);
    assert(ori_acc(msl, 10, 5) == 0);
    assert(ori_src(msl, 10, 6) == 4);
    assert(ori_acc(msl, 10, 6) == 2);
    assert(ori_src(msl, 10, 7) == 6);
    assert(ori_acc(msl, 10, 7) == 1);
    assert(iter_rot(msl, 7, 0) == 0);
    assert(iter_rot(msl, 14, 0) == 0);
    assert(iter_rot(msl, 7, 1) == 1);
    assert(iter_rot(msl, 14, 1) == 1);
    assert(iter_rot(msl, 7, 2) == 6);
    assert(iter_rot(msl, 14, 2) == 2);
    assert(iter_rot(msl, 7, 3) == 2);
    assert(iter_rot(msl, 14, 3) == 3);
    assert(iter_rot(msl, 7, 4) == 4);
    assert(iter_rot(msl, 14, 4) == 4);
    assert(iter_rot(msl, 7, 5) == 5);
    assert(iter_rot(msl, 14, 5) == 5);
    assert(iter_rot(msl, 7, 6) == 7);
    assert(iter_rot(msl, 14, 6) == 6);
    assert(iter_rot(msl, 7, 7) == 3);
    assert(iter_rot(msl, 14, 7) == 7);
    assert(ori_src(msl, 7, 0) == 0);
    assert(ori_acc(msl, 7, 0) == 2);
    assert(ori_src(msl, 7, 1) == 1);
    assert(ori_acc(msl, 7, 1) == 4);
    assert(ori_src(msl, 7, 2) == 3);
    assert(ori_acc(msl, 7, 2) == 5);
    assert(ori_src(msl, 7, 3) == 7);
    assert(ori_acc(msl, 7, 3) == 6);
    assert(ori_src(msl, 7, 4) == 4);
    assert(ori_acc(msl, 7, 4) == 2);
    assert(ori_src(msl, 7, 5) == 5);
    assert(ori_acc(msl, 7, 5) == 0);
    assert(ori_src(msl, 7, 6) == 2);
    assert(ori_acc(msl, 7, 6) == 4);
    assert(ori_src(msl, 7, 7) == 6);
    assert(ori_acc(msl, 7, 7) == 1);
    assert(ori_src(msl, 14, 0) == 0);
    assert(ori_acc(msl, 14, 0) == 16);
    assert(ori_src(msl, 14, 1) == 1);
    assert(ori_acc(msl, 14, 1) == 18);
    assert(ori_src(msl, 14, 2) == 2);
    assert(ori_acc(msl, 14, 2) == 12);
    assert(ori_src(msl, 14, 3) == 3);
    assert(ori_acc(msl, 14, 3) == 14);
    assert(ori_src(msl, 14, 4) == 4);
    assert(ori_acc(msl, 14, 4) == 6);
    assert(ori_src(msl, 14, 5) == 5);
    assert(ori_acc(msl, 14, 5) == 0);
    assert(ori_src(msl, 14, 6) == 6);
    assert(ori_acc(msl, 14, 6) == 6);
    assert(ori_src(msl, 14, 7) == 7);
    assert(ori_acc(msl, 14, 7) == 24);
    assert forall|k: int| 0 <= k < 8 implies #[trigger] pos_net(twist_seq_for(0, 3))[k] == id_perm()[k] by {
        lemma_pos_run_pointwise(msl, id_perm(), 14, k);
        if k == 0 {
            assert(id_perm()[0] == 0u8);
            assert(pos_net(twist_seq_for(0, 3))[0] == 0u8);
        } else if k == 1 {
            assert(id_perm()[1] == 1u8);
            assert(pos_net(twist_seq_for(0, 3))[1] == 1u8);
        } else if k == 2 {
            assert(id_perm()[2] == 2u8);
            assert(pos_net(twist_seq_for(0, 3))[2] == 2u8);
        } else if k == 3 {
            assert(id_perm()[3] == 3u8);
            assert(pos_net(twist_seq_for(0, 3))[3] == 3u8);
        } else if k == 4 {
            assert(id_perm()[4] == 4u8);
            assert(pos_net(twist_seq_for(0, 3))[4] == 4u8);
        } else if k == 5 {
            assert(id_perm()[5] == 5u8);
            assert(pos_net(twist_seq_for(0, 3))[5] == 5u8);
        } else if k == 6 {
            assert(id_perm()[6] == 6u8);
            assert(pos_net(twist_seq_for(0, 3))[6] == 6u8);
        } else if k == 7 {
            assert(id_perm()[7] == 7u8);
            assert(pos_net(twist_seq_for(0, 3))[7] == 7u8);
        }
    }
    lemma_pos_run_pointwise(msl, id_perm(), 14, 0);
    assert(pos_net(twist_seq_for(0, 3)) =~= id_perm());
    assert forall|t: int| 0 <= t < 8 implies ori_src(twist_seq_for(0, 3), 14, t) == t && #[trigger] ori_acc(twist_seq_for(0, 3), 14, t) % 3 == twist_delta(0, 3, t) by {
        if t == 0 {
            assert(ori_acc(msl, 14, 0) % 3 == 1);
        } else if t == 1 {
            assert(ori_acc(msl, 14, 1) % 3 == 0);
        } else if t == 2 {
            assert(ori_acc(msl, 14, 2) % 3 == 0);
        } else if t == 3 {
            assert(ori_acc(msl, 14, 3) % 3 == 2);
        } else if t == 4 {
            assert(ori_acc(msl, 14, 4) % 3 == 0);
        } else if t == 5 {
            assert(ori_acc(msl, 14, 5) % 3 == 0);
        } else if t == 6 {
            assert(ori_acc(msl, 14, 6) % 3 == 0);
        } else if t == 7 {
            assert(ori_acc(msl, 14, 7) % 3 == 0);
        }
    }
}

#[verifier::rlimit(100)]
#[verifier::spinoff_prover]
proof fn twist_pair_0_4()
    ensures
        twist_pair_ok(0, 4),
{
    reveal_with_fuel(iter_rot, 16);
    reveal_with_fuel(ori_src, 16);
    reveal_with_fuel(ori_acc, 16);
    crate::positions::lemma_move_rot_table();
    crate::orientations::lemma_q_back_table();
    reveal(twist_seq_for);
    let msl: Seq<Move> = seq![Move::L1, Move::D3, Move::L1, Move::D3, Move::L1, Move::D3, Move::L3, Move::D1, Move::L3, Move::D1, Move::L3, Move::D1];
    assert(twist_seq_for(0, 4) =~= msl);
    assert(iter_rot(msl, 3, 0) == 5);
    assert(iter_rot(msl, 3, 1) == 4);
    assert(iter_rot(msl, 3, 2) == 6);
    assert(iter_rot(msl, 3, 3) == 3);
    assert(iter_rot(msl, 3, 4) == 2);
    assert(iter_rot(msl, 3, 5) == 1);
    assert(iter_rot(msl, 3, 6) == 0);
    assert(iter_rot(msl, 3, 7) == 7);
    assert(ori_src(msl, 3, 0) == 6);
    assert(ori_acc(msl, 3, 0) == 0);
    assert(ori_src(msl, 3, 1) == 5);
    assert(ori_acc(msl, 3, 1) == 4);
    assert(ori_src(msl, 3, 2) == 4);
    assert(ori_acc(msl, 3, 2) == 0);
    assert(ori_src(msl, 3, 3) == 3);
    assert(ori_acc(msl, 3, 3) == 0);
    assert(ori_src(msl, 3, 4) == 1);
    assert(ori_acc(msl, 3, 4) == 5);
    assert(ori_src(msl, 3, 5) == 0);
    assert(ori_acc(msl, 3, 5) == 5);
    assert(ori_src(msl, 3, 6) == 2);
    assert(ori_acc(msl, 3, 6) == 4);
    assert(ori_src(msl, 3, 7) == 7);
    assert(ori_acc(msl, 3, 7) == 0);
    assert(iter_rot(msl, 9, 0) == 6);
    assert(iter_rot(msl, 9, 1) == 5);
    assert(iter_rot(msl, 9, 2) == 4);
    assert(iter_rot(msl, 9, 3) == 3);
    assert(iter_rot(msl, 9, 4) == 1);
    assert(iter_rot(msl, 9, 5) == 0);
    assert(iter_rot(msl, 9, 6) == 2);
    assert(iter_rot(msl, 9, 7) == 7);
    assert(ori_src(msl, 9, 0) == 5);
    assert(ori_acc(msl, 9, 0) == 15);
    assert(ori_src(msl, 9, 1) == 4);
    assert(ori_acc(msl, 9, 1) == 5);
    assert(ori_src(msl, 9, 2) == 6);
    assert(ori_acc(msl, 9, 2) == 6);
    assert(ori_src(msl, 9, 3) == 3);
    assert(ori_acc(msl, 9, 3) == 0);
    assert(ori_src(msl, 9, 4) == 2);
    assert(ori_acc(msl, 9, 4) == 4);
    assert(ori_src(msl, 9, 5) == 1);
    assert(ori_acc(msl, 9, 5) == 16);
    assert(ori_src(msl, 9, 6) == 0);
    assert(ori_acc(msl, 9, 6) == 14);
    assert(ori_src(msl, 9, 7) == 7);
    assert(ori_acc(msl, 9, 7) == 0);
    assert(iter_rot(msl, 6, 0) == 0);
    assert(iter_rot(msl, 12, 0) == 0);
    assert(iter_rot(msl, 6, 1) == 1);
    assert(iter_rot(msl, 12, 1) == 1);
    assert(iter_rot(msl, 6, 2) == 2);
    assert(iter_rot(msl, 12, 2) == 2);
    assert(iter_rot(msl, 6, 3) == 3);
    assert(iter_rot(msl, 12, 3) == 3);
    assert(iter_rot(msl, 6, 4) == 4);
    assert(iter_rot(msl, 12, 4) == 4);
    assert(iter_rot(msl, 6, 5) == 5);
    assert(iter_rot(msl, 12, 5) == 5);
    assert(iter_rot(msl, 6, 6) == 6);
    assert(iter_rot(msl, 12, 6) == 6);
    assert(iter_rot(msl, 6, 7) == 7);
    assert(iter_rot(msl, 12, 7) == 7);
    assert(ori_src(msl, 6, 0) == 0);
    assert(ori_acc(msl, 6, 0) == 14);
    assert(ori_src(msl, 6, 1) == 1);
    assert(ori_acc(msl, 6, 1) == 14);
    assert(ori_src(msl, 6, 2) == 2);
    assert(ori_acc(msl, 6, 2) == 4);
    assert(ori_src(msl, 6, 3) == 3);
    assert(ori_acc(msl, 6, 3) == 0);
    assert(ori_src(msl, 6, 4) == 4);
    assert(ori_acc(msl, 6, 4) == 4);
    assert(ori_src(msl, 6, 5) == 5);
    assert(ori_acc(msl, 6, 5) == 14);
    assert(ori_src(msl, 6, 6) == 6);
    assert(ori_acc(msl, 6, 6) == 4);
    assert(ori_src(msl, 6, 7) == 7);
    assert(ori_acc(msl, 6, 7) == 0);
    assert(ori_src(msl, 12, 0) == 0);
    assert(ori_acc(msl, 12, 0) == 16);
    assert(ori_src(msl, 12, 1) == 1);
    assert(ori_acc(msl, 12, 1) == 18);
    assert(ori_src(msl, 12, 2) == 2);
    assert(ori_acc(msl, 12, 2) == 6);
    assert(ori_src(msl, 12, 3) == 3);
    assert(ori_acc(msl, 12, 3) == 0);
    assert(ori_src(msl, 12, 4) == 4);
    assert(ori_acc(msl, 12, 4) == 8);
    assert(ori_src(msl, 12, 5) == 5);
    assert(ori_acc(msl, 12, 5) == 18);
    assert(ori_src(msl, 12, 6) == 6);
    assert(ori_acc(msl, 12, 6) == 6);
    assert(ori_src(msl, 12, 7) == 7);
    assert(ori_acc(msl, 12, 7) == 0);
    assert forall|k: int| 0 <= k < 8 implies #[trigger] pos_net(twist_seq_for(0, 4))[k] == id_perm()[k] by {
        lemma_pos_run_pointwise(msl, id_perm(), 12, k);
        if k == 0 {
            assert(id_perm()[0] == 0u8);
            assert(pos_net(twist_seq_for(0, 4))[0] == 0u8);
        } else if k == 1 {
            assert(id_perm()[1] == 1u8);
            assert(pos_net(twist_seq_for(0, 4))[1] == 1u8);
        } else if k == 2 {
            assert(id_perm()[2] == 2u8);
            assert(pos_net(twist_seq_for(0, 4))[2] == 2u8);
        } else if k == 3 {
            assert(id_perm()[3] == 3u8);
            assert(pos_net(twist_seq_for(0, 4))[3] == 3u8);
        } else if k == 4 {
            assert(id_perm()[4] == 4u8);
            assert(pos_net(twist_seq_for(0, 4))[4] == 4u8);
        } else if k == 5 {
            assert(id_perm()[5] == 5u8);
            assert(pos_net(twist_seq_for(0, 4))[5] == 5u8);
        } else if k == 6 {
            assert(id_perm()[6] == 6u8);
            assert(pos_net(twist_seq_for(0, 4))[6] == 6u8);
        } else if k == 7 {
            assert(id_perm()[7] == 7u8);
            assert(pos_net(twist_seq_for(0, 4))[7] == 7u8);
        }
    }
    lemma_pos_run_pointwise(msl, id_perm(), 12, 0);
    assert(pos_net(twist_seq_for(0, 4)) =~= id_perm());
    assert forall|t: int| 0 <= t < 8 implies ori_src(twist_seq_for(0, 4), 12, t) == t && #[trigger] ori_acc(twist_seq_for(0, 4), 12, t) % 3 == twist_delta(0, 4, t) by {
        if t == 0 {
            assert(ori_acc(msl, 12, 0) % 3 == 1);
        } else if t == 1 {
            assert(ori_acc(msl, 12, 1) % 3 == 0);
        } else if t == 2 {
            assert(ori_acc(msl, 12, 2) % 3 == 0);
        } else if t == 3 {
            assert(ori_acc(msl, 12, 3) % 3 == 0);
        } else if t == 4 {
            assert(ori_acc(msl, 12, 4) % 3 == 2);
        } else if t == 5 {
            assert(ori_acc(msl, 12, 5) % 3 == 0);
        } else if t == 6 {
            assert(ori_acc(msl, 12, 6) % 3 == 0);
        } else if t == 7 {
            assert(ori_acc(msl, 12, 7) % 3 == 0);
        }
    }
}

#[verifier::rlimit(100)]
#[verifier::spinoff_prover]
proof fn twist_pair_0_5()
    ensures
        twist_pair_ok(0, 5),
{
    reveal_with_fuel(iter_rot, 16);
    reveal_with_fuel(ori_src, 16);
    reveal_with_fuel(ori_acc, 16);
    crate::positions::lemma_move_rot_table();
    crate::orientations::lemma_q_back_table();
    reveal(twist_seq_for);
    let msl: Seq<Move> = seq![Move::R1, Move::D1, Move::B3, Move::D1, Move::B3, Move::D1, Move::B3, Move::D3, Move::B1, Move::D3, Move::B1, Move::D3, Move::B1, Move::R3];
    assert(twist_seq_for(0, 5) =~= msl);
    assert(iter_rot(msl, 3, 0) == 3);
    assert(iter_rot(msl, 3, 1) == 2);
    assert(iter_rot(msl, 3, 2) == 0);
    assert(iter_rot(msl, 3, 3) == 7);
    assert(iter_rot(msl, 3, 4) == 1);
    assert(iter_rot(msl, 3, 5) == 5);
    assert(iter_rot(msl, 3, 6) == 6);
    assert(iter_rot(msl, 3, 7) == 4);
    assert(ori_src(msl, 3, 0) == 2);
    assert(ori_acc(msl, 3, 0) == 4);
    assert(ori_src(msl, 3, 1) == 4);
    assert(ori_acc(msl, 3, 1) == 7);
    assert(ori_src(msl, 3, 2) == 1);
    assert(ori_acc(msl, 3, 2) == 5);
    assert(ori_src(msl, 3, 3) == 0);
    assert(ori_acc(msl, 3, 3) == 5);
    assert(ori_src(msl, 3, 4) == 7);
    assert(ori_acc(msl, 3, 4) == 1);
    assert(ori_src(msl, 3, 5) == 5);
    assert(ori_acc(msl, 3, 5) == 2);
    assert(ori_src(msl, 3, 6) == 6);
    assert(ori_acc(msl, 3, 6) == 0);
    assert(ori_src(msl, 3, 7) == 3);
    assert(ori_acc(msl, 3, 7) == 0);
    assert(iter_rot(msl, 10, 0) == 5);
    assert(iter_rot(msl, 10, 1) == 0);
    assert(iter_rot(msl, 10, 2) == 3);
    assert(iter_rot(msl, 10, 3) == 7);
    assert(iter_rot(msl, 10, 4) == 1);
    assert(iter_rot(msl, 10, 5) == 2);
    assert(iter_rot(msl, 10, 6) == 6);
    assert(iter_rot(msl, 10, 7) == 4);
    assert(ori_src(msl, 10, 0) == 1);
    assert(ori_acc(msl, 10, 0) == 21);
    assert(ori_src(msl, 10, 1) == 4);
    assert(ori_acc(msl, 10, 1) == 19);
    assert(ori_src(msl, 10, 2) == 5);
    assert(ori_acc(msl, 10, 2) == 17);
    assert(ori_src(msl, 10, 3) == 2);
    assert(ori_acc(msl, 10, 3) == 15);
    assert(ori_src(msl, 10, 4) == 7);
    assert(ori_acc(msl, 10, 4) == 19);
    assert(ori_src(msl, 10, 5) == 0);
    assert(ori_acc(msl, 10, 5) == 23);
    assert(ori_src(msl, 10, 6) == 6);
    assert(ori_acc(msl, 10, 6) == 0);
    assert(ori_src(msl, 10, 7) == 3);
    assert(ori_acc(msl, 10, 7) == 0);
    assert(iter_rot(msl, 7, 0) == 0);
    assert(iter_rot(msl, 14, 0) == 0);
    assert(iter_rot(msl, 7, 1) == 3);
    assert(iter_rot(msl, 14, 1) == 1);
    assert(iter_rot(msl, 7, 2) == 2);
    assert(iter_rot(msl, 14, 2) == 2);
    assert(iter_rot(msl, 7, 3) == 7);
    assert(iter_rot(msl, 14, 3) == 3);
    assert(iter_rot(msl, 7, 4) == 4);
    assert(iter_rot(msl, 14, 4) == 4);
    assert(iter_rot(msl, 7, 5) == 1);
    assert(iter_rot(msl, 14, 5) == 5);
    assert(iter_rot(msl, 7, 6) == 6);
    assert(iter_rot(msl, 14, 6) == 6);
    assert(iter_rot(msl, 7, 7) == 5);
    assert(iter_rot(msl, 14, 7) == 7);
    assert(ori_src(msl, 7, 0) == 0);
    assert(ori_acc(msl, 7, 0) == 14);
    assert(ori_src(msl, 7, 1) == 5);
    assert(ori_acc(msl, 7, 1) == 10);
    assert(ori_src(msl, 7, 2) == 2);
    assert(ori_acc(msl, 7, 2) == 14);
    assert(ori_src(msl, 7, 3) == 1);
    assert(ori_acc(msl, 7, 3) == 14);
    assert(ori_src(msl, 7, 4) == 4);
    assert(ori_acc(msl, 7, 4) == 10);
    assert(ori_src(msl, 7, 5) == 7);
    assert(ori_acc(msl, 7, 5) == 10);
    assert(ori_src(msl, 7, 6) == 6);
    assert(ori_acc(msl, 7, 6) == 0);
    assert(ori_src(msl, 7, 7) == 3);
    assert(ori_acc(msl, 7, 7) == 0);
    assert(ori_src(msl, 14, 0) == 0);
    assert(ori_acc(msl, 14, 0) == 28);
    assert(ori_src(msl, 14, 1) == 1);
    assert(ori_acc(msl, 14, 1) == 24);
    assert(ori_src(msl, 14, 2) == 2);
    assert(ori_acc(msl, 14, 2) == 24);
    assert(ori_src(msl, 14, 3) == 3);
    assert(ori_acc(msl, 14, 3) == 0);
    assert(ori_src(msl, 14, 4) == 4);
    assert(ori_acc(msl, 14, 4) == 24);
    assert(ori_src(msl, 14, 5) == 5);
    assert(ori_acc(msl, 14, 5) == 20);
    assert(ori_src(msl, 14, 6) == 6);
    assert(ori_acc(msl, 14, 6) == 0);
    assert(ori_src(msl, 14, 7) == 7);
    assert(ori_acc(msl, 14, 7) == 24);
    assert forall|k: int| 0 <= k < 8 implies #[trigger] pos_net(twist_seq_for(0, 5))[k] == id_perm()[k] by {
        lemma_pos_run_pointwise(msl, id_perm(), 14, k);
        if k == 0 {
            assert(id_perm()[0] == 0u8);
            assert(pos_net(twist_seq_for(0, 5))[0] == 0u8);
        } else if k == 1 {
            assert(id_perm()[1] == 1u8);
            assert(pos_net(twist_seq_for(0, 5))[1] == 1u8);
        } else if k == 2 {
            assert(id_perm()[2] == 2u8);
            assert(pos_net(twist_seq_for(0, 5))[2] == 2u8);
        } else if k == 3 {
            assert(id_perm()[3] == 3u8);
            assert(pos_net(twist_seq_for(0, 5))[3] == 3u8);
        } else if k == 4 {
            assert(id_perm()[4] == 4u8);
            assert(pos_net(twist_seq_for(0, 5))[4] == 4u8);
        } else if k == 5 {
            assert(id_perm()[5] == 5u8);
            assert(pos_net(twist_seq_for(0, 5))[5] == 5u8);
        } else if k == 6 {
            assert(id_perm()[6] == 6u8);
            assert(pos_net(twist_seq_for(0, 5))[6] == 6u8);
        } else if k == 7 {
            assert(id_perm()[7] == 7u8);
            assert(pos_net(twist_seq_for(0, 5))[7] == 7u8);
        }
    }
    lemma_pos_run_pointwise(msl, id_perm(), 14, 0);
    assert(pos_net(twist_seq_for(0, 5)) =~= id_perm());
    assert forall|t: int| 0 <= t < 8 implies ori_src(twist_seq_for(0, 5), 14, t) == t && #[trigger] ori_acc(twist_seq_for(0, 5), 14, t) % 3 == twist_delta(0, 5, t) by {
        if t == 0 {
            assert(ori_acc(msl, 14, 0) % 3 == 1);
        } else if t == 1 {
            assert(ori_acc(msl, 14, 1) % 3 == 0);
        } else if t == 2 {
            assert(ori_acc(msl, 14, 2) % 3 == 0);
        } else if t == 3 {
            assert(ori_acc(msl, 14, 3) % 3 == 0);
        } else if t == 4 {
            assert(ori_acc(msl, 14, 4) % 3 == 0);
        } else if t == 5 {
            assert(ori_acc(msl, 14, 5) % 3 == 2);
        } else if t == 6 {
            assert(ori_acc(msl, 14, 6) % 3 == 0);
        } else if t == 7 {
            assert(ori_acc(msl, 14, 7) % 3 == 0);
        }
    }
}

#[verifier::rlimit(100)]
#[verifier::spinoff_prover]
proof fn twist_pair_0_6()
    ensures
        twist_pair_ok(0, 6),
{
    reveal_with_fuel(iter_rot, 16);
    reveal_with_fuel(ori_src, 16);
    reveal_with_fuel(ori_acc, 16);
    crate::positions::lemma_move_rot_table();
    crate::orientations::lemma_q_back_table();
    reveal(twist_seq_for);
    let msl: Seq<Move> = seq![Move::F1, Move::L1, Move::D3, Move::L1, Move::D3, Move::L1, Move::D3, Move::L3, Move::D1, Move::L3, Move::D1, Move::L3, Move::D1, Move::F3];
    assert(twist_seq_for(0, 6) =~= msl);
    assert(iter_rot(msl, 3, 0) == 5);
    assert(iter_rot(msl, 3, 1) == 0);
    assert(iter_rot(msl, 3, 2) == 4);
    assert(iter_rot(msl, 3, 3) == 3);
    assert(iter_rot(msl, 3, 4) == 1);
    assert(iter_rot(msl, 3, 5) == 7);
    assert(iter_rot(msl, 3, 6) == 6);
    assert(iter_rot(msl, 3, 7) == 2);
    assert(ori_src(msl, 3, 0) == 1);
    assert(ori_acc(msl, 3, 0) == 5);
    assert(ori_src(msl, 3, 1) == 4);
    assert(ori_acc(msl, 3, 1) == 5);
    assert(ori_src(msl, 3, 2) == 7);
    assert(ori_acc(msl, 3, 2) == 1);
    assert(ori_src(msl, 3, 3) == 3);
    assert(ori_acc(msl, 3, 3) == 0);
    assert(ori_src(msl, 3, 4) == 2);
    assert(ori_acc(msl, 3, 4) == 4);
    assert(ori_src(msl, 3, 5) == 0);
    assert(ori_acc(msl, 3, 5) == 5);
    assert(ori_src(msl, 3, 6) == 6);
    assert(ori_acc(msl, 3, 6) == 2);
    assert(ori_src(msl, 3, 7) == 5);
    assert(ori_acc(msl, 3, 7) == 2);
    assert(iter_rot(msl, 10, 0) == 6);
    assert(iter_rot(msl, 10, 1) == 5);
    assert(iter_rot(msl, 10, 2) == 4);
    assert(iter_rot(msl, 10, 3) == 3);
    assert(iter_rot(msl, 10, 4) == 0);
    assert(iter_rot(msl, 10, 5) == 7);
    assert(iter_rot(msl, 10, 6) == 1);
    assert(iter_rot(msl, 10, 7) == 2);
    assert(ori_src(msl, 10, 0) == 4);
    assert(ori_acc(msl, 10, 0) == 16);
    assert(ori_src(msl, 10, 1) == 6);
    assert(ori_acc(msl, 10, 1) == 7);
    assert(ori_src(msl, 10, 2) == 7);
    assert(ori_acc(msl, 10, 2) == 7);
    assert(ori_src(msl, 10, 3) == 3);
    assert(ori_acc(msl, 10, 3) == 0);
    assert(ori_src(msl, 10, 4) == 2);
    assert(ori_acc(msl, 10, 4) == 4);
    assert(ori_src(msl, 10, 5) == 1);
    assert(ori_acc(msl, 10, 5) == 16);
    assert(ori_src(msl, 10, 6) == 0);
    assert(ori_acc(msl, 10, 6) == 14);
    assert(ori_src(msl, 10, 7) == 5);
    assert(ori_acc(msl, 10, 7) == 2);
    assert(iter_rot(msl, 7, 0) == 0);
    assert(iter_rot(msl, 14, 0) == 0);
    assert(iter_rot(msl, 7, 1) == 1);
    assert(iter_rot(msl, 14, 1) == 1);
    assert(iter_rot(msl, 7, 2) == 2);
    assert(iter_rot(msl, 14, 2) == 2);
    assert(iter_rot(msl, 7, 3) == 3);
    assert(iter_rot(msl, 14, 3) == 3);
    assert(iter_rot(msl, 7, 4) == 5);
    assert(iter_rot(msl, 14, 4) == 4);
    assert(iter_rot(msl, 7, 5) == 7);
    assert(iter_rot(msl, 14, 5) == 5);
    assert(iter_rot(msl, 7, 6) == 4);
    assert(iter_rot(msl, 14, 6) == 6);
    assert(iter_rot(msl, 7, 7) == 6);
    assert(iter_rot(msl, 14, 7) == 7);
    assert(ori_src(msl, 7, 0) == 0);
    assert(ori_acc(msl, 7, 0) == 14);
    assert(ori_src(msl, 7, 1) == 1);
    assert(ori_acc(msl, 7, 1) == 14);
    assert(ori_src(msl, 7, 2) == 2);
    assert(ori_acc(msl, 7, 2) == 4);
    assert(ori_src(msl, 7, 3) == 3);
    assert(ori_acc(msl, 7, 3) == 0);
    assert(ori_src(msl, 7, 4) == 6);
    assert(ori_acc(msl, 7, 4) == 6);
    assert(ori_src(msl, 7, 5) == 4);
    assert(ori_acc(msl, 7, 5) == 15);
    assert(ori_src(msl, 7, 6) == 7);
    assert(ori_acc(msl, 7, 6) == 5);
    assert(ori_src(msl, 7, 7) == 5);
    assert(ori_acc(msl, 7, 7) == 2);
    assert(ori_src(msl, 14, 0) == 0);
    assert(ori_acc(msl, 14, 0) == 16);
    assert(ori_src(msl, 14, 1) == 1);
    assert(ori_acc(msl, 14, 1) == 18);
    assert(ori_src(msl, 14, 2) == 2);
    assert(ori_acc(msl, 14, 2) == 6);
    assert(ori_src(msl, 14, 3) == 3);
    assert(ori_acc(msl, 14, 3) == 0);
    assert(ori_src(msl, 14, 4) == 4);
    assert(ori_acc(msl, 14, 4) == 24);
    assert(ori_src(msl, 14, 5) == 5);
    assert(ori_acc(msl, 14, 5) == 6);
    assert(ori_src(msl, 14, 6) == 6);
    assert(ori_acc(msl, 14, 6) == 14);
    assert(ori_src(msl, 14, 7) == 7);
    assert(ori_acc(msl, 14, 7) == 12);
    assert forall|k: int| 0 <= k < 8 implies #[trigger] pos_net(twist_seq_for(0, 6))[k] == id_perm()[k] by {
        lemma_pos_run_pointwise(msl, id_perm(), 14, k);
        if k == 0 {
            assert(id_perm()[0] == 0u8);
            assert(pos_net(twist_seq_for(0, 6))[0] == 0u8);
        } else if k == 1 {
            assert(id_perm()[1] == 1u8);
            assert(pos_net(twist_seq_for(0, 6))[1] == 1u8);
        } else if k == 2 {
            assert(id_perm()[2] == 2u8);
            assert(pos_net(twist_seq_for(0, 6))[2] == 2u8);
        } else if k == 3 {
            assert(id_perm()[3] == 3u8);
            assert(pos_net(twist_seq_for(0, 6))[3] == 3u8);
        } else if k == 4 {
            assert(id_perm()[4] == 4u8);
            assert(pos_net(twist_seq_for(0, 6))[4] == 4u8);
        } else if k == 5 {
            assert(id_perm()[5] == 5u8);
            assert(pos_net(twist_seq_for(0, 6))[5] == 5u8);
        } else if k == 6 {
            assert(id_perm()[6] == 6u8);
            assert(pos_net(twist_seq_for(0, 6))[6] == 6u8);
        } else if k == 7 {
            assert(id_perm()[7] == 7u8);
            assert(pos_net(twist_seq_for(0, 6))[7] == 7u8);
        }
    }
    lemma_pos_run_pointwise(msl, id_perm(), 14, 0);
    assert(pos_net(twist_seq_for(0, 6)) =~= id_perm());
    assert forall|t: int| 0 <= t < 8 implies ori_src(twist_seq_for(0, 6), 14, t) == t && #[trigger] ori_acc(twist_seq_for(0, 6), 14, t) % 3 == twist_delta(0, 6, t) by {
        if t == 0 {
            assert(ori_acc(msl, 14, 0) % 3 == 1);
        } else if t == 1 {
            assert(ori_acc(msl, 14, 1) % 3 == 0);
        } else if t == 2 {
            assert(ori_acc(msl, 14, 2) % 3 == 0);
        } else if t == 3 {
            assert(ori_acc(msl, 14, 3) % 3 == 0);
        } else if t == 4 {
            assert(ori_acc(msl, 14, 4) % 3 == 0);
        } else if t == 5 {
            assert(ori_acc(msl, 14, 5) % 3 == 0);
        } else if t == 6 {
            assert(ori_acc(msl, 14, 6) % 3 == 2);
        } else if t == 7 {
            assert(ori_acc(msl, 14, 7) % 3 == 0);
        }
    }
}

#[verifier::rlimit(100)]
#[verifier::spinoff_prover]
proof fn twist_pair_0_7()
    ensures
        twist_pair_ok(0, 7),
{
    reveal_with_fuel(iter_rot, 16);
    reveal_with_fuel(ori_src, 16);
    reveal_with_fuel(ori_acc, 16);
    crate::positions::lemma_move_rot_table();
    crate::orientations::lemma_q_back_table();
    reveal(twist_seq_for);
    let msl: Seq<Move> = seq![Move::F2, Move::L1, Move::D3, Move::L1, Move::D3, Move::L1, Move::D3, Move::L3, Move::D1, Move::L3, Move::D1, Move::L3, Move::D1, Move::F2];
    assert(twist_seq_for(0, 7) =~= msl);
    assert(iter_rot(msl, 3, 0) == 5);
    assert(iter_rot(msl, 3, 1) == 0);
    assert(iter_rot(msl, 3, 2) == 4);
    assert(iter_rot(msl, 3, 3) == 3);
    assert(iter_rot(msl, 3, 4) == 7);
    assert(iter_rot(msl, 3, 5) == 2);
    assert(iter_rot(msl, 3, 6) == 1);
    assert(iter_rot(msl, 3, 7) == 6);
    assert(ori_src(msl, 3, 0) == 1);
    assert(ori_acc(msl, 3, 0) == 5);
    assert(ori_src(msl, 3, 1) == 6);
    assert(ori_acc(msl, 3, 1) == 7);
    assert(ori_src(msl, 3, 2) == 5);
    assert(ori_acc(msl, 3, 2) == 3);
    assert(ori_src(msl, 3, 3) == 3);
    assert(ori_acc(msl, 3, 3) == 0);
    assert(ori_src(msl, 3, 4) == 2);
    assert(ori_acc(msl, 3, 4) == 4);
    assert(ori_src(msl, 3, 5) == 0);
    assert(ori_acc(msl, 3, 5) == 5);
    assert(ori_src(msl, 3, 6) == 7);
    assert(ori_acc(msl, 3, 6) == 3);
    assert(ori_src(msl, 3, 7) == 4);
    assert(ori_acc(msl, 3, 7) == 3);
    assert(iter_rot(msl, 10, 0) == 6);
    assert(iter_rot(msl, 10, 1) == 5);
    assert(iter_rot(msl, 10, 2) == 4);
    assert(iter_rot(msl, 10, 3) == 3);
    assert(iter_rot(msl, 10, 4) == 7);
    assert(iter_rot(msl, 10, 5) == 2);
    assert(iter_rot(msl, 10, 6) == 0);
    assert(iter_rot(msl, 10, 7) == 1);
    assert(ori_src(msl, 10, 0) == 6);
    assert(ori_acc(msl, 10, 0) == 18);
    assert(ori_src(msl, 10, 1) == 7);
    assert(ori_acc(msl, 10, 1) == 8);
    assert(ori_src(msl, 10, 2) == 5);
    assert(ori_acc(msl, 10, 2) == 9);
    assert(ori_src(msl, 10, 3) == 3);
    assert(ori_acc(msl, 10, 3) == 0);
    assert(ori_src(msl, 10, 4) == 2);
    assert(ori_acc(msl, 10, 4) == 4);
    assert(ori_src(msl, 10, 5) == 1);
    assert(ori_acc(msl, 10, 5) == 16);
    assert(ori_src(msl, 10, 6) == 0);
    assert(ori_acc(msl, 10, 6) == 14);
    assert(ori_src(msl, 10, 7) == 4);
    assert(ori_acc(msl, 10, 7) == 3);
    assert(iter_rot(msl, 7, 0) == 0);
    assert(iter_rot(msl, 14, 0) == 0);
    assert(iter_rot(msl, 7, 1) == 1);
    assert(iter_rot(msl, 14, 1) == 1);
    assert(iter_rot(msl, 7, 2) == 2);
    assert(iter_rot(msl, 14, 2) == 2);
    assert(iter_rot(msl, 7, 3) == 3);
    assert(iter_rot(msl, 14, 3) == 3);
    assert(iter_rot(msl, 7, 4) == 7);
    assert(iter_rot(msl, 14, 4) == 4);
    assert(iter_rot(msl, 7, 5) == 6);
    assert(iter_rot(msl, 14, 5) == 5);
    assert(iter_rot(msl, 7, 6) == 5);
    assert(iter_rot(msl, 14, 6) == 6);
    assert(iter_rot(msl, 7, 7) == 4);
    assert(iter_rot(msl, 14, 7) == 7);
    assert(ori_src(msl, 7, 0) == 0);
    assert(ori_acc(msl, 7, 0) == 14);
    assert(ori_src(msl, 7, 1) == 1);
    assert(ori_acc(msl, 7, 1) == 14);
    assert(ori_src(msl, 7, 2) == 2);
    assert(ori_acc(msl, 7, 2) == 4);
    assert(ori_src(msl, 7, 3) == 3);
    assert(ori_acc(msl, 7, 3) == 0);
    assert(ori_src(msl, 7, 4) == 7);
    assert(ori_acc(msl, 7, 4) == 7);
    assert(ori_src(msl, 7, 5) == 6);
    assert(ori_acc(msl, 7, 5) == 17);
    assert(ori_src(msl, 7, 6) == 5);
    assert(ori_acc(msl, 7, 6) == 7);
    assert(ori_src(msl, 7, 7) == 4);
    assert(ori_acc(msl, 7, 7) == 3);
    assert(ori_src(msl, 14, 0) == 0);
    assert(ori_acc(msl, 14, 0) == 16);
    assert(ori_src(msl, 14, 1) == 1);
    assert(ori_acc(msl, 14, 1) == 18);
    assert(ori_src(msl, 14, 2) == 2);
    assert(ori_acc(msl, 14, 2) == 6);
    assert(ori_src(msl, 14, 3) == 3);
    assert(ori_acc(msl, 14, 3) == 0);
    assert(ori_src(msl, 14, 4) == 4);
    assert(ori_acc(msl, 14, 4) == 6);
    assert(ori_src(msl, 14, 5) == 5);
    assert(ori_acc(msl, 14, 5) == 12);
    assert(ori_src(msl, 14, 6) == 6);
    assert(ori_acc(msl, 14, 6) == 24);
    assert(ori_src(msl, 14, 7) == 7);
    assert(ori_acc(msl, 14, 7) == 14);
    assert forall|k: int| 0 <= k < 8 implies #[trigger] pos_net(twist_seq_for(0, 7))[k] == id_perm()[k] by {
        lemma_pos_run_pointwise(msl, id_perm(), 14, k);
        if k == 0 {
            assert(id_perm()[0] == 0u8);
            assert(pos_net(twist_seq_for(0, 7))[0] == 0u8);
        } else if k == 1 {
            assert(id_perm()[1] == 1u8);
            assert(pos_net(twist_seq_for(0, 7))[1] == 1u8);
        } else if k == 2 {
            assert(id_perm()[2] == 2u8);
            assert(pos_net(twist_seq_for(0, 7))[2] == 2u8);
        } else if k == 3 {
            assert(id_perm()[3] == 3u8);
            assert(pos_net(twist_seq_for(0, 7))[3] == 3u8);
        } else if k == 4 {
            assert(id_perm()[4] == 4u8);
            assert(pos_net(twist_seq_for(0, 7))[4] == 4u8);
        } else if k == 5 {
            assert(id_perm()[5] == 5u8);
            assert(pos_net(twist_seq_for(0, 7))[5] == 5u8);
        } else if k == 6 {
            assert(id_perm()[6] == 6u8);
            assert(pos_net(twist_seq_for(0, 7))[6] == 6u8);
        } else if k == 7 {
            assert(id_perm()[7] == 7u8);
            assert(pos_net(twist_seq_for(0, 7))[7] == 7u8);
        }
    }
    lemma_pos_run_pointwise(msl, id_perm(), 14, 0);
    assert(pos_net(twist_seq_for(0, 7)) =~= id_perm());
    assert forall|t: int| 0 <= t < 8 implies ori_src(twist_seq_for(0, 7), 14, t) == t && #[trigger] ori_acc(twist_seq_for(0, 7), 14, t) % 3 == twist_delta(0, 7, t) by {
        if t == 0 {
            assert(ori_acc(msl, 14, 0) % 3 == 1);
        } else if t == 1 {
            assert(ori_acc(msl, 14, 1) % 3 == 0);
        } else if t == 2 {
            assert(ori_acc(msl, 14, 2) % 3 == 0);
        } else if t == 3 {
            assert(ori_acc(msl, 14, 3) % 3 == 0);
        } else if t == 4 {
            assert(ori_acc(msl, 14, 4) % 3 == 0);
        } else if t == 5 {
            assert(ori_acc(msl, 14, 5) % 3 == 0);
        } else if t == 6 {
            assert(ori_acc(msl, 14, 6) % 3 == 0);
        } else if t == 7 {
            assert(ori_acc(msl, 14, 7) % 3 == 2);
        }
    }
}

#[verifier::rlimit(100)]
#[verifier::spinoff_prover]
proof fn twist_pair_1_0()
    ensures
        twist_pair_ok(1, 0),
{
    reveal_with_fuel(iter_rot, 16);
    reveal_with_fuel(ori_src, 16);
    reveal_with_fuel(ori_acc, 16);
    crate::positions::lemma_move_rot_table();
    crate::orientations::lemma_q_back_table();
    reveal(twist_seq_for);
    let msl: Seq<Move> = seq![Move::B1, Move::D3, Move::B1, Move::D3, Move::B1, Move::D3, Move::B3, Move::D1, Move::B3, Move::D1, Move::B3, Move::D1];
    assert(twist_seq_for(1, 0) =~= msl);
    assert(iter_rot(msl, 3, 0) == 3);
    assert(iter_rot(msl, 3, 1) == 4);
    assert(iter_rot(msl, 3, 2) == 1);
    assert(iter_rot(msl, 3, 3) == 2);
    assert(iter_rot(msl, 3, 4) == 5);
    assert(iter_rot(msl, 3, 5) == 0);
    assert(iter_rot(msl, 3, 6) == 6);
    assert(iter_rot(msl, 3, 7) == 7);
    assert(ori_src(msl, 3, 0) == 5);
    assert(ori_acc(msl, 3, 0) == 5);
    assert(ori_src(msl, 3, 1) == 2);
    assert(ori_acc(msl, 3, 1) == 3);
    assert(ori_src(msl, 3, 2) == 3);
    assert(ori_acc(msl, 3, 2) == 9);
    assert(ori_src(msl, 3, 3) == 0);
    assert(ori_acc(msl, 3, 3) == 3);
    assert(ori_src(msl, 3, 4) == 1);
    assert(ori_acc(msl, 3, 4) == 5);
    assert(ori_src(msl, 3, 5) == 4);
    assert(ori_acc(msl, 3, 5) == 5);
    assert(ori_src(msl, 3, 6) == 6);
    assert(ori_acc(msl, 3, 6) == 0);
    assert(ori_src(msl, 3, 7) == 7);
    assert(ori_acc(msl, 3, 7) == 0);
    assert(iter_rot(msl, 9, 0) == 5);
    assert(iter_rot(msl, 9, 1) == 2);
    assert(iter_rot(msl, 9, 2) == 3);
    assert(iter_rot(msl, 9, 3) == 0);
    assert(iter_rot(msl, 9, 4) == 1);
    assert(iter_rot(msl, 9, 5) == 4);
    assert(iter_rot(msl, 9, 6) == 6);
    assert(iter_rot(msl, 9, 7) == 7);
    assert(ori_src(msl, 9, 0) == 3);
    assert(ori_acc(msl, 9, 0) == 19);
    assert(ori_src(msl, 9, 1) == 4);
    assert(ori_acc(msl, 9, 1) == 21);
    assert(ori_src(msl, 9, 2) == 1);
    assert(ori_acc(msl, 9, 2) == 23);
    assert(ori_src(msl, 9, 3) == 2);
    assert(ori_acc(msl, 9, 3) == 19);
    assert(ori_src(msl, 9, 4) == 5);
    assert(ori_acc(msl, 9, 4) == 15);
    assert(ori_src(msl, 9, 5) == 0);
    assert(ori_acc(msl, 9, 5) == 17);
    assert(ori_src(msl, 9, 6) == 6);
    assert(ori_acc(msl, 9, 6) == 0);
    assert(ori_src(msl, 9, 7) == 7);
    assert(ori_acc(msl, 9, 7) == 0);
    assert(iter_rot(msl, 6, 0) == 0);
    assert(iter_rot(msl, 12, 0) == 0);
    assert(iter_rot(msl, 6, 1) == 1);
    assert(iter_rot(msl, 12, 1) == 1);
    assert(iter_rot(msl, 6, 2) == 2);
    assert(iter_rot(msl, 12, 2) == 2);
    assert(iter_rot(msl, 6, 3) == 3);
    assert(iter_rot(msl, 12, 3) == 3);
    assert(iter_rot(msl, 6, 4) == 4);
    assert(iter_rot(msl, 12, 4) == 4);
    assert(iter_rot(msl, 6, 5) == 5);
    assert(iter_rot(msl, 12, 5) == 5);
    assert(iter_rot(msl, 6, 6) == 6);
    assert(iter_rot(msl, 12, 6) == 6);
    assert(iter_rot(msl, 6, 7) == 7);
    assert(iter_rot(msl, 12, 7) == 7);
    assert(ori_src(msl, 6, 0) == 0);
    assert(ori_acc(msl, 6, 0) == 10);
    assert(ori_src(msl, 6, 1) == 1);
    assert(ori_acc(msl, 6, 1) == 14);
    assert(ori_src(msl, 6, 2) == 2);
    assert(ori_acc(msl, 6, 2) == 10);
    assert(ori_src(msl, 6, 3) == 3);
    assert(ori_acc(msl, 6, 3) == 10);
    assert(ori_src(msl, 6, 4) == 4);
    assert(ori_acc(msl, 6, 4) == 14);
    assert(ori_src(msl, 6, 5) == 5);
    assert(ori_acc(msl, 6, 5) == 14);
    assert(ori_src(msl, 6, 6) == 6);
    assert(ori_acc(msl, 6, 6) == 0);
    assert(ori_src(msl, 6, 7) == 7);
    assert(ori_acc(msl, 6, 7) == 0);
    assert(ori_src(msl, 12, 0) == 0);
    assert(ori_acc(msl, 12, 0) == 20);
    assert(ori_src(msl, 12, 1) == 1);
    assert(ori_acc(msl, 12, 1) == 28);
    assert(ori_src(msl, 12, 2) == 2);
    assert(ori_acc(msl, 12, 2) == 24);
    assert(ori_src(msl, 12, 3) == 3);
    assert(ori_acc(msl, 12, 3) == 24);
    assert(ori_src(msl, 12, 4) == 4);
    assert(ori_acc(msl, 12, 4) == 24);
    assert(ori_src(msl, 12, 5) == 5);
    assert(ori_acc(msl, 12, 5) == 24);
    assert(ori_src(msl, 12, 6) == 6);
    assert(ori_acc(msl, 12, 6) == 0);
    assert(ori_src(msl, 12, 7) == 7);
    assert(ori_acc(msl, 12, 7) == 0);
    assert forall|k: int| 0 <= k < 8 implies #[trigger] pos_net(twist_seq_for(1, 0))[k] == id_perm()[k] by {
        lemma_pos_run_pointwise(msl, id_perm(), 12, k);
        if k == 0 {
            assert(id_perm()[0] == 0u8);
            assert(pos_net(twist_seq_for(1, 0))[0] == 0u8);
        } else if k == 1 {
            assert(id_perm()[1] == 1u8);
            assert(pos_net(twist_seq_for(1, 0))[1] == 1u8);
        } else if k == 2 {
            assert(id_perm()[2] == 2u8);
            assert(pos_net(twist_seq_for(1, 0))[2] == 2u8);
        } else if k == 3 {
            assert(id_perm()[3] == 3u8);
            assert(pos_net(twist_seq_for(1, 0))[3] == 3u8);
        } else if k == 4 {
            assert(id_perm()[4] == 4u8);
            assert(pos_net(twist_seq_for(1, 0))[4] == 4u8);
        } else if k == 5 {
            assert(id_perm()[5] == 5u8);
            assert(pos_net(twist_seq_for(1, 0))[5] == 5u8);
        } else if k == 6 {
            assert(id_perm()[6] == 6u8);
            assert(pos_net(twist_seq_for(1, 0))[6] == 6u8);
        } else if k == 7 {
            assert(id_perm()[7] == 7u8);
            assert(pos_net(twist_seq_for(1, 0))[7] == 7u8);
        }
    }
    lemma_pos_run_pointwise(msl, id_perm(), 12, 0);
    assert(pos_net(twist_seq_for(1, 0)) =~= id_perm());
    assert forall|t: int| 0 <= t < 8 implies ori_src(twist_seq_for(1, 0), 12, t) == t && #[trigger] ori_acc(twist_seq_for(1, 0), 12, t) % 3 == twist_delta(1, 0, t) by {
        if t == 0 {
            assert(ori_acc(msl, 12, 0) % 3 == 2);
        } else if t == 1 {
            assert(ori_acc(msl, 12, 1) % 3 == 1);
        } else if t == 2 {
            assert(ori_acc(msl, 12, 2) % 3 == 0);
        } else if t == 3 {
            assert(ori_acc(msl, 12, 3) % 3 == 0);
        } else if t == 4 {
            assert(ori_acc(msl, 12, 4) % 3 == 0);
        } else if t == 5 {
            assert(ori_acc(msl, 12, 5) % 3 == 0);
        } else if t == 6 {
            assert(ori_acc(msl, 12, 6) % 3 == 0);
        } else if t == 7 {
            assert(ori_acc(msl, 12, 7) % 3 == 0);
        }
    }
}

#[verifier::rlimit(100)]
#[verifier::spinoff_prover]
proof fn twist_pair_1_2()
    ensures
        twist_pair_ok(1, 2),
{
    reveal_with_fuel(iter_rot, 16);
    reveal_with_fuel(ori_src, 16);
    reveal_with_fuel(ori_acc, 16);
    crate::positions::lemma_move_rot_table();
    crate::orientations::lemma_q_back_table();
    reveal(twist_seq_for);
    let msl: Seq<Move> = seq![Move::D3, Move::B3, Move::L1, Move::B3, Move::L1, Move::B3, Move::L1, Move::B1, Move::L3, Move::B1, Move::L3, Move::B1, Move::L3, Move::D1];
    assert(twist_seq_for(1, 2) =~= msl);
    assert(iter_rot(msl, 3, 0) == 6);
    assert(iter_rot(msl, 3, 1) == 1);
    assert(iter_rot(msl, 3, 2) == 4);
    assert(iter_rot(msl, 3, 3) == 0);
    assert(iter_rot(msl, 3, 4) == 5);
    assert(iter_rot(msl, 3, 5) == 3);
    assert(iter_rot(msl, 3, 6) == 2);
    assert(iter_rot(msl, 3, 7) == 7);
    assert(ori_src(msl, 3, 0) == 3);
    assert(ori_acc(msl, 3, 0) == 5);
    assert(ori_src(msl, 3, 1) == 1);
    assert(ori_acc(msl, 3, 1) == 10);
    assert(ori_src(msl, 3, 2) == 6);
    assert(ori_acc(msl, 3, 2) == 0);
    assert(ori_src(msl, 3, 3) == 5);
    assert(ori_acc(msl, 3, 3) == 8);
    assert(ori_src(msl, 3, 4) == 2);
    assert(ori_acc(msl, 3, 4) == 4);
    assert(ori_src(msl, 3, 5) == 4);
    assert(ori_acc(msl, 3, 5) == 5);
    assert(ori_src(msl, 3, 6) == 0);
    assert(ori_acc(msl, 3, 6) == 4);
    assert(ori_src(msl, 3, 7) == 7);
    assert(ori_acc(msl, 3, 7) == 0);
    assert(iter_rot(msl, 10, 0) == 2);
    assert(iter_rot(msl, 10, 1) == 6);
    assert(iter_rot(msl, 10, 2) == 1);
    assert(iter_rot(msl, 10, 3) == 0);
    assert(iter_rot(msl, 10, 4) == 5);
    assert(iter_rot(msl, 10, 5) == 3);
    assert(iter_rot(msl, 10, 6) == 4);
    assert(iter_rot(msl, 10, 7) == 7);
    assert(ori_src(msl, 10, 0) == 3);
    assert(ori_acc(msl, 10, 0) == 17);
    assert(ori_src(msl, 10, 1) == 2);
    assert(ori_acc(msl, 10, 1) == 7);
    assert(ori_src(msl, 10, 2) == 0);
    assert(ori_acc(msl, 10, 2) == 10);
    assert(ori_src(msl, 10, 3) == 5);
    assert(ori_acc(msl, 10, 3) == 20);
    assert(ori_src(msl, 10, 4) == 6);
    assert(ori_acc(msl, 10, 4) == 4);
    assert(ori_src(msl, 10, 5) == 4);
    assert(ori_acc(msl, 10, 5) == 5);
    assert(ori_src(msl, 10, 6) == 1);
    assert(ori_acc(msl, 10, 6) == 21);
    assert(ori_src(msl, 10, 7) == 7);
    assert(ori_acc(msl, 10, 7) == 0);
    assert(iter_rot(msl, 7, 0) == 4);
    assert(iter_rot(msl, 14, 0) == 0);
    assert(iter_rot(msl, 7, 1) == 0);
    assert(iter_rot(msl, 14, 1) == 1);
    assert(iter_rot(msl, 7, 2) == 2);
    assert(iter_rot(msl, 14, 2) == 2);
    assert(iter_rot(msl, 7, 3) == 3);
    assert(iter_rot(msl, 14, 3) == 3);
    assert(iter_rot(msl, 7, 4) == 5);
    assert(iter_rot(msl, 14, 4) == 4);
    assert(iter_rot(msl, 7, 5) == 1);
    assert(iter_rot(msl, 14, 5) == 5);
    assert(iter_rot(msl, 7, 6) == 6);
    assert(iter_rot(msl, 14, 6) == 6);
    assert(iter_rot(msl, 7, 7) == 7);
    assert(iter_rot(msl, 14, 7) == 7);
    assert(ori_src(msl, 7, 0) == 1);
    assert(ori_acc(msl, 7, 0) == 19);
    assert(ori_src(msl, 7, 1) == 5);
    assert(ori_acc(msl, 7, 1) == 18);
    assert(ori_src(msl, 7, 2) == 2);
    assert(ori_acc(msl, 7, 2) == 4);
    assert(ori_src(msl, 7, 3) == 3);
    assert(ori_acc(msl, 7, 3) == 14);
    assert(ori_src(msl, 7, 4) == 0);
    assert(ori_acc(msl, 7, 4) == 8);
    assert(ori_src(msl, 7, 5) == 4);
    assert(ori_acc(msl, 7, 5) == 5);
    assert(ori_src(msl, 7, 6) == 6);
    assert(ori_acc(msl, 7, 6) == 4);
    assert(ori_src(msl, 7, 7) == 7);
    assert(ori_acc(msl, 7, 7) == 0);
    assert(ori_src(msl, 14, 0) == 0);
    assert(ori_acc(msl, 14, 0) == 12);
    assert(ori_src(msl, 14, 1) == 1);
    assert(ori_acc(msl, 14, 1) == 22);
    assert(ori_src(msl, 14, 2) == 2);
    assert(ori_acc(msl, 14, 2) == 8);
    assert(ori_src(msl, 14, 3) == 3);
    assert(ori_acc(msl, 14, 3) == 18);
    assert(ori_src(msl, 14, 4) == 4);
    assert(ori_acc(msl, 14, 4) == 6);
    assert(ori_src(msl, 14, 5) == 5);
    assert(ori_acc(msl, 14, 5) == 24);
    assert(ori_src(msl, 14, 6) == 6);
    assert(ori_acc(msl, 14, 6) == 6);
    assert(ori_src(msl, 14, 7) == 7);
    assert(ori_acc(msl, 14, 7) == 0);
    assert forall|k: int| 0 <= k < 8 implies #[trigger] pos_net(twist_seq_for(1, 2))[k] == id_perm()[k] by {
        lemma_pos_run_pointwise(msl, id_perm(), 14, k);
        if k == 0 {
            assert(id_perm()[0] == 0u8);
            assert(pos_net(twist_seq_for(1, 2))[0] == 0u8);
        } else if k == 1 {
            assert(id_perm()[1] == 1u8);
            assert(pos_net(twist_seq_for(1, 2))[1] == 1u8);
        } else if k == 2 {
            assert(id_perm()[2] == 2u8);
            assert(pos_net(twist_seq_for(1, 2))[2] == 2u8);
        } else if k == 3 {
            assert(id_perm()[3] == 3u8);
            assert(pos_net(twist_seq_for(1, 2))[3] == 3u8);
        } else if k == 4 {
            assert(id_perm()[4] == 4u8);
            assert(pos_net(twist_seq_for(1, 2))[4] == 4u8);
        } else if k == 5 {
            assert(id_perm()[5] == 5u8);
            assert(pos_net(twist_seq_for(1, 2))[5] == 5u8);
        } else if k == 6 {
            assert(id_perm()[6] == 6u8);
            assert(pos_net(twist_seq_for(1, 2))[6] == 6u8);
        } else if k == 7 {
            assert(id_perm()[7] == 7u8);
            assert(pos_net(twist_seq_for(1, 2))[7] == 7u8);
        }
    }
    lemma_pos_run_pointwise(msl, id_perm(), 14, 0);
    assert(pos_net(twist_seq_for(1, 2)) =~= id_perm());
    assert forall|t: int| 0 <= t < 8 implies ori_src(twist_seq_for(1, 2), 14, t) == t && #[trigger] ori_acc(twist_seq_for(1, 2), 14, t) % 3 == twist_delta(1, 2, t) by {
        if t == 0 {
            assert(ori_acc(msl, 14, 0) % 3 == 0);
        } else if t == 1 {
            assert(ori_acc(msl, 14, 1) % 3 == 1);
        } else if t == 2 {
            assert(ori_acc(msl, 14, 2) % 3 == 2);
        } else if t == 3 {
            assert(ori_acc(msl, 14, 3) % 3 == 0);
        } else if t == 4 {
            assert(ori_acc(msl, 14, 4) % 3 == 0);
        } else if t == 5 {
            assert(ori_acc(msl, 14, 5) % 3 == 0);
        } else if t == 6 {
            assert(ori_acc(msl, 14, 6) % 3 == 0);
        } else if t == 7 {
            assert(ori_acc(msl, 14, 7) % 3 == 0);
        }
    }
}

#[verifier::rlimit(100)]
#[verifier::spinoff_prover]
proof fn twist_pair_1_3()
    ensures
        twist_pair_ok(1, 3),
{
    reveal_with_fuel(iter_rot, 16);
    reveal_with_fuel(ori_src, 16);
    reveal_with_fuel(ori_acc, 16);
    crate::positions::lemma_move_rot_table();
    crate::orientations::lemma_q_back_table();
    reveal(twist_seq_for);
    let msl: Seq<Move> = seq![Move::R1, Move::B3, Move::R1, Move::B3, Move::R1, Move::B3, Move::R3, Move::B1, Move::R3, Move::B1, Move::R3, Move::B1];
    assert(twist_seq_for(1, 3) =~= msl);
    assert(iter_rot(msl, 3, 0) == 3);
    assert(iter_rot(msl, 3, 1) == 2);
    assert(iter_rot(msl, 3, 2) == 0);
    assert(iter_rot(msl, 3, 3) == 5);
    assert(iter_rot(msl, 3, 4) == 4);
    assert(iter_rot(msl, 3, 5) == 7);
    assert(iter_rot(msl, 3, 6) == 6);
    assert(iter_rot(msl, 3, 7) == 1);
    assert(ori_src(msl, 3, 0) == 2);
    assert(ori_acc(msl, 3, 0) == 4);
    assert(ori_src(msl, 3, 1) == 7);
    assert(ori_acc(msl, 3, 1) == 0);
    assert(ori_src(msl, 3, 2) == 1);
    assert(ori_acc(msl, 3, 2) == 5);
    assert(ori_src(msl, 3, 3) == 0);
    assert(ori_acc(msl, 3, 3) == 5);
    assert(ori_src(msl, 3, 4) == 4);
    assert(ori_acc(msl, 3, 4) == 0);
    assert(ori_src(msl, 3, 5) == 3);
    assert(ori_acc(msl, 3, 5) == 0);
    assert(ori_src(msl, 3, 6) == 6);
    assert(ori_acc(msl, 3, 6) == 0);
    assert(ori_src(msl, 3, 7) == 5);
    assert(ori_acc(msl, 3, 7) == 4);
    assert(iter_rot(msl, 9, 0) == 2);
    assert(iter_rot(msl, 9, 1) == 7);
    assert(iter_rot(msl, 9, 2) == 1);
    assert(iter_rot(msl, 9, 3) == 0);
    assert(iter_rot(msl, 9, 4) == 4);
    assert(iter_rot(msl, 9, 5) == 3);
    assert(iter_rot(msl, 9, 6) == 6);
    assert(iter_rot(msl, 9, 7) == 5);
    assert(ori_src(msl, 9, 0) == 3);
    assert(ori_acc(msl, 9, 0) == 5);
    assert(ori_src(msl, 9, 1) == 2);
    assert(ori_acc(msl, 9, 1) == 15);
    assert(ori_src(msl, 9, 2) == 0);
    assert(ori_acc(msl, 9, 2) == 16);
    assert(ori_src(msl, 9, 3) == 5);
    assert(ori_acc(msl, 9, 3) == 4);
    assert(ori_src(msl, 9, 4) == 4);
    assert(ori_acc(msl, 9, 4) == 0);
    assert(ori_src(msl, 9, 5) == 7);
    assert(ori_acc(msl, 9, 5) == 6);
    assert(ori_src(msl, 9, 6) == 6);
    assert(ori_acc(msl, 9, 6) == 0);
    assert(ori_src(msl, 9, 7) == 1);
    assert(ori_acc(msl, 9, 7) == 14);
    assert(iter_rot(msl, 6, 0) == 0);
    assert(iter_rot(msl, 12, 0) == 0);
    assert(iter_rot(msl, 6, 1) == 1);
    assert(iter_rot(msl, 12, 1) == 1);
    assert(iter_rot(msl, 6, 2) == 2);
    assert(iter_rot(msl, 12, 2) == 2);
    assert(iter_rot(msl, 6, 3) == 3);
    assert(iter_rot(msl, 12, 3) == 3);
    assert(iter_rot(msl, 6, 4) == 4);
    assert(iter_rot(msl, 12, 4) == 4);
    assert(iter_rot(msl, 6, 5) == 5);
    assert(iter_rot(msl, 12, 5) == 5);
    assert(iter_rot(msl, 6, 6) == 6);
    assert(iter_rot(msl, 12, 6) == 6);
    assert(iter_rot(msl, 6, 7) == 7);
    assert(iter_rot(msl, 12, 7) == 7);
    assert(ori_src(msl, 6, 0) == 0);
    assert(ori_acc(msl, 6, 0) == 14);
    assert(ori_src(msl, 6, 1) == 1);
    assert(ori_acc(msl, 6, 1) == 14);
    assert(ori_src(msl, 6, 2) == 2);
    assert(ori_acc(msl, 6, 2) == 14);
    assert(ori_src(msl, 6, 3) == 3);
    assert(ori_acc(msl, 6, 3) == 4);
    assert(ori_src(msl, 6, 4) == 4);
    assert(ori_acc(msl, 6, 4) == 0);
    assert(ori_src(msl, 6, 5) == 5);
    assert(ori_acc(msl, 6, 5) == 4);
    assert(ori_src(msl, 6, 6) == 6);
    assert(ori_acc(msl, 6, 6) == 0);
    assert(ori_src(msl, 6, 7) == 7);
    assert(ori_acc(msl, 6, 7) == 4);
    assert(ori_src(msl, 12, 0) == 0);
    assert(ori_acc(msl, 12, 0) == 18);
    assert(ori_src(msl, 12, 1) == 1);
    assert(ori_acc(msl, 12, 1) == 16);
    assert(ori_src(msl, 12, 2) == 2);
    assert(ori_acc(msl, 12, 2) == 18);
    assert(ori_src(msl, 12, 3) == 3);
    assert(ori_acc(msl, 12, 3) == 8);
    assert(ori_src(msl, 12, 4) == 4);
    assert(ori_acc(msl, 12, 4) == 0);
    assert(ori_src(msl, 12, 5) == 5);
    assert(ori_acc(msl, 12, 5) == 6);
    assert(ori_src(msl, 12, 6) == 6);
    assert(ori_acc(msl, 12, 6) == 0);
    assert(ori_src(msl, 12, 7) == 7);
    assert(ori_acc(msl, 12, 7) == 6);
    assert forall|k: int| 0 <= k < 8 implies #[trigger] pos_net(twist_seq_for(1, 3))[k] == id_perm()[k] by {
        lemma_pos_run_pointwise(msl, id_perm(), 12, k);
        if k == 0 {
            assert(id_perm()[0] == 0u8);
            assert(pos_net(twist_seq_for(1, 3))[0] == 0u8);
        } else if k == 1 {
            assert(id_perm()[1] == 1u8);
            assert(pos_net(twist_seq_for(1, 3))[1] == 1u8);
        } else if k == 2 {
            assert(id_perm()[2] == 2u8);
            assert(pos_net(twist_seq_for(1, 3))[2] == 2u8);
        } else if k == 3 {
            assert(id_perm()[3] == 3u8);
            assert(pos_net(twist_seq_for(1, 3))[3] == 3u8);
        } else if k == 4 {
            assert(id_perm()[4] == 4u8);
            assert(pos_net(twist_seq_for(1, 3))[4] == 4u8);
        } else if k == 5 {
            assert(id_perm()[5] == 5u8);
            assert(pos_net(twist_seq_for(1, 3))[5] == 5u8);
        } else if k == 6 {
            assert(id_perm()[6] == 6u8);
            assert(pos_net(twist_seq_for(1, 3))[6] == 6u8);
        } else if k == 7 {
            assert(id_perm()[7] == 7u8);
            assert(pos_net(twist_seq_for(1, 3))[7] == 7u8);
        }
    }
    lemma_pos_run_pointwise(msl, id_perm(), 12, 0);
    assert(pos_net(twist_seq_for(1, 3)) =~= id_perm());
    assert forall|t: int| 0 <= t < 8 implies ori_src(twist_seq_for(1, 3), 12, t) == t && #[trigger] ori_acc(twist_seq_for(1, 3), 12, t) % 3 == twist_delta(1, 3, t) by {
        if t == 0 {
            assert(ori_acc(msl, 12, 0) % 3 == 0);
        } else if t == 1 {
            assert(ori_acc(msl, 12, 1) % 3 == 1);
        } else if t == 2 {
            assert(ori_acc(msl, 12, 2) % 3 == 0);
        } else if t == 3 {
            assert(ori_acc(msl, 12, 3) % 3 == 2);
        } else if t == 4 {
            assert(ori_acc(msl, 12, 4) % 3 == 0);
        } else if t == 5 {
            assert(ori_acc(msl, 12, 5) % 3 == 0);
        } else if t == 6 {
            assert(ori_acc(msl, 12, 6) % 3 == 0);
        } else if t == 7 {
            assert(ori_acc(msl, 12, 7) % 3 == 0);
        }
    }
}

#[verifier::rlimit(100)]
#[verifier::spinoff_prover]
proof fn twist_pair_1_4()
    ensures
        twist_pair_ok(1, 4),
{
    reveal_with_fuel(iter_rot, 16);
    reveal_with_fuel(ori_src, 16);
    reveal_with_fuel(ori_acc, 16);
    crate::positions::lemma_move_rot_table();
    crate::orientations::lemma_q_back_table();
    reveal(twist_seq_for);
    let msl: Seq<Move> = seq![Move::R3, Move::D3, Move::F1, Move::D3, Move::F1, Move::D3, Move::F1, Move::D1, Move::F3, Move::D1, Move::F3, Move::D1, Move::F3, Move::R1];
    assert(twist_seq_for(1, 4) =~= msl);
    assert(iter_rot(msl, 3, 0) == 5);
    assert(iter_rot(msl, 3, 1) == 1);
    assert(iter_rot(msl, 3, 2) == 2);
    assert(iter_rot(msl, 3, 3) == 0);
    assert(iter_rot(msl, 3, 4) == 7);
    assert(iter_rot(msl, 3, 5) == 6);
    assert(iter_rot(msl, 3, 6) == 4);
    assert(iter_rot(msl, 3, 7) == 3);
    assert(ori_src(msl, 3, 0) == 3);
    assert(ori_acc(msl, 3, 0) == 5);
    assert(ori_src(msl, 3, 1) == 1);
    assert(ori_acc(msl, 3, 1) == 4);
    assert(ori_src(msl, 3, 2) == 2);
    assert(ori_acc(msl, 3, 2) == 0);
    assert(ori_src(msl, 3, 3) == 7);
    assert(ori_acc(msl, 3, 3) == 0);
    assert(ori_src(msl, 3, 4) == 6);
    assert(ori_acc(msl, 3, 4) == 2);
    assert(ori_src(msl, 3, 5) == 0);
    assert(ori_acc(msl, 3, 5) == 5);
    assert(ori_src(msl, 3, 6) == 5);
    assert(ori_acc(msl, 3, 6) == 1);
    assert(ori_src(msl, 3, 7) == 4);
    assert(ori_acc(msl, 3, 7) == 7);
    assert(iter_rot(msl, 10, 0) == 5);
    assert(iter_rot(msl, 10, 1) == 6);
    assert(iter_rot(msl, 10, 2) == 2);
    assert(iter_rot(msl, 10, 3) == 0);
    assert(iter_rot(msl, 10, 4) == 1);
    assert(iter_rot(msl, 10, 5) == 4);
    assert(iter_rot(msl, 10, 6) == 7);
    assert(iter_rot(msl, 10, 7) == 3);
    assert(ori_src(msl, 10, 0) == 3);
    assert(ori_acc(msl, 10, 0) == 23);
    assert(ori_src(msl, 10, 1) == 4);
    assert(ori_acc(msl, 10, 1) == 13);
    assert(ori_src(msl, 10, 2) == 2);
    assert(ori_acc(msl, 10, 2) == 0);
    assert(ori_src(msl, 10, 3) == 7);
    assert(ori_acc(msl, 10, 3) == 0);
    assert(ori_src(msl, 10, 4) == 5);
    assert(ori_acc(msl, 10, 4) == 15);
    assert(ori_src(msl, 10, 5) == 0);
    assert(ori_acc(msl, 10, 5) == 17);
    assert(ori_src(msl, 10, 6) == 1);
    assert(ori_acc(msl, 10, 6) == 19);
    assert(ori_src(msl, 10, 7) == 6);
    assert(ori_acc(msl, 10, 7) == 15);
    assert(iter_rot(msl, 7, 0) == 0);
    assert(iter_rot(msl, 14, 0) == 0);
    assert(iter_rot(msl, 7, 1) == 5);
    assert(iter_rot(msl, 14, 1) == 1);
    assert(iter_rot(msl, 7, 2) == 2);
    assert(iter_rot(msl, 14, 2) == 2);
    assert(iter_rot(msl, 7, 3) == 1);
    assert(iter_rot(msl, 14, 3) == 3);
    assert(iter_rot(msl, 7, 4) == 4);
    assert(iter_rot(msl, 14, 4) == 4);
    assert(iter_rot(msl, 7, 5) == 7);
    assert(iter_rot(msl, 14, 5) == 5);
    assert(iter_rot(msl, 7, 6) == 6);
    assert(iter_rot(msl, 14, 6) == 6);
    assert(iter_rot(msl, 7, 7) == 3);
    assert(iter_rot(msl, 14, 7) == 7);
    assert(ori_src(msl, 7, 0) == 0);
    assert(ori_acc(msl, 7, 0) == 14);
    assert(ori_src(msl, 7, 1) == 3);
    assert(ori_acc(msl, 7, 1) == 14);
    assert(ori_src(msl, 7, 2) == 2);
    assert(ori_acc(msl, 7, 2) == 0);
    assert(ori_src(msl, 7, 3) == 7);
    assert(ori_acc(msl, 7, 3) == 0);
    assert(ori_src(msl, 7, 4) == 4);
    assert(ori_acc(msl, 7, 4) == 10);
    assert(ori_src(msl, 7, 5) == 1);
    assert(ori_acc(msl, 7, 5) == 14);
    assert(ori_src(msl, 7, 6) == 6);
    assert(ori_acc(msl, 7, 6) == 10);
    assert(ori_src(msl, 7, 7) == 5);
    assert(ori_acc(msl, 7, 7) == 10);
    assert(ori_src(msl, 14, 0) == 0);
    assert(ori_acc(msl, 14, 0) == 24);
    assert(ori_src(msl, 14, 1) == 1);
    assert(ori_acc(msl, 14, 1) == 28);
    assert(ori_src(msl, 14, 2) == 2);
    assert(ori_acc(msl, 14, 2) == 0);
    assert(ori_src(msl, 14, 3) == 3);
    assert(ori_acc(msl, 14, 3) == 24);
    assert(ori_src(msl, 14, 4) == 4);
    assert(ori_acc(msl, 14, 4) == 20);
    assert(ori_src(msl, 14, 5) == 5);
    assert(ori_acc(msl, 14, 5) == 24);
    assert(ori_src(msl, 14, 6) == 6);
    assert(ori_acc(msl, 14, 6) == 24);
    assert(ori_src(msl, 14, 7) == 7);
    assert(ori_acc(msl, 14, 7) == 0);
    assert forall|k: int| 0 <= k < 8 implies #[trigger] pos_net(twist_seq_for(1, 4))[k] == id_perm()[k] by {
        lemma_pos_run_pointwise(msl, id_perm(), 14, k);
        if k == 0 {
            assert(id_perm()[0] == 0u8);
            assert(pos_net(twist_seq_for(1, 4))[0] == 0u8);
        } else if k == 1 {
            assert(id_perm()[1] == 1u8);
            assert(pos_net(twist_seq_for(1, 4))[1] == 1u8);
        } else if k == 2 {
            assert(id_perm()[2] == 2u8);
            assert(pos_net(twist_seq_for(1, 4))[2] == 2u8);
        } else if k == 3 {
            assert(id_perm()[3] == 3u8);
            assert(pos_net(twist_seq_for(1, 4))[3] == 3u8);
        } else if k == 4 {
            assert(id_perm()[4] == 4u8);
            assert(pos_net(twist_seq_for(1, 4))[4] == 4u8);
        } else if k == 5 {
            assert(id_perm()[5] == 5u8);
            assert(pos_net(twist_seq_for(1, 4))[5] == 5u8);
        } else if k == 6 {
            assert(id_perm()[6] == 6u8);
            assert(pos_net(twist_seq_for(1, 4))[6] == 6u8);
        } else if k == 7 {
            assert(id_perm()[7] == 7u8);
            assert(pos_net(twist_seq_for(1, 4))[7] == 7u8);
        }
    }
    lemma_pos_run_pointwise(msl, id_perm(), 14, 0);
    assert(pos_net(twist_seq_for(1, 4)) =~= id_perm());
    assert forall|t: int| 0 <= t < 8 implies ori_src(twist_seq_for(1, 4), 14, t) == t && #[trigger] ori_acc(twist_seq_for(1, 4), 14, t) % 3 == twist_delta(1, 4, t) by {
        if t == 0 {
            assert(ori_acc(msl, 14, 0) % 3 == 0);
        } else if t == 1 {
            assert(ori_acc(msl, 14, 1) % 3 == 1);
        } else if t == 2 {
            assert(ori_acc(msl, 14, 2) % 3 == 0);
        } else if t == 3 {
            assert(ori_acc(msl, 14, 3) % 3 == 0);
        } else if t == 4 {
            assert(ori_acc(msl, 14, 4) % 3 == 2);
        } else if t == 5 {
            assert(ori_acc(msl, 14, 5) % 3 == 0);
        } else if t == 6 {
            assert(ori_acc(msl, 14, 6) % 3 == 0);
        } else if t == 7 {
            assert(ori_acc(msl, 14, 7) % 3 == 0);
        }
    }
}

#[verifier::rlimit(100)]
#[verifier::spinoff_prover]
proof fn twist_pair_1_5()
    ensures
        twist_pair_ok(1, 5),
{
    reveal_with_fuel(iter_rot, 16);
    reveal_with_fuel(ori_src, 16);
    reveal_with_fuel(ori_acc, 16);
    crate::positions::lemma_move_rot_table();
    crate::orientations::lemma_q_back_table();
    reveal(twist_seq_for);
    let msl: Seq<Move> = seq![Move::D1, Move::R3, Move::D1, Move::R3, Move::D1, Move::R3, Move::D3, Move::R1, Move::D3, Move::R1, Move::D3, Move::R1];
    assert(twist_seq_for(1, 5) =~= msl);
    assert(iter_rot(msl, 3, 0) == 4);
    assert(iter_rot(msl, 3, 1) == 7);
    assert(iter_rot(msl, 3, 2) == 2);
    assert(iter_rot(msl, 3, 3) == 5);
    assert(iter_rot(msl, 3, 4) == 1);
    assert(iter_rot(msl, 3, 5) == 0);
    assert(iter_rot(msl, 3, 6) == 6);
    assert(iter_rot(msl, 3, 7) == 3);
    assert(ori_src(msl, 3, 0) == 5);
    assert(ori_acc(msl, 3, 0) == 3);
    assert(ori_src(msl, 3, 1) == 4);
    assert(ori_acc(msl, 3, 1) == 3);
    assert(ori_src(msl, 3, 2) == 2);
    assert(ori_acc(msl, 3, 2) == 0);
    assert(ori_src(msl, 3, 3) == 7);
    assert(ori_acc(msl, 3, 3) == 0);
    assert(ori_src(msl, 3, 4) == 0);
    assert(ori_acc(msl, 3, 4) == 2);
    assert(ori_src(msl, 3, 5) == 3);
    assert(ori_acc(msl, 3, 5) == 2);
    assert(ori_src(msl, 3, 6) == 6);
    assert(ori_acc(msl, 3, 6) == 0);
    assert(ori_src(msl, 3, 7) == 1);
    assert(ori_acc(msl, 3, 7) == 2);
    assert(iter_rot(msl, 9, 0) == 5);
    assert(iter_rot(msl, 9, 1) == 4);
    assert(iter_rot(msl, 9, 2) == 2);
    assert(iter_rot(msl, 9, 3) == 7);
    assert(iter_rot(msl, 9, 4) == 0);
    assert(iter_rot(msl, 9, 5) == 3);
    assert(iter_rot(msl, 9, 6) == 6);
    assert(iter_rot(msl, 9, 7) == 1);
    assert(ori_src(msl, 9, 0) == 4);
    assert(ori_acc(msl, 9, 0) == 14);
    assert(ori_src(msl, 9, 1) == 7);
    assert(ori_acc(msl, 9, 1) == 6);
    assert(ori_src(msl, 9, 2) == 2);
    assert(ori_acc(msl, 9, 2) == 0);
    assert(ori_src(msl, 9, 3) == 5);
    assert(ori_acc(msl, 9, 3) == 8);
    assert(ori_src(msl, 9, 4) == 1);
    assert(ori_acc(msl, 9, 4) == 11);
    assert(ori_src(msl, 9, 5) == 0);
    assert(ori_acc(msl, 9, 5) == 13);
    assert(ori_src(msl, 9, 6) == 6);
    assert(ori_acc(msl, 9, 6) == 0);
    assert(ori_src(msl, 9, 7) == 3);
    assert(ori_acc(msl, 9, 7) == 2);
    assert(iter_rot(msl, 6, 0) == 0);
    assert(iter_rot(msl, 12, 0) == 0);
    assert(iter_rot(msl, 6, 1) == 1);
    assert(iter_rot(msl, 12, 1) == 1);
    assert(iter_rot(msl, 6, 2) == 2);
    assert(iter_rot(msl, 12, 2) == 2);
    assert(iter_rot(msl, 6, 3) == 3);
    assert(iter_rot(msl, 12, 3) == 3);
    assert(iter_rot(msl, 6, 4) == 4);
    assert(iter_rot(msl, 12, 4) == 4);
    assert(iter_rot(msl, 6, 5) == 5);
    assert(iter_rot(msl, 12, 5) == 5);
    assert(iter_rot(msl, 6, 6) == 6);
    assert(iter_rot(msl, 12, 6) == 6);
    assert(iter_rot(msl, 6, 7) == 7);
    assert(iter_rot(msl, 12, 7) == 7);
    assert(ori_src(msl, 6, 0) == 0);
    assert(ori_acc(msl, 6, 0) == 4);
    assert(ori_src(msl, 6, 1) == 1);
    assert(ori_acc(msl, 6, 1) == 2);
    assert(ori_src(msl, 6, 2) == 2);
    assert(ori_acc(msl, 6, 2) == 0);
    assert(ori_src(msl, 6, 3) == 3);
    assert(ori_acc(msl, 6, 3) == 2);
    assert(ori_src(msl, 6, 4) == 4);
    assert(ori_acc(msl, 6, 4) == 4);
    assert(ori_src(msl, 6, 5) == 5);
    assert(ori_acc(msl, 6, 5) == 4);
    assert(ori_src(msl, 6, 6) == 6);
    assert(ori_acc(msl, 6, 6) == 0);
    assert(ori_src(msl, 6, 7) == 7);
    assert(ori_acc(msl, 6, 7) == 2);
    assert(ori_src(msl, 12, 0) == 0);
    assert(ori_acc(msl, 12, 0) == 18);
    assert(ori_src(msl, 12, 1) == 1);
    assert(ori_acc(msl, 12, 1) == 16);
    assert(ori_src(msl, 12, 2) == 2);
    assert(ori_acc(msl, 12, 2) == 0);
    assert(ori_src(msl, 12, 3) == 3);
    assert(ori_acc(msl, 12, 3) == 6);
    assert(ori_src(msl, 12, 4) == 4);
    assert(ori_acc(msl, 12, 4) == 18);
    assert(ori_src(msl, 12, 5) == 5);
    assert(ori_acc(msl, 12, 5) == 8);
    assert(ori_src(msl, 12, 6) == 6);
    assert(ori_acc(msl, 12, 6) == 0);
    assert(ori_src(msl, 12, 7) == 7);
    assert(ori_acc(msl, 12, 7) == 6);
    assert forall|k: int| 0 <= k < 8 implies #[trigger] pos_net(twist_seq_for(1, 5))[k] == id_perm()[k] by {
        lemma_pos_run_pointwise(msl, id_perm(), 12, k);
        if k == 0 {
            assert(id_perm()[0] == 0u8);
            assert(pos_net(twist_seq_for(1, 5))[0] == 0u8);
        } else if k == 1 {
            assert(id_perm()[1] == 1u8);
            assert(pos_net(twist_seq_for(1, 5))[1] == 1u8);
        } else if k == 2 {
            assert(id_perm()[2] == 2u8);
            assert(pos_net(twist_seq_for(1, 5))[2] == 2u8);
        } else if k == 3 {
            assert(id_perm()[3] == 3u8);
            assert(pos_net(twist_seq_for(1, 5))[3] == 3u8);
        } else if k == 4 {
            assert(id_perm()[4] == 4u8);
            assert(pos_net(twist_seq_for(1, 5))[4] == 4u8);
        } else if k == 5 {
            assert(id_perm()[5] == 5u8);
            assert(pos_net(twist_seq_for(1, 5))[5] == 5u8);
        } else if k == 6 {
            assert(id_perm()[6] == 6u8);
            assert(pos_net(twist_seq_for(1, 5))[6] == 6u8);
        } else if k == 7 {
            assert(id_perm()[7] == 7u8);
            assert(pos_net(twist_seq_for(1, 5))[7] == 7u8);
        }
    }
    lemma_pos_run_pointwise(msl, id_perm(), 12, 0);
    assert(pos_net(twist_seq_for(1, 5)) =~= id_perm());
    assert forall|t: int| 0 <= t < 8 implies ori_src(twist_seq_for(1, 5), 12, t) == t && #[trigger] ori_acc(twist_seq_for(1, 5), 12, t) % 3 == twist_delta(1, 5, t) by {
        if t == 0 {
            assert(ori_acc(msl, 12, 0) % 3 == 0);
        } else if t == 1 {
            assert(ori_acc(msl, 12, 1) % 3 == 1);
        } else if t == 2 {
            assert(ori_acc(msl, 12, 2) % 3 == 0);
        } else if t == 3 {
            assert(ori_acc(msl, 12, 3) % 3 == 0);
        } else if t == 4 {
            assert(ori_acc(msl, 12, 4) % 3 == 0);
        } else if t == 5 {
            assert(ori_acc(msl, 12, 5) % 3 == 2);
        } else if t == 6 {
            assert(ori_acc(msl, 12, 6) % 3 == 0);
        } else if t == 7 {
            assert(ori_acc(msl, 12, 7) % 3 == 0);
        }
    }
}

#[verifier::rlimit(100)]
#[verifier::spinoff_prover]
proof fn twist_pair_1_6()
    ensures
        twist_pair_ok(1, 6),
{
    reveal_with_fuel(iter_rot, 16);
    reveal_with_fuel(ori_src, 16);
    reveal_with_fuel(ori_acc, 16);
    crate::positions::lemma_move_rot_table();
    crate::orientations::lemma_q_back_table();
    reveal(twist_seq_for);
    let msl: Seq<Move> = seq![Move::F2, Move::D1, Move::R3, Move::D1, Move::R3, Move::D1, Move::R3, Move::D3, Move::R1, Move::D3, Move::R1, Move::D3, Move::R1, Move::F2];
    assert(twist_seq_for(1, 6) =~= msl);
    assert(iter_rot(msl, 3, 0) == 5);
    assert(iter_rot(msl, 3, 1) == 7);
    assert(iter_rot(msl, 3, 2) == 2);
    assert(iter_rot(msl, 3, 3) == 1);
    assert(iter_rot(msl, 3, 4) == 3);
    assert(iter_rot(msl, 3, 5) == 6);
    assert(iter_rot(msl, 3, 6) == 4);
    assert(iter_rot(msl, 3, 7) == 0);
    assert(ori_src(msl, 3, 0) == 7);
    assert(ori_acc(msl, 3, 0) == 5);
    assert(ori_src(msl, 3, 1) == 3);
    assert(ori_acc(msl, 3, 1) == 0);
    assert(ori_src(msl, 3, 2) == 2);
    assert(ori_acc(msl, 3, 2) == 0);
    assert(ori_src(msl, 3, 3) == 4);
    assert(ori_acc(msl, 3, 3) == 3);
    assert(ori_src(msl, 3, 4) == 6);
    assert(ori_acc(msl, 3, 4) == 4);
    assert(ori_src(msl, 3, 5) == 0);
    assert(ori_acc(msl, 3, 5) == 1);
    assert(ori_src(msl, 3, 6) == 5);
    assert(ori_acc(msl, 3, 6) == 3);
    assert(ori_src(msl, 3, 7) == 1);
    assert(ori_acc(msl, 3, 7) == 2);
    assert(iter_rot(msl, 10, 0) == 5);
    assert(iter_rot(msl, 10, 1) == 4);
    assert(iter_rot(msl, 10, 2) == 2);
    assert(iter_rot(msl, 10, 3) == 7);
    assert(iter_rot(msl, 10, 4) == 1);
    assert(iter_rot(msl, 10, 5) == 6);
    assert(iter_rot(msl, 10, 6) == 3);
    assert(iter_rot(msl, 10, 7) == 0);
    assert(ori_src(msl, 10, 0) == 7);
    assert(ori_acc(msl, 10, 0) == 17);
    assert(ori_src(msl, 10, 1) == 4);
    assert(ori_acc(msl, 10, 1) == 9);
    assert(ori_src(msl, 10, 2) == 2);
    assert(ori_acc(msl, 10, 2) == 0);
    assert(ori_src(msl, 10, 3) == 6);
    assert(ori_acc(msl, 10, 3) == 11);
    assert(ori_src(msl, 10, 4) == 1);
    assert(ori_acc(msl, 10, 4) == 11);
    assert(ori_src(msl, 10, 5) == 0);
    assert(ori_acc(msl, 10, 5) == 13);
    assert(ori_src(msl, 10, 6) == 5);
    assert(ori_acc(msl, 10, 6) == 3);
    assert(ori_src(msl, 10, 7) == 3);
    assert(ori_acc(msl, 10, 7) == 2);
    assert(iter_rot(msl, 7, 0) == 0);
    assert(iter_rot(msl, 14, 0) == 0);
    assert(iter_rot(msl, 7, 1) == 1);
    assert(iter_rot(msl, 14, 1) == 1);
    assert(iter_rot(msl, 7, 2) == 2);
    assert(iter_rot(msl, 14, 2) == 2);
    assert(iter_rot(msl, 7, 3) == 3);
    assert(iter_rot(msl, 14, 3) == 3);
    assert(iter_rot(msl, 7, 4) == 7);
    assert(iter_rot(msl, 14, 4) == 4);
    assert(iter_rot(msl, 7, 5) == 6);
    assert(iter_rot(msl, 14, 5) == 5);
    assert(iter_rot(msl, 7, 6) == 5);
    assert(iter_rot(msl, 14, 6) == 6);
    assert(iter_rot(msl, 7, 7) == 4);
    assert(iter_rot(msl, 14, 7) == 7);
    assert(ori_src(msl, 7, 0) == 0);
    assert(ori_acc(msl, 7, 0) == 4);
    assert(ori_src(msl, 7, 1) == 1);
    assert(ori_acc(msl, 7, 1) == 2);
    assert(ori_src(msl, 7, 2) == 2);
    assert(ori_acc(msl, 7, 2) == 0);
    assert(ori_src(msl, 7, 3) == 3);
    assert(ori_acc(msl, 7, 3) == 2);
    assert(ori_src(msl, 7, 4) == 7);
    assert(ori_acc(msl, 7, 4) == 7);
    assert(ori_src(msl, 7, 5) == 6);
    assert(ori_acc(msl, 7, 5) == 7);
    assert(ori_src(msl, 7, 6) == 5);
    assert(ori_acc(msl, 7, 6) == 3);
    assert(ori_src(msl, 7, 7) == 4);
    assert(ori_acc(msl, 7, 7) == 5);
    assert(ori_src(msl, 14, 0) == 0);
    assert(ori_acc(msl, 14, 0) == 18);
    assert(ori_src(msl, 14, 1) == 1);
    assert(ori_acc(msl, 14, 1) == 16);
    assert(ori_src(msl, 14, 2) == 2);
    assert(ori_acc(msl, 14, 2) == 0);
    assert(ori_src(msl, 14, 3) == 3);
    assert(ori_acc(msl, 14, 3) == 6);
    assert(ori_src(msl, 14, 4) == 4);
    assert(ori_acc(msl, 14, 4) == 12);
    assert(ori_src(msl, 14, 5) == 5);
    assert(ori_acc(msl, 14, 5) == 6);
    assert(ori_src(msl, 14, 6) == 6);
    assert(ori_acc(msl, 14, 6) == 14);
    assert(ori_src(msl, 14, 7) == 7);
    assert(ori_acc(msl, 14, 7) == 24);
    assert forall|k: int| 0 <= k < 8 implies #[trigger] pos_net(twist_seq_for(1, 6))[k] == id_perm()[k] by {
        lemma_pos_run_pointwise(msl, id_perm(), 14, k);
        if k == 0 {
            assert(id_perm()[0] == 0u8);
            assert(pos_net(twist_seq_for(1, 6))[0] == 0u8);
        } else if k == 1 {
            assert(id_perm()[1] == 1u8);
            assert(pos_net(twist_seq_for(1, 6))[1] == 1u8);
        } else if k == 2 {
            assert(id_perm()[2] == 2u8);
            assert(pos_net(twist_seq_for(1, 6))[2] == 2u8);
        } else if k == 3 {
            assert(id_perm()[3] == 3u8);
            assert(pos_net(twist_seq_for(1, 6))[3] == 3u8);
        } else if k == 4 {
            assert(id_perm()[4] == 4u8);
            assert(pos_net(twist_seq_for(1, 6))[4] == 4u8);
        } else if k == 5 {
            assert(id_perm()[5] == 5u8);
            assert(pos_net(twist_seq_for(1, 6))[5] == 5u8);
        } else if k == 6 {
            assert(id_perm()[6] == 6u8);
            assert(pos_net(twist_seq_for(1, 6))[6] == 6u8);
        } else if k == 7 {
            assert(id_perm()[7] == 7u8);
            assert(pos_net(twist_seq_for(1, 6))[7] == 7u8);
        }
    }
    lemma_pos_run_pointwise(msl, id_perm(), 14, 0);
    assert(pos_net(twist_seq_for(1, 6)) =~= id_perm());
    assert forall|t: int| 0 <= t < 8 implies ori_src(twist_seq_for(1, 6), 14, t) == t && #[trigger] ori_acc(twist_seq_for(1, 6), 14, t) % 3 == twist_delta(1, 6, t) by {
        if t == 0 {
            assert(ori_acc(msl, 14, 0) % 3 == 0);
        } else if t == 1 {
            assert(ori_acc(msl, 14, 1) % 3 == 1);
        } else if t == 2 {
            assert(ori_acc(msl, 14, 2) % 3 == 0);
        } else if t == 3 {
            assert(ori_acc(msl, 14, 3) % 3 == 0);
        } else if t == 4 {
            assert(ori_acc(msl, 14, 4) % 3 == 0);
        } else if t == 5 {
            assert(ori_acc(msl, 14, 5) % 3 == 0);
        } else if t == 6 {
            assert(ori_acc(msl, 14, 6) % 3 == 2);
        } else if t == 7 {
            assert(ori_acc(msl, 14, 7) % 3 == 0);
        }
    }
}

#[verifier::rlimit(100)]
#[verifier::spinoff_prover]
proof fn twist_pair_1_7()
    ensures
        twist_pair_ok(1, 7),
{
    reveal_with_fuel(iter_rot, 16);
    reveal_with_fuel(ori_src, 16);
    reveal_with_fuel(ori_acc, 16);
    crate::positions::lemma_move_rot_table();
    crate::orientations::lemma_q_back_table();
    reveal(twist_seq_for);
    let msl: Seq<Move> = seq![Move::B3, Move::R3, Move::U1, Move::R3, Move::U1, Move::R3, Move::U1, Move::R1, Move::U3, Move::R1, Move::U3, Move::R1, Move::U3, Move::B1];
    assert(twist_seq_for(1, 7) =~= msl);
    assert(iter_rot(msl, 3, 0) == 5);
    assert(iter_rot(msl, 3, 1) == 1);
    assert(iter_rot(msl, 3, 2) == 0);
    assert(iter_rot(msl, 3, 3) == 6);
    assert(iter_rot(msl, 3, 4) == 4);
    assert(iter_rot(msl, 3, 5) == 3);
    assert(iter_rot(msl, 3, 6) == 7);
    assert(iter_rot(msl, 3, 7) == 2);
    assert(ori_src(msl, 3, 0) == 2);
    assert(ori_acc(msl, 3, 0) == 4);
    assert(ori_src(msl, 3, 1) == 1);
    assert(ori_acc(msl, 3, 1) == 4);
    assert(ori_src(msl, 3, 2) == 7);
    assert(ori_acc(msl, 3, 2) == 1);
    assert(ori_src(msl, 3, 3) == 5);
    assert(ori_acc(msl, 3, 3) == 2);
    assert(ori_src(msl, 3, 4) == 4);
    assert(ori_acc(msl, 3, 4) == 0);
    assert(ori_src(msl, 3, 5) == 0);
    assert(ori_acc(msl, 3, 5) == 5);
    assert(ori_src(msl, 3, 6) == 3);
    assert(ori_acc(msl, 3, 6) == 7);
    assert(ori_src(msl, 3, 7) == 6);
    assert(ori_acc(msl, 3, 7) == 1);
    assert(iter_rot(msl, 10, 0) == 5);
    assert(iter_rot(msl, 10, 1) == 6);
    assert(iter_rot(msl, 10, 2) == 0);
    assert(iter_rot(msl, 10, 3) == 7);
    assert(iter_rot(msl, 10, 4) == 4);
    assert(iter_rot(msl, 10, 5) == 3);
    assert(iter_rot(msl, 10, 6) == 2);
    assert(iter_rot(msl, 10, 7) == 1);
    assert(ori_src(msl, 10, 0) == 2);
    assert(ori_acc(msl, 10, 0) == 4);
    assert(ori_src(msl, 10, 1) == 7);
    assert(ori_acc(msl, 10, 1) == 4);
    assert(ori_src(msl, 10, 2) == 6);
    assert(ori_acc(msl, 10, 2) == 8);
    assert(ori_src(msl, 10, 3) == 5);
    assert(ori_acc(msl, 10, 3) == 2);
    assert(ori_src(msl, 10, 4) == 4);
    assert(ori_acc(msl, 10, 4) == 0);
    assert(ori_src(msl, 10, 5) == 0);
    assert(ori_acc(msl, 10, 5) == 11);
    assert(ori_src(msl, 10, 6) == 1);
    assert(ori_acc(msl, 10, 6) == 11);
    assert(ori_src(msl, 10, 7) == 3);
    assert(ori_acc(msl, 10, 7) == 14);
    assert(iter_rot(msl, 7, 0) == 1);
    assert(iter_rot(msl, 14, 0) == 0);
    assert(iter_rot(msl, 7, 1) == 3);
    assert(iter_rot(msl, 14, 1) == 1);
    assert(iter_rot(msl, 7, 2) == 0);
    assert(iter_rot(msl, 14, 2) == 2);
    assert(iter_rot(msl, 7, 3) == 2);
    assert(iter_rot(msl, 14, 3) == 3);
    assert(iter_rot(msl, 7, 4) == 4);
    assert(iter_rot(msl, 14, 4) == 4);
    assert(iter_rot(msl, 7, 5) == 5);
    assert(iter_rot(msl, 14, 5) == 5);
    assert(iter_rot(msl, 7, 6) == 6);
    assert(iter_rot(msl, 14, 6) == 6);
    assert(iter_rot(msl, 7, 7) == 7);
    assert(iter_rot(msl, 14, 7) == 7);
    assert(ori_src(msl, 7, 0) == 2);
    assert(ori_acc(msl, 7, 0) == 4);
    assert(ori_src(msl, 7, 1) == 0);
    assert(ori_acc(msl, 7, 1) == 7);
    assert(ori_src(msl, 7, 2) == 3);
    assert(ori_acc(msl, 7, 2) == 9);
    assert(ori_src(msl, 7, 3) == 1);
    assert(ori_acc(msl, 7, 3) == 6);
    assert(ori_src(msl, 7, 4) == 4);
    assert(ori_acc(msl, 7, 4) == 0);
    assert(ori_src(msl, 7, 5) == 5);
    assert(ori_acc(msl, 7, 5) == 2);
    assert(ori_src(msl, 7, 6) == 6);
    assert(ori_acc(msl, 7, 6) == 4);
    assert(ori_src(msl, 7, 7) == 7);
    assert(ori_acc(msl, 7, 7) == 4);
    assert(ori_src(msl, 14, 0) == 0);
    assert(ori_acc(msl, 14, 0) == 12);
    assert(ori_src(msl, 14, 1) == 1);
    assert(ori_acc(msl, 14, 1) == 22);
    assert(ori_src(msl, 14, 2) == 2);
    assert(ori_acc(msl, 14, 2) == 6);
    assert(ori_src(msl, 14, 3) == 3);
    assert(ori_acc(msl, 14, 3) == 24);
    assert(ori_src(msl, 14, 4) == 4);
    assert(ori_acc(msl, 14, 4) == 0);
    assert(ori_src(msl, 14, 5) == 5);
    assert(ori_acc(msl, 14, 5) == 6);
    assert(ori_src(msl, 14, 6) == 6);
    assert(ori_acc(msl, 14, 6) == 18);
    assert(ori_src(msl, 14, 7) == 7);
    assert(ori_acc(msl, 14, 7) == 8);
    assert forall|k: int| 0 <= k < 8 implies #[trigger] pos_net(twist_seq_for(1, 7))[k] == id_perm()[k] by {
        lemma_pos_run_pointwise(msl, id_perm(), 14, k);
        if k == 0 {
            assert(id_perm()[0] == 0u8);
            assert(pos_net(twist_seq_for(1, 7))[0] == 0u8);
        } else if k == 1 {
            assert(id_perm()[1] == 1u8);
            assert(pos_net(twist_seq_for(1, 7))[1] == 1u8);
        } else if k == 2 {
            assert(id_perm()[2] == 2u8);
            assert(pos_net(twist_seq_for(1, 7))[2] == 2u8);
        } else if k == 3 {
            assert(id_perm()[3] == 3u8);
            assert(pos_net(twist_seq_for(1, 7))[3] == 3u8);
        } else if k == 4 {
            assert(id_perm()[4] == 4u8);
            assert(pos_net(twist_seq_for(1, 7))[4] == 4u8);
        } else if k == 5 {
            assert(id_perm()[5] == 5u8);
            assert(pos_net(twist_seq_for(1, 7))[5] == 5u8);
        } else if k == 6 {
            assert(id_perm()[6] == 6u8);
            assert(pos_net(twist_seq_for(1, 7))[6] == 6u8);
        } else if k == 7 {
            assert(id_perm()[7] == 7u8);
            assert(pos_net(twist_seq_for(1, 7))[7] == 7u8);
        }
    }
    lemma_pos_run_pointwise(msl, id_perm(), 14, 0);
    assert(pos_net(twist_seq_for(1, 7)) =~= id_perm());
    assert forall|t: int| 0 <= t < 8 implies ori_src(twist_seq_for(1, 7), 14, t) == t && #[trigger] ori_acc(twist_seq_for(1, 7), 14, t) % 3 == twist_delta(1, 7, t) by {
        if t == 0 {
            assert(ori_acc(msl, 14, 0) % 3 == 0);
        } else if t == 1 {
            assert(ori_acc(msl, 14, 1) % 3 == 1);
        } else if t == 2 {
            assert(ori_acc(msl, 14, 2) % 3 == 0);
        } else if t == 3 {
            assert(ori_acc(msl, 14, 3) % 3 == 0);
        } else if t == 4 {
            assert(ori_acc(msl, 14, 4) % 3 == 0);
        } else if t == 5 {
            assert(ori_acc(msl, 14, 5) % 3 == 0);
        } else if t == 6 {
            assert(ori_acc(msl, 14, 6) % 3 == 0);
        } else if t == 7 {
            assert(ori_acc(msl, 14, 7) % 3 == 2);
        }
    }
}

#[verifier::rlimit(100)]
#[verifier::spinoff_prover]
proof fn twist_pair_2_0()
    ensures
        twist_pair_ok(2, 0),
{
    reveal_with_fuel(iter_rot, 16);
    reveal_with_fuel(ori_src, 16);
    reveal_with_fuel(ori_acc, 16);
    crate::positions::lemma_move_rot_table();
    crate::orientations::lemma_q_back_table();
    reveal(twist_seq_for);
    let msl: Seq<Move> = seq![Move::L1, Move::B3, Move::L1, Move::B3, Move::L1, Move::B3, Move::L3, Move::B1, Move::L3, Move::B1, Move::L3, Move::B1];
    assert(twist_seq_for(2, 0) =~= msl);
    assert(iter_rot(msl, 3, 0) == 6);
    assert(iter_rot(msl, 3, 1) == 3);
    assert(iter_rot(msl, 3, 2) == 1);
    assert(iter_rot(msl, 3, 3) == 0);
    assert(iter_rot(msl, 3, 4) == 2);
    assert(iter_rot(msl, 3, 5) == 5);
    assert(iter_rot(msl, 3, 6) == 4);
    assert(iter_rot(msl, 3, 7) == 7);
    assert(ori_src(msl, 3, 0) == 3);
    assert(ori_acc(msl, 3, 0) == 5);
    assert(ori_src(msl, 3, 1) == 2);
    assert(ori_acc(msl, 3, 1) == 5);
    assert(ori_src(msl, 3, 2) == 4);
    assert(ori_acc(msl, 3, 2) == 0);
    assert(ori_src(msl, 3, 3) == 1);
    assert(ori_acc(msl, 3, 3) == 4);
    assert(ori_src(msl, 3, 4) == 6);
    assert(ori_acc(msl, 3, 4) == 4);
    assert(ori_src(msl, 3, 5) == 5);
    assert(ori_acc(msl, 3, 5) == 0);
    assert(ori_src(msl, 3, 6) == 0);
    assert(ori_acc(msl, 3, 6) == 0);
    assert(ori_src(msl, 3, 7) == 7);
    assert(ori_acc(msl, 3, 7) == 0);
    assert(iter_rot(msl, 9, 0) == 3);
    assert(iter_rot(msl, 9, 1) == 2);
    assert(iter_rot(msl, 9, 2) == 4);
    assert(iter_rot(msl, 9, 3) == 1);
    assert(iter_rot(msl, 9, 4) == 6);
    assert(iter_rot(msl, 9, 5) == 5);
    assert(iter_rot(msl, 9, 6) == 0);
    assert(iter_rot(msl, 9, 7) == 7);
    assert(ori_src(msl, 9, 0) == 6);
    assert(ori_acc(msl, 9, 0) == 4);
    assert(ori_src(msl, 9, 1) == 3);
    assert(ori_acc(msl, 9, 1) == 16);
    assert(ori_src(msl, 9, 2) == 1);
    assert(ori_acc(msl, 9, 2) == 15);
    assert(ori_src(msl, 9, 3) == 0);
    assert(ori_acc(msl, 9, 3) == 5);
    assert(ori_src(msl, 9, 4) == 2);
    assert(ori_acc(msl, 9, 4) == 14);
    assert(ori_src(msl, 9, 5) == 5);
    assert(ori_acc(msl, 9, 5) == 0);
    assert(ori_src(msl, 9, 6) == 4);
    assert(ori_acc(msl, 9, 6) == 6);
    assert(ori_src(msl, 9, 7) == 7);
    assert(ori_acc(msl, 9, 7) == 0);
    assert(iter_rot(msl, 6, 0) == 0);
    assert(iter_rot(msl, 12, 0) == 0);
    assert(iter_rot(msl, 6, 1) == 1);
    assert(iter_rot(msl, 12, 1) == 1);
    assert(iter_rot(msl, 6, 2) == 2);
    assert(iter_rot(msl, 12, 2) == 2);
    assert(iter_rot(msl, 6, 3) == 3);
    assert(iter_rot(msl, 12, 3) == 3);
    assert(iter_rot(msl, 6, 4) == 4);
    assert(iter_rot(msl, 12, 4) == 4);
    assert(iter_rot(msl, 6, 5) == 5);
    assert(iter_rot(msl, 12, 5) == 5);
    assert(iter_rot(msl, 6, 6) == 6);
    assert(iter_rot(msl, 12, 6) == 6);
    assert(iter_rot(msl, 6, 7) == 7);
    assert(iter_rot(msl, 12, 7) == 7);
    assert(ori_src(msl, 6, 0) == 0);
    assert(ori_acc(msl, 6, 0) == 4);
    assert(ori_src(msl, 6, 1) == 1);
    assert(ori_acc(msl, 6, 1) == 14);
    assert(ori_src(msl, 6, 2) == 2);
    assert(ori_acc(msl, 6, 2) == 14);
    assert(ori_src(msl, 6, 3) == 3);
    assert(ori_acc(msl, 6, 3) == 14);
    assert(ori_src(msl, 6, 4) == 4);
    assert(ori_acc(msl, 6, 4) == 4);
    assert(ori_src(msl, 6, 5) == 5);
    assert(ori_acc(msl, 6, 5) == 0);
    assert(ori_src(msl, 6, 6) == 6);
    assert(ori_acc(msl, 6, 6) == 4);
    assert(ori_src(msl, 6, 7) == 7);
    assert(ori_acc(msl, 6, 7) == 0);
    assert(ori_src(msl, 12, 0) == 0);
    assert(ori_acc(msl, 12, 0) == 8);
    assert(ori_src(msl, 12, 1) == 1);
    assert(ori_acc(msl, 12, 1) == 18);
    assert(ori_src(msl, 12, 2) == 2);
    assert(ori_acc(msl, 12, 2) == 16);
    assert(ori_src(msl, 12, 3) == 3);
    assert(ori_acc(msl, 12, 3) == 18);
    assert(ori_src(msl, 12, 4) == 4);
    assert(ori_acc(msl, 12, 4) == 6);
    assert(ori_src(msl, 12, 5) == 5);
    assert(ori_acc(msl, 12, 5) == 0);
    assert(ori_src(msl, 12, 6) == 6);
    assert(ori_acc(msl, 12, 6) == 6);
    assert(ori_src(msl, 12, 7) == 7);
    assert(ori_acc(msl, 12, 7) == 0);
    assert forall|k: int| 0 <= k < 8 implies #[trigger] pos_net(twist_seq_for(2, 0))[k] == id_perm()[k] by {
        lemma_pos_run_pointwise(msl, id_perm(), 12, k);
        if k == 0 {
            assert(id_perm()[0] == 0u8);
            assert(pos_net(twist_seq_for(2, 0))[0] == 0u8);
        } else if k == 1 {
            assert(id_perm()[1] == 1u8);
            assert(pos_net(twist_seq_for(2, 0))[1] == 1u8);
        } else if k == 2 {
            assert(id_perm()[2] == 2u8);
            assert(pos_net(twist_seq_for(2, 0))[2] == 2u8);
        } else if k == 3 {
            assert(id_perm()[3] == 3u8);
            assert(pos_net(twist_seq_for(2, 0))[3] == 3u8);
        } else if k == 4 {
            assert(id_perm()[4] == 4u8);
            assert(pos_net(twist_seq_for(2, 0))[4] == 4u8);
        } else if k == 5 {
            assert(id_perm()[5] == 5u8);
            assert(pos_net(twist_seq_for(2, 0))[5] == 5u8);
        } else if k == 6 {
            assert(id_perm()[6] == 6u8);
            assert(pos_net(twist_seq_for(2, 0))[6] == 6u8);
        } else if k == 7 {
            assert(id_perm()[7] == 7u8);
            assert(pos_net(twist_seq_for(2, 0))[7] == 7u8);
        }
    }
    lemma_pos_run_pointwise(msl, id_perm(), 12, 0);
    assert(pos_net(twist_seq_for(2, 0)) =~= id_perm());
    assert forall|t: int| 0 <= t < 8 implies ori_src(twist_seq_for(2, 0), 12, t) == t && #[trigger] ori_acc(twist_seq_for(2, 0), 12, t) % 3 == twist_delta(2, 0, t) by {
        if t == 0 {
            assert(ori_acc(msl, 12, 0) % 3 == 2);
        } else if t == 1 {
            assert(ori_acc(msl, 12, 1) % 3 == 0);
        } else if t == 2 {
            assert(ori_acc(msl, 12, 2) % 3 == 1);
        } else if t == 3 {
            assert(ori_acc(msl, 12, 3) % 3 == 0);
        } else if t == 4 {
            assert(ori_acc(msl, 12, 4) % 3 == 0);
        } else if t == 5 {
            assert(ori_acc(msl, 12, 5) % 3 == 0);
        } else if t == 6 {
            assert(ori_acc(msl, 12, 6) % 3 == 0);
        } else if t == 7 {
            assert(ori_acc(msl, 12, 7) % 3 == 0);
        }
    }
}

#[verifier::rlimit(100)]
#[verifier::spinoff_prover]
proof fn twist_pair_2_1()
    ensures
        twist_pair_ok(2, 1),
{
    reveal_with_fuel(iter_rot, 16);
    reveal_with_fuel(ori_src, 16);
    reveal_with_fuel(ori_acc, 16);
    crate::positions::lemma_move_rot_table();
    crate::orientations::lemma_q_back_table();
    reveal(twist_seq_for);
    let msl: Seq<Move> = seq![Move::U3, Move::B3, Move::R1, Move::B3, Move::R1, Move::B3, Move::R1, Move::B1, Move::R3, Move::B1, Move::R3, Move::B1, Move::R3, Move::U1];
    assert(twist_seq_for(2, 1) =~= msl);
    assert(iter_rot(msl, 3, 0) == 3);
    assert(iter_rot(msl, 3, 1) == 7);
    assert(iter_rot(msl, 3, 2) == 2);
    assert(iter_rot(msl, 3, 3) == 5);
    assert(iter_rot(msl, 3, 4) == 4);
    assert(iter_rot(msl, 3, 5) == 1);
    assert(iter_rot(msl, 3, 6) == 0);
    assert(iter_rot(msl, 3, 7) == 6);
    assert(ori_src(msl, 3, 0) == 6);
    assert(ori_acc(msl, 3, 0) == 8);
    assert(ori_src(msl, 3, 1) == 5);
    assert(ori_acc(msl, 3, 1) == 0);
    assert(ori_src(msl, 3, 2) == 2);
    assert(ori_acc(msl, 3, 2) == 10);
    assert(ori_src(msl, 3, 3) == 0);
    assert(ori_acc(msl, 3, 3) == 5);
    assert(ori_src(msl, 3, 4) == 4);
    assert(ori_acc(msl, 3, 4) == 0);
    assert(ori_src(msl, 3, 5) == 3);
    assert(ori_acc(msl, 3, 5) == 4);
    assert(ori_src(msl, 3, 6) == 7);
    assert(ori_acc(msl, 3, 6) == 5);
    assert(ori_src(msl, 3, 7) == 1);
    assert(ori_acc(msl, 3, 7) == 4);
    assert(iter_rot(msl, 10, 0) == 3);
    assert(iter_rot(msl, 10, 1) == 2);
    assert(iter_rot(msl, 10, 2) == 5);
    assert(iter_rot(msl, 10, 3) == 1);
    assert(iter_rot(msl, 10, 4) == 4);
    assert(iter_rot(msl, 10, 5) == 7);
    assert(iter_rot(msl, 10, 6) == 0);
    assert(iter_rot(msl, 10, 7) == 6);
    assert(ori_src(msl, 10, 0) == 6);
    assert(ori_acc(msl, 10, 0) == 20);
    assert(ori_src(msl, 10, 1) == 3);
    assert(ori_acc(msl, 10, 1) == 10);
    assert(ori_src(msl, 10, 2) == 1);
    assert(ori_acc(msl, 10, 2) == 7);
    assert(ori_src(msl, 10, 3) == 0);
    assert(ori_acc(msl, 10, 3) == 17);
    assert(ori_src(msl, 10, 4) == 4);
    assert(ori_acc(msl, 10, 4) == 0);
    assert(ori_src(msl, 10, 5) == 2);
    assert(ori_acc(msl, 10, 5) == 21);
    assert(ori_src(msl, 10, 6) == 7);
    assert(ori_acc(msl, 10, 6) == 5);
    assert(ori_src(msl, 10, 7) == 5);
    assert(ori_acc(msl, 10, 7) == 4);
    assert(iter_rot(msl, 7, 0) == 0);
    assert(iter_rot(msl, 14, 0) == 0);
    assert(iter_rot(msl, 7, 1) == 1);
    assert(iter_rot(msl, 14, 1) == 1);
    assert(iter_rot(msl, 7, 2) == 3);
    assert(iter_rot(msl, 14, 2) == 2);
    assert(iter_rot(msl, 7, 3) == 7);
    assert(iter_rot(msl, 14, 3) == 3);
    assert(iter_rot(msl, 7, 4) == 4);
    assert(iter_rot(msl, 14, 4) == 4);
    assert(iter_rot(msl, 7, 5) == 5);
    assert(iter_rot(msl, 14, 5) == 5);
    assert(iter_rot(msl, 7, 6) == 2);
    assert(iter_rot(msl, 14, 6) == 6);
    assert(iter_rot(msl, 7, 7) == 6);
    assert(iter_rot(msl, 14, 7) == 7);
    assert(ori_src(msl, 7, 0) == 0);
    assert(ori_acc(msl, 7, 0) == 14);
    assert(ori_src(msl, 7, 1) == 1);
    assert(ori_acc(msl, 7, 1) == 4);
    assert(ori_src(msl, 7, 2) == 6);
    assert(ori_acc(msl, 7, 2) == 18);
    assert(ori_src(msl, 7, 3) == 2);
    assert(ori_acc(msl, 7, 3) == 19);
    assert(ori_src(msl, 7, 4) == 4);
    assert(ori_acc(msl, 7, 4) == 0);
    assert(ori_src(msl, 7, 5) == 5);
    assert(ori_acc(msl, 7, 5) == 4);
    assert(ori_src(msl, 7, 6) == 7);
    assert(ori_acc(msl, 7, 6) == 5);
    assert(ori_src(msl, 7, 7) == 3);
    assert(ori_acc(msl, 7, 7) == 8);
    assert(ori_src(msl, 14, 0) == 0);
    assert(ori_acc(msl, 14, 0) == 18);
    assert(ori_src(msl, 14, 1) == 1);
    assert(ori_acc(msl, 14, 1) == 8);
    assert(ori_src(msl, 14, 2) == 2);
    assert(ori_acc(msl, 14, 2) == 22);
    assert(ori_src(msl, 14, 3) == 3);
    assert(ori_acc(msl, 14, 3) == 12);
    assert(ori_src(msl, 14, 4) == 4);
    assert(ori_acc(msl, 14, 4) == 0);
    assert(ori_src(msl, 14, 5) == 5);
    assert(ori_acc(msl, 14, 5) == 6);
    assert(ori_src(msl, 14, 6) == 6);
    assert(ori_acc(msl, 14, 6) == 24);
    assert(ori_src(msl, 14, 7) == 7);
    assert(ori_acc(msl, 14, 7) == 6);
    assert forall|k: int| 0 <= k < 8 implies #[trigger] pos_net(twist_seq_for(2, 1))[k] == id_perm()[k] by {
        lemma_pos_run_pointwise(msl, id_perm(), 14, k);
        if k == 0 {
            assert(id_perm()[0] == 0u8);
            assert(pos_net(twist_seq_for(2, 1))[0] == 0u8);
        } else if k == 1 {
            assert(id_perm()[1] == 1u8);
            assert(pos_net(twist_seq_for(2, 1))[1] == 1u8);
        } else if k == 2 {
            assert(id_perm()[2] == 2u8);
            assert(pos_net(twist_seq_for(2, 1))[2] == 2u8);
        } else if k == 3 {
            assert(id_perm()[3] == 3u8);
            assert(pos_net(twist_seq_for(2, 1))[3] == 3u8);
        } else if k == 4 {
            assert(id_perm()[4] == 4u8);
            assert(pos_net(twist_seq_for(2, 1))[4] == 4u8);
        } else if k == 5 {
            assert(id_perm()[5] == 5u8);
            assert(pos_net(twist_seq_for(2, 1))[5] == 5u8);
        } else if k == 6 {
            assert(id_perm()[6] == 6u8);
            assert(pos_net(twist_seq_for(2, 1))[6] == 6u8);
        } else if k == 7 {
            assert(id_perm()[7] == 7u8);
            assert(pos_net(twist_seq_for(2, 1))[7] == 7u8);
        }
    }
    lemma_pos_run_pointwise(msl, id_perm(), 14, 0);
    assert(pos_net(twist_seq_for(2, 1)) =~= id_perm());
    assert forall|t: int| 0 <= t < 8 implies ori_src(twist_seq_for(2, 1), 14, t) == t && #[trigger] ori_acc(twist_seq_for(2, 1), 14, t) % 3 == twist_delta(2, 1, t) by {
        if t == 0 {
            assert(ori_acc(msl, 14, 0) % 3 == 0);
        } else if t == 1 {
            assert(ori_acc(msl, 14, 1) % 3 == 2);
        } else if t == 2 {
            assert(ori_acc(msl, 14, 2) % 3 == 1);
        } else if t == 3 {
            assert(ori_acc(msl, 14, 3) % 3 == 0);
        } else if t == 4 {
            assert(ori_acc(msl, 14, 4) % 3 == 0);
        } else if t == 5 {
            assert(ori_acc(msl, 14, 5) % 3 == 0);
        } else if t == 6 {
            assert(ori_acc(msl, 14, 6) % 3 == 0);
        } else if t == 7 {
            assert(ori_acc(msl, 14, 7) % 3 == 0);
        }
    }
}

#[verifier::rlimit(100)]
#[verifier::spinoff_prover]
proof fn twist_pair_2_3()
    ensures
        twist_pair_ok(2, 3),
{
    reveal_with_fuel(iter_rot, 16);
    reveal_with_fuel(ori_src, 16);
    reveal_with_fuel(ori_acc, 16);
    crate::positions::lemma_move_rot_table();
    crate::orientations::lemma_q_back_table();
    reveal(twist_seq_for);
    let msl: Seq<Move> = seq![Move::B1, Move::U3, Move::B1, Move::U3, Move::B1, Move::U3, Move::B3, Move::U1, Move::B3, Move::U1, Move::B3, Move::U1];
    assert(twist_seq_for(2, 3) =~= msl);
    assert(iter_rot(msl, 3, 0) == 1);
    assert(iter_rot(msl, 3, 1) == 2);
    assert(iter_rot(msl, 3, 2) == 7);
    assert(iter_rot(msl, 3, 3) == 0);
    assert(iter_rot(msl, 3, 4) == 4);
    assert(iter_rot(msl, 3, 5) == 5);
    assert(iter_rot(msl, 3, 6) == 3);
    assert(iter_rot(msl, 3, 7) == 6);
    assert(ori_src(msl, 3, 0) == 3);
    assert(ori_acc(msl, 3, 0) == 3);
    assert(ori_src(msl, 3, 1) == 0);
    assert(ori_acc(msl, 3, 1) == 9);
    assert(ori_src(msl, 3, 2) == 1);
    assert(ori_acc(msl, 3, 2) == 3);
    assert(ori_src(msl, 3, 3) == 6);
    assert(ori_acc(msl, 3, 3) == 5);
    assert(ori_src(msl, 3, 4) == 4);
    assert(ori_acc(msl, 3, 4) == 0);
    assert(ori_src(msl, 3, 5) == 5);
    assert(ori_acc(msl, 3, 5) == 0);
    assert(ori_src(msl, 3, 6) == 7);
    assert(ori_acc(msl, 3, 6) == 5);
    assert(ori_src(msl, 3, 7) == 2);
    assert(ori_acc(msl, 3, 7) == 5);
    assert(iter_rot(msl, 9, 0) == 3);
    assert(iter_rot(msl, 9, 1) == 0);
    assert(iter_rot(msl, 9, 2) == 1);
    assert(iter_rot(msl, 9, 3) == 6);
    assert(iter_rot(msl, 9, 4) == 4);
    assert(iter_rot(msl, 9, 5) == 5);
    assert(iter_rot(msl, 9, 6) == 7);
    assert(iter_rot(msl, 9, 7) == 2);
    assert(ori_src(msl, 9, 0) == 1);
    assert(ori_acc(msl, 9, 0) == 19);
    assert(ori_src(msl, 9, 1) == 2);
    assert(ori_acc(msl, 9, 1) == 23);
    assert(ori_src(msl, 9, 2) == 7);
    assert(ori_acc(msl, 9, 2) == 21);
    assert(ori_src(msl, 9, 3) == 0);
    assert(ori_acc(msl, 9, 3) == 19);
    assert(ori_src(msl, 9, 4) == 4);
    assert(ori_acc(msl, 9, 4) == 0);
    assert(ori_src(msl, 9, 5) == 5);
    assert(ori_acc(msl, 9, 5) == 0);
    assert(ori_src(msl, 9, 6) == 3);
    assert(ori_acc(msl, 9, 6) == 17);
    assert(ori_src(msl, 9, 7) == 6);
    assert(ori_acc(msl, 9, 7) == 15);
    assert(iter_rot(msl, 6, 0) == 0);
    assert(iter_rot(msl, 12, 0) == 0);
    assert(iter_rot(msl, 6, 1) == 1);
    assert(iter_rot(msl, 12, 1) == 1);
    assert(iter_rot(msl, 6, 2) == 2);
    assert(iter_rot(msl, 12, 2) == 2);
    assert(iter_rot(msl, 6, 3) == 3);
    assert(iter_rot(msl, 12, 3) == 3);
    assert(iter_rot(msl, 6, 4) == 4);
    assert(iter_rot(msl, 12, 4) == 4);
    assert(iter_rot(msl, 6, 5) == 5);
    assert(iter_rot(msl, 12, 5) == 5);
    assert(iter_rot(msl, 6, 6) == 6);
    assert(iter_rot(msl, 12, 6) == 6);
    assert(iter_rot(msl, 6, 7) == 7);
    assert(iter_rot(msl, 12, 7) == 7);
    assert(ori_src(msl, 6, 0) == 0);
    assert(ori_acc(msl, 6, 0) == 10);
    assert(ori_src(msl, 6, 1) == 1);
    assert(ori_acc(msl, 6, 1) == 10);
    assert(ori_src(msl, 6, 2) == 2);
    assert(ori_acc(msl, 6, 2) == 14);
    assert(ori_src(msl, 6, 3) == 3);
    assert(ori_acc(msl, 6, 3) == 10);
    assert(ori_src(msl, 6, 4) == 4);
    assert(ori_acc(msl, 6, 4) == 0);
    assert(ori_src(msl, 6, 5) == 5);
    assert(ori_acc(msl, 6, 5) == 0);
    assert(ori_src(msl, 6, 6) == 6);
    assert(ori_acc(msl, 6, 6) == 14);
    assert(ori_src(msl, 6, 7) == 7);
    assert(ori_acc(msl, 6, 7) == 14);
    assert(ori_src(msl, 12, 0) == 0);
    assert(ori_acc(msl, 12, 0) == 24);
    assert(ori_src(msl, 12, 1) == 1);
    assert(ori_acc(msl, 12, 1) == 24);
    assert(ori_src(msl, 12, 2) == 2);
    assert(ori_acc(msl, 12, 2) == 28);
    assert(ori_src(msl, 12, 3) == 3);
    assert(ori_acc(msl, 12, 3) == 20);
    assert(ori_src(msl, 12, 4) == 4);
    assert(ori_acc(msl, 12, 4) == 0);
    assert(ori_src(msl, 12, 5) == 5);
    assert(ori_acc(msl, 12, 5) == 0);
    assert(ori_src(msl, 12, 6) == 6);
    assert(ori_acc(msl, 12, 6) == 24);
    assert(ori_src(msl, 12, 7) == 7);
    assert(ori_acc(msl, 12, 7) == 24);
    assert forall|k: int| 0 <= k < 8 implies #[trigger] pos_net(twist_seq_for(2, 3))[k] == id_perm()[k] by {
        lemma_pos_run_pointwise(msl, id_perm(), 12, k);
        if k == 0 {
            assert(id_perm()[0] == 0u8);
            assert(pos_net(twist_seq_for(2, 3))[0] == 0u8);
        } else if k == 1 {
            assert(id_perm()[1] == 1u8);
            assert(pos_net(twist_seq_for(2, 3))[1] == 1u8);
        } else if k == 2 {
            assert(id_perm()[2] == 2u8);
            assert(pos_net(twist_seq_for(2, 3))[2] == 2u8);
        } else if k == 3 {
            assert(id_perm()[3] == 3u8);
            assert(pos_net(twist_seq_for(2, 3))[3] == 3u8);
        } else if k == 4 {
            assert(id_perm()[4] == 4u8);
            assert(pos_net(twist_seq_for(2, 3))[4] == 4u8);
        } else if k == 5 {
            assert(id_perm()[5] == 5u8);
            assert(pos_net(twist_seq_for(2, 3))[5] == 5u8);
        } else if k == 6 {
            assert(id_perm()[6] == 6u8);
            assert(pos_net(twist_seq_for(2, 3))[6] == 6u8);
        } else if k == 7 {
            assert(id_perm()[7] == 7u8);
            assert(pos_net(twist_seq_for(2, 3))[7] == 7u8);
        }
    }
    lemma_pos_run_pointwise(msl, id_perm(), 12, 0);
    assert(pos_net(twist_seq_for(2, 3)) =~= id_perm());
    assert forall|t: int| 0 <= t < 8 implies ori_src(twist_seq_for(2, 3), 12, t) == t && #[trigger] ori_acc(twist_seq_for(2, 3), 12, t) % 3 == twist_delta(2, 3, t) by {
        if t == 0 {
            assert(ori_acc(msl, 12, 0) % 3 == 0);
        } else if t == 1 {
            assert(ori_acc(msl, 12, 1) % 3 == 0);
        } else if t == 2 {
            assert(ori_acc(msl, 12, 2) % 3 == 1);
        } else if t == 3 {
            assert(ori_acc(msl, 12, 3) % 3 == 2);
        } else if t == 4 {
            assert(ori_acc(msl, 12, 4) % 3 == 0);
        } else if t == 5 {
            assert(ori_acc(msl, 12, 5) % 3 == 0);
        } else if t == 6 {
            assert(ori_acc(msl, 12, 6) % 3 == 0);
        } else if t == 7 {
            assert(ori_acc(msl, 12, 7) % 3 == 0);
        }
    }
}

#[verifier::rlimit(100)]
#[verifier::spinoff_prover]
proof fn twist_pair_2_4()
    ensures
        twist_pair_ok(2, 4),
{
    reveal_with_fuel(iter_rot, 16);
    reveal_with_fuel(ori_src, 16);
    reveal_with_fuel(ori_acc, 16);
    crate::positions::lemma_move_rot_table();
    crate::orientations::lemma_q_back_table();
    reveal(twist_seq_for);
    let msl: Seq<Move> = seq![Move::B3, Move::L3, Move::D1, Move::L3, Move::D1, Move::L3, Move::D1, Move::L1, Move::D3, Move::L1, Move::D3, Move::L1, Move::D3, Move::B1];
    assert(twist_seq_for(2, 4) =~= msl);
    assert(iter_rot(msl, 3, 0) == 5);
    assert(iter_rot(msl, 3, 1) == 3);
    assert(iter_rot(msl, 3, 2) == 2);
    assert(iter_rot(msl, 3, 3) == 6);
    assert(iter_rot(msl, 3, 4) == 1);
    assert(iter_rot(msl, 3, 5) == 4);
    assert(iter_rot(msl, 3, 6) == 0);
    assert(iter_rot(msl, 3, 7) == 7);
    assert(ori_src(msl, 3, 0) == 6);
    assert(ori_acc(msl, 3, 0) == 2);
    assert(ori_src(msl, 3, 1) == 4);
    assert(ori_acc(msl, 3, 1) == 1);
    assert(ori_src(msl, 3, 2) == 2);
    assert(ori_acc(msl, 3, 2) == 4);
    assert(ori_src(msl, 3, 3) == 1);
    assert(ori_acc(msl, 3, 3) == 4);
    assert(ori_src(msl, 3, 4) == 5);
    assert(ori_acc(msl, 3, 4) == 1);
    assert(ori_src(msl, 3, 5) == 0);
    assert(ori_acc(msl, 3, 5) == 7);
    assert(ori_src(msl, 3, 6) == 3);
    assert(ori_acc(msl, 3, 6) == 5);
    assert(ori_src(msl, 3, 7) == 7);
    assert(ori_acc(msl, 3, 7) == 0);
    assert(iter_rot(msl, 10, 0) == 4);
    assert(iter_rot(msl, 10, 1) == 3);
    assert(iter_rot(msl, 10, 2) == 5);
    assert(iter_rot(msl, 10, 3) == 6);
    assert(iter_rot(msl, 10, 4) == 2);
    assert(iter_rot(msl, 10, 5) == 1);
    assert(iter_rot(msl, 10, 6) == 0);
    assert(iter_rot(msl, 10, 7) == 7);
    assert(ori_src(msl, 10, 0) == 6);
    assert(ori_acc(msl, 10, 0) == 2);
    assert(ori_src(msl, 10, 1) == 5);
    assert(ori_acc(msl, 10, 1) == 8);
    assert(ori_src(msl, 10, 2) == 4);
    assert(ori_acc(msl, 10, 2) == 4);
    assert(ori_src(msl, 10, 3) == 1);
    assert(ori_acc(msl, 10, 3) == 4);
    assert(ori_src(msl, 10, 4) == 0);
    assert(ori_acc(msl, 10, 4) == 14);
    assert(ori_src(msl, 10, 5) == 2);
    assert(ori_acc(msl, 10, 5) == 11);
    assert(ori_src(msl, 10, 6) == 3);
    assert(ori_acc(msl, 10, 6) == 11);
    assert(ori_src(msl, 10, 7) == 7);
    assert(ori_acc(msl, 10, 7) == 0);
    assert(iter_rot(msl, 7, 0) == 1);
    assert(iter_rot(msl, 14, 0) == 0);
    assert(iter_rot(msl, 7, 1) == 3);
    assert(iter_rot(msl, 14, 1) == 1);
    assert(iter_rot(msl, 7, 2) == 0);
    assert(iter_rot(msl, 14, 2) == 2);
    assert(iter_rot(msl, 7, 3) == 2);
    assert(iter_rot(msl, 14, 3) == 3);
    assert(iter_rot(msl, 7, 4) == 4);
    assert(iter_rot(msl, 14, 4) == 4);
    assert(iter_rot(msl, 7, 5) == 5);
    assert(iter_rot(msl, 14, 5) == 5);
    assert(iter_rot(msl, 7, 6) == 6);
    assert(iter_rot(msl, 14, 6) == 6);
    assert(iter_rot(msl, 7, 7) == 7);
    assert(iter_rot(msl, 14, 7) == 7);
    assert(ori_src(msl, 7, 0) == 2);
    assert(ori_acc(msl, 7, 0) == 6);
    assert(ori_src(msl, 7, 1) == 0);
    assert(ori_acc(msl, 7, 1) == 9);
    assert(ori_src(msl, 7, 2) == 3);
    assert(ori_acc(msl, 7, 2) == 7);
    assert(ori_src(msl, 7, 3) == 1);
    assert(ori_acc(msl, 7, 3) == 4);
    assert(ori_src(msl, 7, 4) == 4);
    assert(ori_acc(msl, 7, 4) == 4);
    assert(ori_src(msl, 7, 5) == 5);
    assert(ori_acc(msl, 7, 5) == 4);
    assert(ori_src(msl, 7, 6) == 6);
    assert(ori_acc(msl, 7, 6) == 2);
    assert(ori_src(msl, 7, 7) == 7);
    assert(ori_acc(msl, 7, 7) == 0);
    assert(ori_src(msl, 14, 0) == 0);
    assert(ori_acc(msl, 14, 0) == 24);
    assert(ori_src(msl, 14, 1) == 1);
    assert(ori_acc(msl, 14, 1) == 6);
    assert(ori_src(msl, 14, 2) == 2);
    assert(ori_acc(msl, 14, 2) == 22);
    assert(ori_src(msl, 14, 3) == 3);
    assert(ori_acc(msl, 14, 3) == 12);
    assert(ori_src(msl, 14, 4) == 4);
    assert(ori_acc(msl, 14, 4) == 8);
    assert(ori_src(msl, 14, 5) == 5);
    assert(ori_acc(msl, 14, 5) == 18);
    assert(ori_src(msl, 14, 6) == 6);
    assert(ori_acc(msl, 14, 6) == 6);
    assert(ori_src(msl, 14, 7) == 7);
    assert(ori_acc(msl, 14, 7) == 0);
    assert forall|k: int| 0 <= k < 8 implies #[trigger] pos_net(twist_seq_for(2, 4))[k] == id_perm()[k] by {
        lemma_pos_run_pointwise(msl, id_perm(), 14, k);
        if k == 0 {
            assert(id_perm()[0] == 0u8);
            assert(pos_net(twist_seq_for(2, 4))[0] == 0u8);
        } else if k == 1 {
            assert(id_perm()[1] == 1u8);
            assert(pos_net(twist_seq_for(2, 4))[1] == 1u8);
        } else if k == 2 {
            assert(id_perm()[2] == 2u8);
            assert(pos_net(twist_seq_for(2, 4))[2] == 2u8);
        } else if k == 3 {
            assert(id_perm()[3] == 3u8);
            assert(pos_net(twist_seq_for(2, 4))[3] == 3u8);
        } else if k == 4 {
            assert(id_perm()[4] == 4u8);
            assert(pos_net(twist_seq_for(2, 4))[4] == 4u8);
        } else if k == 5 {
            assert(id_perm()[5] == 5u8);
            assert(pos_net(twist_seq_for(2, 4))[5] == 5u8);
        } else if k == 6 {
            assert(id_perm()[6] == 6u8);
            assert(pos_net(twist_seq_for(2, 4))[6] == 6u8);
        } else if k == 7 {
            assert(id_perm()[7] == 7u8);
            assert(pos_net(twist_seq_for(2, 4))[7] == 7u8);
        }
    }
    lemma_pos_run_pointwise(msl, id_perm(), 14, 0);
    assert(pos_net(twist_seq_for(2, 4)) =~= id_perm());
    assert forall|t: int| 0 <= t < 8 implies ori_src(twist_seq_for(2, 4), 14, t) == t && #[trigger] ori_acc(twist_seq_for(2, 4), 14, t) % 3 == twist_delta(2, 4, t) by {
        if t == 0 {
            assert(ori_acc(msl, 14, 0) % 3 == 0);
        } else if t == 1 {
            assert(ori_acc(msl, 14, 1) % 3 == 0);
        } else if t == 2 {
            assert(ori_acc(msl, 14, 2) % 3 == 1);
        } else if t == 3 {
            assert(ori_acc(msl, 14, 3) % 3 == 0);
        } else if t == 4 {
            assert(ori_acc(msl, 14, 4) % 3 == 2);
        } else if t == 5 {
            assert(ori_acc(msl, 14, 5) % 3 == 0);
        } else if t == 6 {
            assert(ori_acc(msl, 14, 6) % 3 == 0);
        } else if t == 7 {
            assert(ori_acc(msl, 14, 7) % 3 == 0);
        }
    }
}

#[verifier::rlimit(100)]
#[verifier::spinoff_prover]
proof fn twist_pair_2_5()
    ensures
        twist_pair_ok(2, 5),
{
    reveal_with_fuel(iter_rot, 16);
    reveal_with_fuel(ori_src, 16);
    reveal_with_fuel(ori_acc, 16);
    crate::positions::lemma_move_rot_table();
    crate::orientations::lemma_q_back_table();
    reveal(twist_seq_for);
    let msl: Seq<Move> = seq![Move::F2, Move::U1, Move::L3, Move::U1, Move::L3, Move::U1, Move::L3, Move::U3, Move::L1, Move::U3, Move::L1, Move::U3, Move::L1, Move::F2];
    assert(twist_seq_for(2, 5) =~= msl);
    assert(iter_rot(msl, 3, 0) == 2);
    assert(iter_rot(msl, 3, 1) == 1);
    assert(iter_rot(msl, 3, 2) == 4);
    assert(iter_rot(msl, 3, 3) == 6);
    assert(iter_rot(msl, 3, 4) == 3);
    assert(iter_rot(msl, 3, 5) == 7);
    assert(iter_rot(msl, 3, 6) == 5);
    assert(iter_rot(msl, 3, 7) == 0);
    assert(ori_src(msl, 3, 0) == 7);
    assert(ori_acc(msl, 3, 0) == 3);
    assert(ori_src(msl, 3, 1) == 1);
    assert(ori_acc(msl, 3, 1) == 0);
    assert(ori_src(msl, 3, 2) == 0);
    assert(ori_acc(msl, 3, 2) == 0);
    assert(ori_src(msl, 3, 3) == 4);
    assert(ori_acc(msl, 3, 3) == 5);
    assert(ori_src(msl, 3, 4) == 2);
    assert(ori_acc(msl, 3, 4) == 2);
    assert(ori_src(msl, 3, 5) == 6);
    assert(ori_acc(msl, 3, 5) == 3);
    assert(ori_src(msl, 3, 6) == 3);
    assert(ori_acc(msl, 3, 6) == 1);
    assert(ori_src(msl, 3, 7) == 5);
    assert(ori_acc(msl, 3, 7) == 4);
    assert(iter_rot(msl, 10, 0) == 4);
    assert(iter_rot(msl, 10, 1) == 1);
    assert(iter_rot(msl, 10, 2) == 7);
    assert(iter_rot(msl, 10, 3) == 6);
    assert(iter_rot(msl, 10, 4) == 3);
    assert(iter_rot(msl, 10, 5) == 0);
    assert(iter_rot(msl, 10, 6) == 5);
    assert(iter_rot(msl, 10, 7) == 2);
    assert(ori_src(msl, 10, 0) == 5);
    assert(ori_acc(msl, 10, 0) == 11);
    assert(ori_src(msl, 10, 1) == 1);
    assert(ori_acc(msl, 10, 1) == 0);
    assert(ori_src(msl, 10, 2) == 7);
    assert(ori_acc(msl, 10, 2) == 9);
    assert(ori_src(msl, 10, 3) == 4);
    assert(ori_acc(msl, 10, 3) == 17);
    assert(ori_src(msl, 10, 4) == 0);
    assert(ori_acc(msl, 10, 4) == 2);
    assert(ori_src(msl, 10, 5) == 6);
    assert(ori_acc(msl, 10, 5) == 3);
    assert(ori_src(msl, 10, 6) == 3);
    assert(ori_acc(msl, 10, 6) == 13);
    assert(ori_src(msl, 10, 7) == 2);
    assert(ori_acc(msl, 10, 7) == 11);
    assert(iter_rot(msl, 7, 0) == 0);
    assert(iter_rot(msl, 14, 0) == 0);
    assert(iter_rot(msl, 7, 1) == 1);
    assert(iter_rot(msl, 14, 1) == 1);
    assert(iter_rot(msl, 7, 2) == 2);
    assert(iter_rot(msl, 14, 2) == 2);
    assert(iter_rot(msl, 7, 3) == 3);
    assert(iter_rot(msl, 14, 3) == 3);
    assert(iter_rot(msl, 7, 4) == 7);
    assert(iter_rot(msl, 14, 4) == 4);
    assert(iter_rot(msl, 7, 5) == 6);
    assert(iter_rot(msl, 14, 5) == 5);
    assert(iter_rot(msl, 7, 6) == 5);
    assert(iter_rot(msl, 14, 6) == 6);
    assert(iter_rot(msl, 7, 7) == 4);
    assert(iter_rot(msl, 14, 7) == 7);
    assert(ori_src(msl, 7, 0) == 0);
    assert(ori_acc(msl, 7, 0) == 2);
    assert(ori_src(msl, 7, 1) == 1);
    assert(ori_acc(msl, 7, 1) == 0);
    assert(ori_src(msl, 7, 2) == 2);
    assert(ori_acc(msl, 7, 2) == 2);
    assert(ori_src(msl, 7, 3) == 3);
    assert(ori_acc(msl, 7, 3) == 4);
    assert(ori_src(msl, 7, 4) == 7);
    assert(ori_acc(msl, 7, 4) == 5);
    assert(ori_src(msl, 7, 5) == 6);
    assert(ori_acc(msl, 7, 5) == 3);
    assert(ori_src(msl, 7, 6) == 5);
    assert(ori_acc(msl, 7, 6) == 7);
    assert(ori_src(msl, 7, 7) == 4);
    assert(ori_acc(msl, 7, 7) == 7);
    assert(ori_src(msl, 14, 0) == 0);
    assert(ori_acc(msl, 14, 0) == 6);
    assert(ori_src(msl, 14, 1) == 1);
    assert(ori_acc(msl, 14, 1) == 0);
    assert(ori_src(msl, 14, 2) == 2);
    assert(ori_acc(msl, 14, 2) == 16);
    assert(ori_src(msl, 14, 3) == 3);
    assert(ori_acc(msl, 14, 3) == 18);
    assert(ori_src(msl, 14, 4) == 4);
    assert(ori_acc(msl, 14, 4) == 24);
    assert(ori_src(msl, 14, 5) == 5);
    assert(ori_acc(msl, 14, 5) == 14);
    assert(ori_src(msl, 14, 6) == 6);
    assert(ori_acc(msl, 14, 6) == 6);
    assert(ori_src(msl, 14, 7) == 7);
    assert(ori_acc(msl, 14, 7) == 12);
    assert forall|k: int| 0 <= k < 8 implies #[trigger] pos_net(twist_seq_for(2, 5))[k] == id_perm()[k] by {
        lemma_pos_run_pointwise(msl, id_perm(), 14, k);
        if k == 0 {
            assert(id_perm()[0] == 0u8);
            assert(pos_net(twist_seq_for(2, 5))[0] == 0u8);
        } else if k == 1 {
            assert(id_perm()[1] == 1u8);
            assert(pos_net(twist_seq_for(2, 5))[1] == 1u8);
        } else if k == 2 {
            assert(id_perm()[2] == 2u8);
            assert(pos_net(twist_seq_for(2, 5))[2] == 2u8);
        } else if k == 3 {
            assert(id_perm()[3] == 3u8);
            assert(pos_net(twist_seq_for(2, 5))[3] == 3u8);
        } else if k == 4 {
            assert(id_perm()[4] == 4u8);
            assert(pos_net(twist_seq_for(2, 5))[4] == 4u8);
        } else if k == 5 {
            assert(id_perm()[5] == 5u8);
            assert(pos_net(twist_seq_for(2, 5))[5] == 5u8);
        } else if k == 6 {
            assert(id_perm()[6] == 6u8);
            assert(pos_net(twist_seq_for(2, 5))[6] == 6u8);
        } else if k == 7 {
            assert(id_perm()[7] == 7u8);
            assert(pos_net(twist_seq_for(2, 5))[7] == 7u8);
        }
    }
    lemma_pos_run_pointwise(msl, id_perm(), 14, 0);
    assert(pos_net(twist_seq_for(2, 5)) =~= id_perm());
    assert forall|t: int| 0 <= t < 8 implies ori_src(twist_seq_for(2, 5), 14, t) == t && #[trigger] ori_acc(twist_seq_for(2, 5), 14, t) % 3 == twist_delta(2, 5, t) by {
        if t == 0 {
            assert(ori_acc(msl, 14, 0) % 3 == 0);
        } else if t == 1 {
            assert(ori_acc(msl, 14, 1) % 3 == 0);
        } else if t == 2 {
            assert(ori_acc(msl, 14, 2) % 3 == 1);
        } else if t == 3 {
            assert(ori_acc(msl, 14, 3) % 3 == 0);
        } else if t == 4 {
            assert(ori_acc(msl, 14, 4) % 3 == 0);
        } else if t == 5 {
            assert(ori_acc(msl, 14, 5) % 3 == 2);
        } else if t == 6 {
            assert(ori_acc(msl, 14, 6) % 3 == 0);
        } else if t == 7 {
            assert(ori_acc(msl, 14, 7) % 3 == 0);
        }
    }
}

#[verifier::rlimit(100)]
#[verifier::spinoff_prover]
proof fn twist_pair_2_6()
    ensures
        twist_pair_ok(2, 6),
{
    reveal_with_fuel(iter_rot, 16);
    reveal_with_fuel(ori_src, 16);
    reveal_with_fuel(ori_acc, 16);
    crate::positions::lemma_move_rot_table();
    crate::orientations::lemma_q_back_table();
    reveal(twist_seq_for);
    let msl: Seq<Move> = seq![Move::U1, Move::L3, Move::U1, Move::L3, Move::U1, Move::L3, Move::U3, Move::L1, Move::U3, Move::L1, Move::U3, Move::L1];
    assert(twist_seq_for(2, 6) =~= msl);
    assert(iter_rot(msl, 3, 0) == 6);
    assert(iter_rot(msl, 3, 1) == 1);
    assert(iter_rot(msl, 3, 2) == 4);
    assert(iter_rot(msl, 3, 3) == 7);
    assert(iter_rot(msl, 3, 4) == 0);
    assert(iter_rot(msl, 3, 5) == 5);
    assert(iter_rot(msl, 3, 6) == 3);
    assert(iter_rot(msl, 3, 7) == 2);
    assert(ori_src(msl, 3, 0) == 4);
    assert(ori_acc(msl, 3, 0) == 0);
    assert(ori_src(msl, 3, 1) == 1);
    assert(ori_acc(msl, 3, 1) == 0);
    assert(ori_src(msl, 3, 2) == 7);
    assert(ori_acc(msl, 3, 2) == 3);
    assert(ori_src(msl, 3, 3) == 6);
    assert(ori_acc(msl, 3, 3) == 3);
    assert(ori_src(msl, 3, 4) == 2);
    assert(ori_acc(msl, 3, 4) == 2);
    assert(ori_src(msl, 3, 5) == 5);
    assert(ori_acc(msl, 3, 5) == 0);
    assert(ori_src(msl, 3, 6) == 0);
    assert(ori_acc(msl, 3, 6) == 2);
    assert(ori_src(msl, 3, 7) == 3);
    assert(ori_acc(msl, 3, 7) == 2);
    assert(iter_rot(msl, 9, 0) == 4);
    assert(iter_rot(msl, 9, 1) == 1);
    assert(iter_rot(msl, 9, 2) == 7);
    assert(iter_rot(msl, 9, 3) == 6);
    assert(iter_rot(msl, 9, 4) == 2);
    assert(iter_rot(msl, 9, 5) == 5);
    assert(iter_rot(msl, 9, 6) == 0);
    assert(iter_rot(msl, 9, 7) == 3);
    assert(ori_src(msl, 9, 0) == 6);
    assert(ori_acc(msl, 9, 0) == 8);
    assert(ori_src(msl, 9, 1) == 1);
    assert(ori_acc(msl, 9, 1) == 0);
    assert(ori_src(msl, 9, 2) == 4);
    assert(ori_acc(msl, 9, 2) == 6);
    assert(ori_src(msl, 9, 3) == 7);
    assert(ori_acc(msl, 9, 3) == 14);
    assert(ori_src(msl, 9, 4) == 0);
    assert(ori_acc(msl, 9, 4) == 2);
    assert(ori_src(msl, 9, 5) == 5);
    assert(ori_acc(msl, 9, 5) == 0);
    assert(ori_src(msl, 9, 6) == 3);
    assert(ori_acc(msl, 9, 6) == 13);
    assert(ori_src(msl, 9, 7) == 2);
    assert(ori_acc(msl, 9, 7) == 11);
    assert(iter_rot(msl, 6, 0) == 0);
    assert(iter_rot(msl, 12, 0) == 0);
    assert(iter_rot(msl, 6, 1) == 1);
    assert(iter_rot(msl, 12, 1) == 1);
    assert(iter_rot(msl, 6, 2) == 2);
    assert(iter_rot(msl, 12, 2) == 2);
    assert(iter_rot(msl, 6, 3) == 3);
    assert(iter_rot(msl, 12, 3) == 3);
    assert(iter_rot(msl, 6, 4) == 4);
    assert(iter_rot(msl, 12, 4) == 4);
    assert(iter_rot(msl, 6, 5) == 5);
    assert(iter_rot(msl, 12, 5) == 5);
    assert(iter_rot(msl, 6, 6) == 6);
    assert(iter_rot(msl, 12, 6) == 6);
    assert(iter_rot(msl, 6, 7) == 7);
    assert(iter_rot(msl, 12, 7) == 7);
    assert(ori_src(msl, 6, 0) == 0);
    assert(ori_acc(msl, 6, 0) == 2);
    assert(ori_src(msl, 6, 1) == 1);
    assert(ori_acc(msl, 6, 1) == 0);
    assert(ori_src(msl, 6, 2) == 2);
    assert(ori_acc(msl, 6, 2) == 2);
    assert(ori_src(msl, 6, 3) == 3);
    assert(ori_acc(msl, 6, 3) == 4);
    assert(ori_src(msl, 6, 4) == 4);
    assert(ori_acc(msl, 6, 4) == 2);
    assert(ori_src(msl, 6, 5) == 5);
    assert(ori_acc(msl, 6, 5) == 0);
    assert(ori_src(msl, 6, 6) == 6);
    assert(ori_acc(msl, 6, 6) == 4);
    assert(ori_src(msl, 6, 7) == 7);
    assert(ori_acc(msl, 6, 7) == 4);
    assert(ori_src(msl, 12, 0) == 0);
    assert(ori_acc(msl, 12, 0) == 6);
    assert(ori_src(msl, 12, 1) == 1);
    assert(ori_acc(msl, 12, 1) == 0);
    assert(ori_src(msl, 12, 2) == 2);
    assert(ori_acc(msl, 12, 2) == 16);
    assert(ori_src(msl, 12, 3) == 3);
    assert(ori_acc(msl, 12, 3) == 18);
    assert(ori_src(msl, 12, 4) == 4);
    assert(ori_acc(msl, 12, 4) == 6);
    assert(ori_src(msl, 12, 5) == 5);
    assert(ori_acc(msl, 12, 5) == 0);
    assert(ori_src(msl, 12, 6) == 6);
    assert(ori_acc(msl, 12, 6) == 8);
    assert(ori_src(msl, 12, 7) == 7);
    assert(ori_acc(msl, 12, 7) == 18);
    assert forall|k: int| 0 <= k < 8 implies #[trigger] pos_net(twist_seq_for(2, 6))[k] == id_perm()[k] by {
        lemma_pos_run_pointwise(msl, id_perm(), 12, k);
        if k == 0 {
            assert(id_perm()[0] == 0u8);
            assert(pos_net(twist_seq_for(2, 6))[0] == 0u8);
        } else if k == 1 {
            assert(id_perm()[1] == 1u8);
            assert(pos_net(twist_seq_for(2, 6))[1] == 1u8);
        } else if k == 2 {
            assert(id_perm()[2] == 2u8);
            assert(pos_net(twist_seq_for(2, 6))[2] == 2u8);
        } else if k == 3 {
            assert(id_perm()[3] == 3u8);
            assert(pos_net(twist_seq_for(2, 6))[3] == 3u8);
        } else if k == 4 {
            assert(id_perm()[4] == 4u8);
            assert(pos_net(twist_seq_for(2, 6))[4] == 4u8);
        } else if k == 5 {
            assert(id_perm()[5] == 5u8);
            assert(pos_net(twist_seq_for(2, 6))[5] == 5u8);
        } else if k == 6 {
            assert(id_perm()[6] == 6u8);
            assert(pos_net(twist_seq_for(2, 6))[6] == 6u8);
        } else if k == 7 {
            assert(id_perm()[7] == 7u8);
            assert(pos_net(twist_seq_for(2, 6))[7] == 7u8);
        }
    }
    lemma_pos_run_pointwise(msl, id_perm(), 12, 0);
    assert(pos_net(twist_seq_for(2, 6)) =~= id_perm());
    assert forall|t: int| 0 <= t < 8 implies ori_src(twist_seq_for(2, 6), 12, t) == t && #[trigger] ori_acc(twist_seq_for(2, 6), 12, t) % 3 == twist_delta(2, 6, t) by {
        if t == 0 {
            assert(ori_acc(msl, 12, 0) % 3 == 0);
        } else if t == 1 {
            assert(ori_acc(msl, 12, 1) % 3 == 0);
        } else if t == 2 {
            assert(ori_acc(msl, 12, 2) % 3 == 1);
        } else if t == 3 {
            assert(ori_acc(msl, 12, 3) % 3 == 0);
        } else if t == 4 {
            assert(ori_acc(msl, 12, 4) % 3 == 0);
        } else if t == 5 {
            assert(ori_acc(msl, 12, 5) % 3 == 0);
        } else if t == 6 {
            assert(ori_acc(msl, 12, 6) % 3 == 2);
        } else if t == 7 {
            assert(ori_acc(msl, 12, 7) % 3 == 0);
        }
    }
}

#[verifier::rlimit(100)]
#[verifier::spinoff_prover]
proof fn twist_pair_2_7()
    ensures
        twist_pair_ok(2, 7),
{
    reveal_with_fuel(iter_rot, 16);
    reveal_with_fuel(ori_src, 16);
    reveal_with_fuel(ori_acc, 16);
    crate::positions::lemma_move_rot_table();
    crate::orientations::lemma_q_back_table();
    reveal(twist_seq_for);
    let msl: Seq<Move> = seq![Move::L3, Move::U3, Move::F1, Move::U3, Move::F1, Move::U3, Move::F1, Move::U1, Move::F3, Move::U1, Move::F3, Move::U1, Move::F3, Move::L1];
    assert(twist_seq_for(2, 7) =~= msl);
    assert(iter_rot(msl, 3, 0) == 3);
    assert(iter_rot(msl, 3, 1) == 1);
    assert(iter_rot(msl, 3, 2) == 2);
    assert(iter_rot(msl, 3, 3) == 6);
    assert(iter_rot(msl, 3, 4) == 0);
    assert(iter_rot(msl, 3, 5) == 7);
    assert(iter_rot(msl, 3, 6) == 5);
    assert(iter_rot(msl, 3, 7) == 4);
    assert(ori_src(msl, 3, 0) == 4);
    assert(ori_acc(msl, 3, 0) == 0);
    assert(ori_src(msl, 3, 1) == 1);
    assert(ori_acc(msl, 3, 1) == 0);
    assert(ori_src(msl, 3, 2) == 2);
    assert(ori_acc(msl, 3, 2) == 4);
    assert(ori_src(msl, 3, 3) == 0);
    assert(ori_acc(msl, 3, 3) == 5);
    assert(ori_src(msl, 3, 4) == 7);
    assert(ori_acc(msl, 3, 4) == 7);
    assert(ori_src(msl, 3, 5) == 6);
    assert(ori_acc(msl, 3, 5) == 1);
    assert(ori_src(msl, 3, 6) == 3);
    assert(ori_acc(msl, 3, 6) == 5);
    assert(ori_src(msl, 3, 7) == 5);
    assert(ori_acc(msl, 3, 7) == 2);
    assert(iter_rot(msl, 10, 0) == 3);
    assert(iter_rot(msl, 10, 1) == 1);
    assert(iter_rot(msl, 10, 2) == 5);
    assert(iter_rot(msl, 10, 3) == 6);
    assert(iter_rot(msl, 10, 4) == 0);
    assert(iter_rot(msl, 10, 5) == 4);
    assert(iter_rot(msl, 10, 6) == 7);
    assert(iter_rot(msl, 10, 7) == 2);
    assert(ori_src(msl, 10, 0) == 4);
    assert(ori_acc(msl, 10, 0) == 0);
    assert(ori_src(msl, 10, 1) == 1);
    assert(ori_acc(msl, 10, 1) == 0);
    assert(ori_src(msl, 10, 2) == 7);
    assert(ori_acc(msl, 10, 2) == 13);
    assert(ori_src(msl, 10, 3) == 0);
    assert(ori_acc(msl, 10, 3) == 23);
    assert(ori_src(msl, 10, 4) == 5);
    assert(ori_acc(msl, 10, 4) == 15);
    assert(ori_src(msl, 10, 5) == 2);
    assert(ori_acc(msl, 10, 5) == 19);
    assert(ori_src(msl, 10, 6) == 3);
    assert(ori_acc(msl, 10, 6) == 17);
    assert(ori_src(msl, 10, 7) == 6);
    assert(ori_acc(msl, 10, 7) == 15);
    assert(iter_rot(msl, 7, 0) == 2);
    assert(iter_rot(msl, 14, 0) == 0);
    assert(iter_rot(msl, 7, 1) == 1);
    assert(iter_rot(msl, 14, 1) == 1);
    assert(iter_rot(msl, 7, 2) == 6);
    assert(iter_rot(msl, 14, 2) == 2);
    assert(iter_rot(msl, 7, 3) == 3);
    assert(iter_rot(msl, 14, 3) == 3);
    assert(iter_rot(msl, 7, 4) == 0);
    assert(iter_rot(msl, 14, 4) == 4);
    assert(iter_rot(msl, 7, 5) == 5);
    assert(iter_rot(msl, 14, 5) == 5);
    assert(iter_rot(msl, 7, 6) == 4);
    assert(iter_rot(msl, 14, 6) == 6);
    assert(iter_rot(msl, 7, 7) == 7);
    assert(iter_rot(msl, 14, 7) == 7);
    assert(ori_src(msl, 7, 0) == 4);
    assert(ori_acc(msl, 7, 0) == 0);
    assert(ori_src(msl, 7, 1) == 1);
    assert(ori_acc(msl, 7, 1) == 0);
    assert(ori_src(msl, 7, 2) == 0);
    assert(ori_acc(msl, 7, 2) == 14);
    assert(ori_src(msl, 7, 3) == 3);
    assert(ori_acc(msl, 7, 3) == 14);
    assert(ori_src(msl, 7, 4) == 6);
    assert(ori_acc(msl, 7, 4) == 10);
    assert(ori_src(msl, 7, 5) == 5);
    assert(ori_acc(msl, 7, 5) == 10);
    assert(ori_src(msl, 7, 6) == 2);
    assert(ori_acc(msl, 7, 6) == 14);
    assert(ori_src(msl, 7, 7) == 7);
    assert(ori_acc(msl, 7, 7) == 10);
    assert(ori_src(msl, 14, 0) == 0);
    assert(ori_acc(msl, 14, 0) == 24);
    assert(ori_src(msl, 14, 1) == 1);
    assert(ori_acc(msl, 14, 1) == 0);
    assert(ori_src(msl, 14, 2) == 2);
    assert(ori_acc(msl, 14, 2) == 28);
    assert(ori_src(msl, 14, 3) == 3);
    assert(ori_acc(msl, 14, 3) == 24);
    assert(ori_src(msl, 14, 4) == 4);
    assert(ori_acc(msl, 14, 4) == 0);
    assert(ori_src(msl, 14, 5) == 5);
    assert(ori_acc(msl, 14, 5) == 24);
    assert(ori_src(msl, 14, 6) == 6);
    assert(ori_acc(msl, 14, 6) == 24);
    assert(ori_src(msl, 14, 7) == 7);
    assert(ori_acc(msl, 14, 7) == 20);
    assert forall|k: int| 0 <= k < 8 implies #[trigger] pos_net(twist_seq_for(2, 7))[k] == id_perm()[k] by {
        lemma_pos_run_pointwise(msl, id_perm(), 14, k);
        if k == 0 {
            assert(id_perm()[0] == 0u8);
            assert(pos_net(twist_seq_for(2, 7))[0] == 0u8);
        } else if k == 1 {
            assert(id_perm()[1] == 1u8);
            assert(pos_net(twist_seq_for(2, 7))[1] == 1u8);
        } else if k == 2 {
            assert(id_perm()[2] == 2u8);
            assert(pos_net(twist_seq_for(2, 7))[2] == 2u8);
        } else if k == 3 {
            assert(id_perm()[3] == 3u8);
            assert(pos_net(twist_seq_for(2, 7))[3] == 3u8);
        } else if k == 4 {
            assert(id_perm()[4] == 4u8);
            assert(pos_net(twist_seq_for(2, 7))[4] == 4u8);
        } else if k == 5 {
            assert(id_perm()[5] == 5u8);
            assert(pos_net(twist_seq_for(2, 7))[5] == 5u8);
        } else if k == 6 {
            assert(id_perm()[6] == 6u8);
            assert(pos_net(twist_seq_for(2, 7))[6] == 6u8);
        } else if k == 7 {
            assert(id_perm()[7] == 7u8);
            assert(pos_net(twist_seq_for(2, 7))[7] == 7u8);
        }
    }
    lemma_pos_run_pointwise(msl, id_perm(), 14, 0);
    assert(pos_net(twist_seq_for(2, 7)) =~= id_perm());
    assert forall|t: int| 0 <= t < 8 implies ori_src(twist_seq_for(2, 7), 14, t) == t && #[trigger] ori_acc(twist_seq_for(2, 7), 14, t) % 3 == twist_delta(2, 7, t) by {
        if t == 0 {
            assert(ori_acc(msl, 14, 0) % 3 == 0);
        } else if t == 1 {
            assert(ori_acc(msl, 14, 1) % 3 == 0);
        } else if t == 2 {
            assert(ori_acc(msl, 14, 2) % 3 == 1);
        } else if t == 3 {
            assert(ori_acc(msl, 14, 3) % 3 == 0);
        } else if t == 4 {
            assert(ori_acc(msl, 14, 4) % 3 == 0);
        } else if t == 5 {
            assert(ori_acc(msl, 14, 5) % 3 == 0);
        } else if t == 6 {
            assert(ori_acc(msl, 14, 6) % 3 == 0);
        } else if t == 7 {
            assert(ori_acc(msl, 14, 7) % 3 == 2);
        }
    }
}

#[verifier::rlimit(100)]
#[verifier::spinoff_prover]
proof fn twist_pair_3_0()
    ensures
        twist_pair_ok(3, 0),
{
    reveal_with_fuel(iter_rot, 16);
    reveal_with_fuel(ori_src, 16);
    reveal_with_fuel(ori_acc, 16);
    crate::positions::lemma_move_rot_table();
    crate::orientations::lemma_q_back_table();
    reveal(twist_seq_for);
    let msl: Seq<Move> = seq![Move::D1, Move::B1, Move::R3, Move::B1, Move::R3, Move::B1, Move::R3, Move::B3, Move::R1, Move::B3, Move::R1, Move::B3, Move::R1, Move::D3];
    assert(twist_seq_for(3, 0) =~= msl);
    assert(iter_rot(msl, 3, 0) == 0);
    assert(iter_rot(msl, 3, 1) == 7);
    assert(iter_rot(msl, 3, 2) == 1);
    assert(iter_rot(msl, 3, 3) == 5);
    assert(iter_rot(msl, 3, 4) == 2);
    assert(iter_rot(msl, 3, 5) == 4);
    assert(iter_rot(msl, 3, 6) == 6);
    assert(iter_rot(msl, 3, 7) == 3);
    assert(ori_src(msl, 3, 0) == 0);
    assert(ori_acc(msl, 3, 0) == 2);
    assert(ori_src(msl, 3, 1) == 2);
    assert(ori_acc(msl, 3, 1) == 1);
    assert(ori_src(msl, 3, 2) == 4);
    assert(ori_acc(msl, 3, 2) == 4);
    assert(ori_src(msl, 3, 3) == 7);
    assert(ori_acc(msl, 3, 3) == 0);
    assert(ori_src(msl, 3, 4) == 5);
    assert(ori_acc(msl, 3, 4) == 1);
    assert(ori_src(msl, 3, 5) == 3);
    assert(ori_acc(msl, 3, 5) == 2);
    assert(ori_src(msl, 3, 6) == 6);
    assert(ori_acc(msl, 3, 6) == 0);
    assert(ori_src(msl, 3, 7) == 1);
    assert(ori_acc(msl, 3, 7) == 2);
    assert(iter_rot(msl, 10, 0) == 7);
    assert(iter_rot(msl, 10, 1) == 3);
    assert(iter_rot(msl, 10, 2) == 1);
    assert(iter_rot(msl, 10, 3) == 0);
    assert(iter_rot(msl, 10, 4) == 2);
    assert(iter_rot(msl, 10, 5) == 4);
    assert(iter_rot(msl, 10, 6) == 6);
    assert(iter_rot(msl, 10, 7) == 5);
    assert(ori_src(msl, 10, 0) == 3);
    assert(ori_acc(msl, 10, 0) == 11);
    assert(ori_src(msl, 10, 1) == 2);
    assert(ori_acc(msl, 10, 1) == 13);
    assert(ori_src(msl, 10, 2) == 4);
    assert(ori_acc(msl, 10, 2) == 16);
    assert(ori_src(msl, 10, 3) == 1);
    assert(ori_acc(msl, 10, 3) == 8);
    assert(ori_src(msl, 10, 4) == 5);
    assert(ori_acc(msl, 10, 4) == 1);
    assert(ori_src(msl, 10, 5) == 7);
    assert(ori_acc(msl, 10, 5) == 2);
    assert(ori_src(msl, 10, 6) == 6);
    assert(ori_acc(msl, 10, 6) == 0);
    assert(ori_src(msl, 10, 7) == 0);
    assert(ori_acc(msl, 10, 7) == 9);
    assert(iter_rot(msl, 7, 0) == 1);
    assert(iter_rot(msl, 14, 0) == 0);
    assert(iter_rot(msl, 7, 1) == 5);
    assert(iter_rot(msl, 14, 1) == 1);
    assert(iter_rot(msl, 7, 2) == 2);
    assert(iter_rot(msl, 14, 2) == 2);
    assert(iter_rot(msl, 7, 3) == 3);
    assert(iter_rot(msl, 14, 3) == 3);
    assert(iter_rot(msl, 7, 4) == 0);
    assert(iter_rot(msl, 14, 4) == 4);
    assert(iter_rot(msl, 7, 5) == 4);
    assert(iter_rot(msl, 14, 5) == 5);
    assert(iter_rot(msl, 7, 6) == 6);
    assert(iter_rot(msl, 14, 6) == 6);
    assert(iter_rot(msl, 7, 7) == 7);
    assert(iter_rot(msl, 14, 7) == 7);
    assert(ori_src(msl, 7, 0) == 4);
    assert(ori_acc(msl, 7, 0) == 6);
    assert(ori_src(msl, 7, 1) == 0);
    assert(ori_acc(msl, 7, 1) == 5);
    assert(ori_src(msl, 7, 2) == 2);
    assert(ori_acc(msl, 7, 2) == 4);
    assert(ori_src(msl, 7, 3) == 3);
    assert(ori_acc(msl, 7, 3) == 2);
    assert(ori_src(msl, 7, 4) == 5);
    assert(ori_acc(msl, 7, 4) == 1);
    assert(ori_src(msl, 7, 5) == 1);
    assert(ori_acc(msl, 7, 5) == 4);
    assert(ori_src(msl, 7, 6) == 6);
    assert(ori_acc(msl, 7, 6) == 0);
    assert(ori_src(msl, 7, 7) == 7);
    assert(ori_acc(msl, 7, 7) == 2);
    assert(ori_src(msl, 14, 0) == 0);
    assert(ori_acc(msl, 14, 0) == 14);
    assert(ori_src(msl, 14, 1) == 1);
    assert(ori_acc(msl, 14, 1) == 12);
    assert(ori_src(msl, 14, 2) == 2);
    assert(ori_acc(msl, 14, 2) == 18);
    assert(ori_src(msl, 14, 3) == 3);
    assert(ori_acc(msl, 14, 3) == 16);
    assert(ori_src(msl, 14, 4) == 4);
    assert(ori_acc(msl, 14, 4) == 24);
    assert(ori_src(msl, 14, 5) == 5);
    assert(ori_acc(msl, 14, 5) == 6);
    assert(ori_src(msl, 14, 6) == 6);
    assert(ori_acc(msl, 14, 6) == 0);
    assert(ori_src(msl, 14, 7) == 7);
    assert(ori_acc(msl, 14, 7) == 6);
    assert forall|k: int| 0 <= k < 8 implies #[trigger] pos_net(twist_seq_for(3, 0))[k] == id_perm()[k] by {
        lemma_pos_run_pointwise(msl, id_perm(), 14, k);
        if k == 0 {
            assert(id_perm()[0] == 0u8);
            assert(pos_net(twist_seq_for(3, 0))[0] == 0u8);
        } else if k == 1 {
            assert(id_perm()[1] == 1u8);
            assert(pos_net(twist_seq_for(3, 0))[1] == 1u8);
        } else if k == 2 {
            assert(id_perm()[2] == 2u8);
            assert(pos_net(twist_seq_for(3, 0))[2] == 2u8);
        } else if k == 3 {
            assert(id_perm()[3] == 3u8);
            assert(pos_net(twist_seq_for(3, 0))[3] == 3u8);
        } else if k == 4 {
            assert(id_perm()[4] == 4u8);
            assert(pos_net(twist_seq_for(3, 0))[4] == 4u8);
        } else if k == 5 {
            assert(id_perm()[5] == 5u8);
            assert(pos_net(twist_seq_for(3, 0))[5] == 5u8);
        } else if k == 6 {
            assert(id_perm()[6] == 6u8);
            assert(pos_net(twist_seq_for(3, 0))[6] == 6u8);
        } else if k == 7 {
            assert(id_perm()[7] == 7u8);
            assert(pos_net(twist_seq_for(3, 0))[7] == 7u8);
        }
    }
    lemma_pos_run_pointwise(msl, id_perm(), 14, 0);
    assert(pos_net(twist_seq_for(3, 0)) =~= id_perm());
    assert forall|t: int| 0 <= t < 8 implies ori_src(twist_seq_for(3, 0), 14, t) == t && #[trigger] ori_acc(twist_seq_for(3, 0), 14, t) % 3 == twist_delta(3, 0, t) by {
        if t == 0 {
            assert(ori_acc(msl, 14, 0) % 3 == 2);
        } else if t == 1 {
            assert(ori_acc(msl, 14, 1) % 3 == 0);
        } else if t == 2 {
            assert(ori_acc(msl, 14, 2) % 3 == 0);
        } else if t == 3 {
            assert(ori_acc(msl, 14, 3) % 3 == 1);
        } else if t == 4 {
            assert(ori_acc(msl, 14, 4) % 3 == 0);
        } else if t == 5 {
            assert(ori_acc(msl, 14, 5) % 3 == 0);
        } else if t == 6 {
            assert(ori_acc(msl, 14, 6) % 3 == 0);
        } else if t == 7 {
            assert(ori_acc(msl, 14, 7) % 3 == 0);
        }
    }
}

#[verifier::rlimit(100)]
#[verifier::spinoff_prover]
proof fn twist_pair_3_1()
    ensures
        twist_pair_ok(3, 1),
{
    reveal_with_fuel(iter_rot, 16);
    reveal_with_fuel(ori_src, 16);
    reveal_with_fuel(ori_acc, 16);
    crate::positions::lemma_move_rot_table();
    crate::orientations::lemma_q_back_table();
    reveal(twist_seq_for);
    let msl: Seq<Move> = seq![Move::B1, Move::R3, Move::B1, Move::R3, Move::B1, Move::R3, Move::B3, Move::R1, Move::B3, Move::R1, Move::B3, Move::R1];
    assert(twist_seq_for(3, 1) =~= msl);
    assert(iter_rot(msl, 3, 0) == 3);
    assert(iter_rot(msl, 3, 1) == 2);
    assert(iter_rot(msl, 3, 2) == 0);
    assert(iter_rot(msl, 3, 3) == 5);
    assert(iter_rot(msl, 3, 4) == 4);
    assert(iter_rot(msl, 3, 5) == 7);
    assert(iter_rot(msl, 3, 6) == 6);
    assert(iter_rot(msl, 3, 7) == 1);
    assert(ori_src(msl, 3, 0) == 2);
    assert(ori_acc(msl, 3, 0) == 2);
    assert(ori_src(msl, 3, 1) == 7);
    assert(ori_acc(msl, 3, 1) == 2);
    assert(ori_src(msl, 3, 2) == 1);
    assert(ori_acc(msl, 3, 2) == 3);
    assert(ori_src(msl, 3, 3) == 0);
    assert(ori_acc(msl, 3, 3) == 3);
    assert(ori_src(msl, 3, 4) == 4);
    assert(ori_acc(msl, 3, 4) == 0);
    assert(ori_src(msl, 3, 5) == 3);
    assert(ori_acc(msl, 3, 5) == 2);
    assert(ori_src(msl, 3, 6) == 6);
    assert(ori_acc(msl, 3, 6) == 0);
    assert(ori_src(msl, 3, 7) == 5);
    assert(ori_acc(msl, 3, 7) == 0);
    assert(iter_rot(msl, 9, 0) == 2);
    assert(iter_rot(msl, 9, 1) == 7);
    assert(iter_rot(msl, 9, 2) == 1);
    assert(iter_rot(msl, 9, 3) == 0);
    assert(iter_rot(msl, 9, 4) == 4);
    assert(iter_rot(msl, 9, 5) == 3);
    assert(iter_rot(msl, 9, 6) == 6);
    assert(iter_rot(msl, 9, 7) == 5);
    assert(ori_src(msl, 9, 0) == 3);
    assert(ori_acc(msl, 9, 0) == 11);
    assert(ori_src(msl, 9, 1) == 2);
    assert(ori_acc(msl, 9, 1) == 13);
    assert(ori_src(msl, 9, 2) == 0);
    assert(ori_acc(msl, 9, 2) == 14);
    assert(ori_src(msl, 9, 3) == 5);
    assert(ori_acc(msl, 9, 3) == 6);
    assert(ori_src(msl, 9, 4) == 4);
    assert(ori_acc(msl, 9, 4) == 0);
    assert(ori_src(msl, 9, 5) == 7);
    assert(ori_acc(msl, 9, 5) == 2);
    assert(ori_src(msl, 9, 6) == 6);
    assert(ori_acc(msl, 9, 6) == 0);
    assert(ori_src(msl, 9, 7) == 1);
    assert(ori_acc(msl, 9, 7) == 8);
    assert(iter_rot(msl, 6, 0) == 0);
    assert(iter_rot(msl, 12, 0) == 0);
    assert(iter_rot(msl, 6, 1) == 1);
    assert(iter_rot(msl, 12, 1) == 1);
    assert(iter_rot(msl, 6, 2) == 2);
    assert(iter_rot(msl, 12, 2) == 2);
    assert(iter_rot(msl, 6, 3) == 3);
    assert(iter_rot(msl, 12, 3) == 3);
    assert(iter_rot(msl, 6, 4) == 4);
    assert(iter_rot(msl, 12, 4) == 4);
    assert(iter_rot(msl, 6, 5) == 5);
    assert(iter_rot(msl, 12, 5) == 5);
    assert(iter_rot(msl, 6, 6) == 6);
    assert(iter_rot(msl, 12, 6) == 6);
    assert(iter_rot(msl, 6, 7) == 7);
    assert(iter_rot(msl, 12, 7) == 7);
    assert(ori_src(msl, 6, 0) == 0);
    assert(ori_acc(msl, 6, 0) == 4);
    assert(ori_src(msl, 6, 1) == 1);
    assert(ori_acc(msl, 6, 1) == 4);
    assert(ori_src(msl, 6, 2) == 2);
    assert(ori_acc(msl, 6, 2) == 4);
    assert(ori_src(msl, 6, 3) == 3);
    assert(ori_acc(msl, 6, 3) == 2);
    assert(ori_src(msl, 6, 4) == 4);
    assert(ori_acc(msl, 6, 4) == 0);
    assert(ori_src(msl, 6, 5) == 5);
    assert(ori_acc(msl, 6, 5) == 2);
    assert(ori_src(msl, 6, 6) == 6);
    assert(ori_acc(msl, 6, 6) == 0);
    assert(ori_src(msl, 6, 7) == 7);
    assert(ori_acc(msl, 6, 7) == 2);
    assert(ori_src(msl, 12, 0) == 0);
    assert(ori_acc(msl, 12, 0) == 18);
    assert(ori_src(msl, 12, 1) == 1);
    assert(ori_acc(msl, 12, 1) == 8);
    assert(ori_src(msl, 12, 2) == 2);
    assert(ori_acc(msl, 12, 2) == 18);
    assert(ori_src(msl, 12, 3) == 3);
    assert(ori_acc(msl, 12, 3) == 16);
    assert(ori_src(msl, 12, 4) == 4);
    assert(ori_acc(msl, 12, 4) == 0);
    assert(ori_src(msl, 12, 5) == 5);
    assert(ori_acc(msl, 12, 5) == 6);
    assert(ori_src(msl, 12, 6) == 6);
    assert(ori_acc(msl, 12, 6) == 0);
    assert(ori_src(msl, 12, 7) == 7);
    assert(ori_acc(msl, 12, 7) == 6);
    assert forall|k: int| 0 <= k < 8 implies #[trigger] pos_net(twist_seq_for(3, 1))[k] == id_perm()[k] by {
        lemma_pos_run_pointwise(msl, id_perm(), 12, k);
        if k == 0 {
            assert(id_perm()[0] == 0u8);
            assert(pos_net(twist_seq_for(3, 1))[0] == 0u8);
        } else if k == 1 {
            assert(id_perm()[1] == 1u8);
            assert(pos_net(twist_seq_for(3, 1))[1] == 1u8);
        } else if k == 2 {
            assert(id_perm()[2] == 2u8);
            assert(pos_net(twist_seq_for(3, 1))[2] == 2u8);
        } else if k == 3 {
            assert(id_perm()[3] == 3u8);
            assert(pos_net(twist_seq_for(3, 1))[3] == 3u8);
        } else if k == 4 {
            assert(id_perm()[4] == 4u8);
            assert(pos_net(twist_seq_for(3, 1))[4] == 4u8);
        } else if k == 5 {
            assert(id_perm()[5] == 5u8);
            assert(pos_net(twist_seq_for(3, 1))[5] == 5u8);
        } else if k == 6 {
            assert(id_perm()[6] == 6u8);
            assert(pos_net(twist_seq_for(3, 1))[6] == 6u8);
        } else if k == 7 {
            assert(id_perm()[7] == 7u8);
            assert(pos_net(twist_seq_for(3, 1))[7] == 7u8);
        }
    }
    lemma_pos_run_pointwise(msl, id_perm(), 12, 0);
    assert(pos_net(twist_seq_for(3, 1)) =~= id_perm());
    assert forall|t: int| 0 <= t < 8 implies ori_src(twist_seq_for(3, 1), 12, t) == t && #[trigger] ori_acc(twist_seq_for(3, 1), 12, t) % 3 == twist_delta(3, 1, t) by {
        if t == 0 {
            assert(ori_acc(msl, 12, 0) % 3 == 0);
        } else if t == 1 {
            assert(ori_acc(msl, 12, 1) % 3 == 2);
        } else if t == 2 {
            assert(ori_acc(msl, 12, 2) % 3 == 0);
        } else if t == 3 {
            assert(ori_acc(msl, 12, 3) % 3 == 1);
        } else if t == 4 {
            assert(ori_acc(msl, 12, 4) % 3 == 0);
        } else if t == 5 {
            assert(ori_acc(msl, 12, 5) % 3 == 0);
        } else if t == 6 {
            assert(ori_acc(msl, 12, 6) % 3 == 0);
        } else if t == 7 {
            assert(ori_acc(msl, 12, 7) % 3 == 0);
        }
    }
}

#[verifier::rlimit(100)]
#[verifier::spinoff_prover]
proof fn twist_pair_3_2()
    ensures
        twist_pair_ok(3, 2),
{
    reveal_with_fuel(iter_rot, 16);
    reveal_with_fuel(ori_src, 16);
    reveal_with_fuel(ori_acc, 16);
    crate::positions::lemma_move_rot_table();
    crate::orientations::lemma_q_back_table();
    reveal(twist_seq_for);
    let msl: Seq<Move> = seq![Move::U1, Move::B3, Move::U1, Move::B3, Move::U1, Move::B3, Move::U3, Move::B1, Move::U3, Move::B1, Move::U3, Move::B1];
    assert(twist_seq_for(3, 2) =~= msl);
    assert(iter_rot(msl, 3, 0) == 1);
    assert(iter_rot(msl, 3, 1) == 2);
    assert(iter_rot(msl, 3, 2) == 7);
    assert(iter_rot(msl, 3, 3) == 0);
    assert(iter_rot(msl, 3, 4) == 4);
    assert(iter_rot(msl, 3, 5) == 5);
    assert(iter_rot(msl, 3, 6) == 3);
    assert(iter_rot(msl, 3, 7) == 6);
    assert(ori_src(msl, 3, 0) == 3);
    assert(ori_acc(msl, 3, 0) == 5);
    assert(ori_src(msl, 3, 1) == 0);
    assert(ori_acc(msl, 3, 1) == 5);
    assert(ori_src(msl, 3, 2) == 1);
    assert(ori_acc(msl, 3, 2) == 5);
    assert(ori_src(msl, 3, 3) == 6);
    assert(ori_acc(msl, 3, 3) == 3);
    assert(ori_src(msl, 3, 4) == 4);
    assert(ori_acc(msl, 3, 4) == 0);
    assert(ori_src(msl, 3, 5) == 5);
    assert(ori_acc(msl, 3, 5) == 0);
    assert(ori_src(msl, 3, 6) == 7);
    assert(ori_acc(msl, 3, 6) == 9);
    assert(ori_src(msl, 3, 7) == 2);
    assert(ori_acc(msl, 3, 7) == 3);
    assert(iter_rot(msl, 9, 0) == 3);
    assert(iter_rot(msl, 9, 1) == 0);
    assert(iter_rot(msl, 9, 2) == 1);
    assert(iter_rot(msl, 9, 3) == 6);
    assert(iter_rot(msl, 9, 4) == 4);
    assert(iter_rot(msl, 9, 5) == 5);
    assert(iter_rot(msl, 9, 6) == 7);
    assert(iter_rot(msl, 9, 7) == 2);
    assert(ori_src(msl, 9, 0) == 1);
    assert(ori_acc(msl, 9, 0) == 15);
    assert(ori_src(msl, 9, 1) == 2);
    assert(ori_acc(msl, 9, 1) == 17);
    assert(ori_src(msl, 9, 2) == 7);
    assert(ori_acc(msl, 9, 2) == 19);
    assert(ori_src(msl, 9, 3) == 0);
    assert(ori_acc(msl, 9, 3) == 21);
    assert(ori_src(msl, 9, 4) == 4);
    assert(ori_acc(msl, 9, 4) == 0);
    assert(ori_src(msl, 9, 5) == 5);
    assert(ori_acc(msl, 9, 5) == 0);
    assert(ori_src(msl, 9, 6) == 3);
    assert(ori_acc(msl, 9, 6) == 23);
    assert(ori_src(msl, 9, 7) == 6);
    assert(ori_acc(msl, 9, 7) == 19);
    assert(iter_rot(msl, 6, 0) == 0);
    assert(iter_rot(msl, 12, 0) == 0);
    assert(iter_rot(msl, 6, 1) == 1);
    assert(iter_rot(msl, 12, 1) == 1);
    assert(iter_rot(msl, 6, 2) == 2);
    assert(iter_rot(msl, 12, 2) == 2);
    assert(iter_rot(msl, 6, 3) == 3);
    assert(iter_rot(msl, 12, 3) == 3);
    assert(iter_rot(msl, 6, 4) == 4);
    assert(iter_rot(msl, 12, 4) == 4);
    assert(iter_rot(msl, 6, 5) == 5);
    assert(iter_rot(msl, 12, 5) == 5);
    assert(iter_rot(msl, 6, 6) == 6);
    assert(iter_rot(msl, 12, 6) == 6);
    assert(iter_rot(msl, 6, 7) == 7);
    assert(iter_rot(msl, 12, 7) == 7);
    assert(ori_src(msl, 6, 0) == 0);
    assert(ori_acc(msl, 6, 0) == 14);
    assert(ori_src(msl, 6, 1) == 1);
    assert(ori_acc(msl, 6, 1) == 14);
    assert(ori_src(msl, 6, 2) == 2);
    assert(ori_acc(msl, 6, 2) == 10);
    assert(ori_src(msl, 6, 3) == 3);
    assert(ori_acc(msl, 6, 3) == 14);
    assert(ori_src(msl, 6, 4) == 4);
    assert(ori_acc(msl, 6, 4) == 0);
    assert(ori_src(msl, 6, 5) == 5);
    assert(ori_acc(msl, 6, 5) == 0);
    assert(ori_src(msl, 6, 6) == 6);
    assert(ori_acc(msl, 6, 6) == 10);
    assert(ori_src(msl, 6, 7) == 7);
    assert(ori_acc(msl, 6, 7) == 10);
    assert(ori_src(msl, 12, 0) == 0);
    assert(ori_acc(msl, 12, 0) == 24);
    assert(ori_src(msl, 12, 1) == 1);
    assert(ori_acc(msl, 12, 1) == 24);
    assert(ori_src(msl, 12, 2) == 2);
    assert(ori_acc(msl, 12, 2) == 20);
    assert(ori_src(msl, 12, 3) == 3);
    assert(ori_acc(msl, 12, 3) == 28);
    assert(ori_src(msl, 12, 4) == 4);
    assert(ori_acc(msl, 12, 4) == 0);
    assert(ori_src(msl, 12, 5) == 5);
    assert(ori_acc(msl, 12, 5) == 0);
    assert(ori_src(msl, 12, 6) == 6);
    assert(ori_acc(msl, 12, 6) == 24);
    assert(ori_src(msl, 12, 7) == 7);
    assert(ori_acc(msl, 12, 7) == 24);
    assert forall|k: int| 0 <= k < 8 implies #[trigger] pos_net(twist_seq_for(3, 2))[k] == id_perm()[k] by {
        lemma_pos_run_pointwise(msl, id_perm(), 12, k);
        if k == 0 {
            assert(id_perm()[0] == 0u8);
            assert(pos_net(twist_seq_for(3, 2))[0] == 0u8);
        } else if k == 1 {
            assert(id_perm()[1] == 1u8);
            assert(pos_net(twist_seq_for(3, 2))[1] == 1u8);
        } else if k == 2 {
            assert(id_perm()[2] == 2u8);
            assert(pos_net(twist_seq_for(3, 2))[2] == 2u8);
        } else if k == 3 {
            assert(id_perm()[3] == 3u8);
            assert(pos_net(twist_seq_for(3, 2))[3] == 3u8);
        } else if k == 4 {
            assert(id_perm()[4] == 4u8);
            assert(pos_net(twist_seq_for(3, 2))[4] == 4u8);
        } else if k == 5 {
            assert(id_perm()[5] == 5u8);
            assert(pos_net(twist_seq_for(3, 2))[5] == 5u8);
        } else if k == 6 {
            assert(id_perm()[6] == 6u8);
            assert(pos_net(twist_seq_for(3, 2))[6] == 6u8);
        } else if k == 7 {
            assert(id_perm()[7] == 7u8);
            assert(pos_net(twist_seq_for(3, 2))[7] == 7u8);
        }
    }
    lemma_pos_run_pointwise(msl, id_perm(), 12, 0);
    assert(pos_net(twist_seq_for(3, 2)) =~= id_perm());
    assert forall|t: int| 0 <= t < 8 implies ori_src(twist_seq_for(3, 2), 12, t) == t && #[trigger] ori_acc(twist_seq_for(3, 2), 12, t) % 3 == twist_delta(3, 2, t) by {
        if t == 0 {
            assert(ori_acc(msl, 12, 0) % 3 == 0);
        } else if t == 1 {
            assert(ori_acc(msl, 12, 1) % 3 == 0);
        } else if t == 2 {
            assert(ori_acc(msl, 12, 2) % 3 == 2);
        } else if t == 3 {
            assert(ori_acc(msl, 12, 3) % 3 == 1);
        } else if t == 4 {
            assert(ori_acc(msl, 12, 4) % 3 == 0);
        } else if t == 5 {
            assert(ori_acc(msl, 12, 5) % 3 == 0);
        } else if t == 6 {
            assert(ori_acc(msl, 12, 6) % 3 == 0);
        } else if t == 7 {
            assert(ori_acc(msl, 12, 7) % 3 == 0);
        }
    }
}

#[verifier::rlimit(100)]
#[verifier::spinoff_prover]
proof fn twist_pair_3_4()
    ensures
        twist_pair_ok(3, 4),
{
    reveal_with_fuel(iter_rot, 16);
    reveal_with_fuel(ori_src, 16);
    reveal_with_fuel(ori_acc, 16);
    crate::positions::lemma_move_rot_table();
    crate::orientations::lemma_q_back_table();
    reveal(twist_seq_for);
    let msl: Seq<Move> = seq![Move::F2, Move::R1, Move::U3, Move::R1, Move::U3, Move::R1, Move::U3, Move::R3, Move::U1, Move::R3, Move::U1, Move::R3, Move::U1, Move::F2];
    assert(twist_seq_for(3, 4) =~= msl);
    assert(iter_rot(msl, 3, 0) == 0);
    assert(iter_rot(msl, 3, 1) == 7);
    assert(iter_rot(msl, 3, 2) == 3);
    assert(iter_rot(msl, 3, 3) == 6);
    assert(iter_rot(msl, 3, 4) == 5);
    assert(iter_rot(msl, 3, 5) == 2);
    assert(iter_rot(msl, 3, 6) == 1);
    assert(iter_rot(msl, 3, 7) == 4);
    assert(ori_src(msl, 3, 0) == 0);
    assert(ori_acc(msl, 3, 0) == 0);
    assert(ori_src(msl, 3, 1) == 6);
    assert(ori_acc(msl, 3, 1) == 3);
    assert(ori_src(msl, 3, 2) == 5);
    assert(ori_acc(msl, 3, 2) == 7);
    assert(ori_src(msl, 3, 3) == 2);
    assert(ori_acc(msl, 3, 3) == 5);
    assert(ori_src(msl, 3, 4) == 7);
    assert(ori_acc(msl, 3, 4) == 3);
    assert(ori_src(msl, 3, 5) == 4);
    assert(ori_acc(msl, 3, 5) == 3);
    assert(ori_src(msl, 3, 6) == 3);
    assert(ori_acc(msl, 3, 6) == 5);
    assert(ori_src(msl, 3, 7) == 1);
    assert(ori_acc(msl, 3, 7) == 4);
    assert(iter_rot(msl, 10, 0) == 0);
    assert(iter_rot(msl, 10, 1) == 7);
    assert(iter_rot(msl, 10, 2) == 6);
    assert(iter_rot(msl, 10, 3) == 5);
    assert(iter_rot(msl, 10, 4) == 2);
    assert(iter_rot(msl, 10, 5) == 3);
    assert(iter_rot(msl, 10, 6) == 1);
    assert(iter_rot(msl, 10, 7) == 4);
    assert(ori_src(msl, 10, 0) == 0);
    assert(ori_acc(msl, 10, 0) == 0);
    assert(ori_src(msl, 10, 1) == 6);
    assert(ori_acc(msl, 10, 1) == 9);
    assert(ori_src(msl, 10, 2) == 4);
    assert(ori_acc(msl, 10, 2) == 8);
    assert(ori_src(msl, 10, 3) == 5);
    assert(ori_acc(msl, 10, 3) == 18);
    assert(ori_src(msl, 10, 4) == 7);
    assert(ori_acc(msl, 10, 4) == 3);
    assert(ori_src(msl, 10, 5) == 3);
    assert(ori_acc(msl, 10, 5) == 14);
    assert(ori_src(msl, 10, 6) == 2);
    assert(ori_acc(msl, 10, 6) == 16);
    assert(ori_src(msl, 10, 7) == 1);
    assert(ori_acc(msl, 10, 7) == 4);
    assert(iter_rot(msl, 7, 0) == 0);
    assert(iter_rot(msl, 14, 0) == 0);
    assert(iter_rot(msl, 7, 1) == 1);
    assert(iter_rot(msl, 14, 1) == 1);
    assert(iter_rot(msl, 7, 2) == 2);
    assert(iter_rot(msl, 14, 2) == 2);
    assert(iter_rot(msl, 7, 3) == 3);
    assert(iter_rot(msl, 14, 3) == 3);
    assert(iter_rot(msl, 7, 4) == 7);
    assert(iter_rot(msl, 14, 4) == 4);
    assert(iter_rot(msl, 7, 5) == 6);
    assert(iter_rot(msl, 14, 5) == 5);
    assert(iter_rot(msl, 7, 6) == 5);
    assert(iter_rot(msl, 14, 6) == 6);
    assert(iter_rot(msl, 7, 7) == 4);
    assert(iter_rot(msl, 14, 7) == 7);
    assert(ori_src(msl, 7, 0) == 0);
    assert(ori_acc(msl, 7, 0) == 0);
    assert(ori_src(msl, 7, 1) == 1);
    assert(ori_acc(msl, 7, 1) == 4);
    assert(ori_src(msl, 7, 2) == 2);
    assert(ori_acc(msl, 7, 2) == 14);
    assert(ori_src(msl, 7, 3) == 3);
    assert(ori_acc(msl, 7, 3) == 14);
    assert(ori_src(msl, 7, 4) == 7);
    assert(ori_acc(msl, 7, 4) == 3);
    assert(ori_src(msl, 7, 5) == 6);
    assert(ori_acc(msl, 7, 5) == 7);
    assert(ori_src(msl, 7, 6) == 5);
    assert(ori_acc(msl, 7, 6) == 17);
    assert(ori_src(msl, 7, 7) == 4);
    assert(ori_acc(msl, 7, 7) == 7);
    assert(ori_src(msl, 14, 0) == 0);
    assert(ori_acc(msl, 14, 0) == 0);
    assert(ori_src(msl, 14, 1) == 1);
    assert(ori_acc(msl, 14, 1) == 6);
    assert(ori_src(msl, 14, 2) == 2);
    assert(ori_acc(msl, 14, 2) == 18);
    assert(ori_src(msl, 14, 3) == 3);
    assert(ori_acc(msl, 14, 3) == 16);
    assert(ori_src(msl, 14, 4) == 4);
    assert(ori_acc(msl, 14, 4) == 14);
    assert(ori_src(msl, 14, 5) == 5);
    assert(ori_acc(msl, 14, 5) == 24);
    assert(ori_src(msl, 14, 6) == 6);
    assert(ori_acc(msl, 14, 6) == 12);
    assert(ori_src(msl, 14, 7) == 7);
    assert(ori_acc(msl, 14, 7) == 6);
    assert forall|k: int| 0 <= k < 8 implies #[trigger] pos_net(twist_seq_for(3, 4))[k] == id_perm()[k] by {
        lemma_pos_run_pointwise(msl, id_perm(), 14, k);
        if k == 0 {
            assert(id_perm()[0] == 0u8);
            assert(pos_net(twist_seq_for(3, 4))[0] == 0u8);
        } else if k == 1 {
            assert(id_perm()[1] == 1u8);
            assert(pos_net(twist_seq_for(3, 4))[1] == 1u8);
        } else if k == 2 {
            assert(id_perm()[2] == 2u8);
            assert(pos_net(twist_seq_for(3, 4))[2] == 2u8);
        } else if k == 3 {
            assert(id_perm()[3] == 3u8);
            assert(pos_net(twist_seq_for(3, 4))[3] == 3u8);
        } else if k == 4 {
            assert(id_perm()[4] == 4u8);
            assert(pos_net(twist_seq_for(3, 4))[4] == 4u8);
        } else if k == 5 {
            assert(id_perm()[5] == 5u8);
            assert(pos_net(twist_seq_for(3, 4))[5] == 5u8);
        } else if k == 6 {
            assert(id_perm()[6] == 6u8);
            assert(pos_net(twist_seq_for(3, 4))[6] == 6u8);
        } else if k == 7 {
            assert(id_perm()[7] == 7u8);
            assert(pos_net(twist_seq_for(3, 4))[7] == 7u8);
        }
    }
    lemma_pos_run_pointwise(msl, id_perm(), 14, 0);
    assert(pos_net(twist_seq_for(3, 4)) =~= id_perm());
    assert forall|t: int| 0 <= t < 8 implies ori_src(twist_seq_for(3, 4), 14, t) == t && #[trigger] ori_acc(twist_seq_for(3, 4), 14, t) % 3 == twist_delta(3, 4, t) by {
        if t == 0 {
            assert(ori_acc(msl, 14, 0) % 3 == 0);
        } else if t == 1 {
            assert(ori_acc(msl, 14, 1) % 3 == 0);
        } else if t == 2 {
            assert(ori_acc(msl, 14, 2) % 3 == 0);
        } else if t == 3 {
            assert(ori_acc(msl, 14, 3) % 3 == 1);
        } else if t == 4 {
            assert(ori_acc(msl, 14, 4) % 3 == 2);
        } else if t == 5 {
            assert(ori_acc(msl, 14, 5) % 3 == 0);
        } else if t == 6 {
            assert(ori_acc(msl, 14, 6) % 3 == 0);
        } else if t == 7 {
            assert(ori_acc(msl, 14, 7) % 3 == 0);
        }
    }
}

#[verifier::rlimit(100)]
#[verifier::spinoff_prover]
proof fn twist_pair_3_5()
    ensures
        twist_pair_ok(3, 5),
{
    reveal_with_fuel(iter_rot, 16);
    reveal_with_fuel(ori_src, 16);
    reveal_with_fuel(ori_acc, 16);
    crate::positions::lemma_move_rot_table();
    crate::orientations::lemma_q_back_table();
    reveal(twist_seq_for);
    let msl: Seq<Move> = seq![Move::F1, Move::R1, Move::U3, Move::R1, Move::U3, Move::R1, Move::U3, Move::R3, Move::U1, Move::R3, Move::U1, Move::R3, Move::U1, Move::F3];
    assert(twist_seq_for(3, 5) =~= msl);
    assert(iter_rot(msl, 3, 0) == 0);
    assert(iter_rot(msl, 3, 1) == 7);
    assert(iter_rot(msl, 3, 2) == 3);
    assert(iter_rot(msl, 3, 3) == 6);
    assert(iter_rot(msl, 3, 4) == 1);
    assert(iter_rot(msl, 3, 5) == 5);
    assert(iter_rot(msl, 3, 6) == 4);
    assert(iter_rot(msl, 3, 7) == 2);
    assert(ori_src(msl, 3, 0) == 0);
    assert(ori_acc(msl, 3, 0) == 0);
    assert(ori_src(msl, 3, 1) == 4);
    assert(ori_acc(msl, 3, 1) == 1);
    assert(ori_src(msl, 3, 2) == 7);
    assert(ori_acc(msl, 3, 2) == 5);
    assert(ori_src(msl, 3, 3) == 2);
    assert(ori_acc(msl, 3, 3) == 5);
    assert(ori_src(msl, 3, 4) == 6);
    assert(ori_acc(msl, 3, 4) == 2);
    assert(ori_src(msl, 3, 5) == 5);
    assert(ori_acc(msl, 3, 5) == 2);
    assert(ori_src(msl, 3, 6) == 3);
    assert(ori_acc(msl, 3, 6) == 5);
    assert(ori_src(msl, 3, 7) == 1);
    assert(ori_acc(msl, 3, 7) == 4);
    assert(iter_rot(msl, 10, 0) == 0);
    assert(iter_rot(msl, 10, 1) == 7);
    assert(iter_rot(msl, 10, 2) == 6);
    assert(iter_rot(msl, 10, 3) == 5);
    assert(iter_rot(msl, 10, 4) == 1);
    assert(iter_rot(msl, 10, 5) == 2);
    assert(iter_rot(msl, 10, 6) == 4);
    assert(iter_rot(msl, 10, 7) == 3);
    assert(ori_src(msl, 10, 0) == 0);
    assert(ori_acc(msl, 10, 0) == 0);
    assert(ori_src(msl, 10, 1) == 4);
    assert(ori_acc(msl, 10, 1) == 7);
    assert(ori_src(msl, 10, 2) == 5);
    assert(ori_acc(msl, 10, 2) == 7);
    assert(ori_src(msl, 10, 3) == 7);
    assert(ori_acc(msl, 10, 3) == 16);
    assert(ori_src(msl, 10, 4) == 6);
    assert(ori_acc(msl, 10, 4) == 2);
    assert(ori_src(msl, 10, 5) == 3);
    assert(ori_acc(msl, 10, 5) == 14);
    assert(ori_src(msl, 10, 6) == 2);
    assert(ori_acc(msl, 10, 6) == 16);
    assert(ori_src(msl, 10, 7) == 1);
    assert(ori_acc(msl, 10, 7) == 4);
    assert(iter_rot(msl, 7, 0) == 0);
    assert(iter_rot(msl, 14, 0) == 0);
    assert(iter_rot(msl, 7, 1) == 1);
    assert(iter_rot(msl, 14, 1) == 1);
    assert(iter_rot(msl, 7, 2) == 2);
    assert(iter_rot(msl, 14, 2) == 2);
    assert(iter_rot(msl, 7, 3) == 3);
    assert(iter_rot(msl, 14, 3) == 3);
    assert(iter_rot(msl, 7, 4) == 5);
    assert(iter_rot(msl, 14, 4) == 4);
    assert(iter_rot(msl, 7, 5) == 7);
    assert(iter_rot(msl, 14, 5) == 5);
    assert(iter_rot(msl, 7, 6) == 4);
    assert(iter_rot(msl, 14, 6) == 6);
    assert(iter_rot(msl, 7, 7) == 6);
    assert(iter_rot(msl, 14, 7) == 7);
    assert(ori_src(msl, 7, 0) == 0);
    assert(ori_acc(msl, 7, 0) == 0);
    assert(ori_src(msl, 7, 1) == 1);
    assert(ori_acc(msl, 7, 1) == 4);
    assert(ori_src(msl, 7, 2) == 2);
    assert(ori_acc(msl, 7, 2) == 14);
    assert(ori_src(msl, 7, 3) == 3);
    assert(ori_acc(msl, 7, 3) == 14);
    assert(ori_src(msl, 7, 4) == 6);
    assert(ori_acc(msl, 7, 4) == 2);
    assert(ori_src(msl, 7, 5) == 4);
    assert(ori_acc(msl, 7, 5) == 5);
    assert(ori_src(msl, 7, 6) == 7);
    assert(ori_acc(msl, 7, 6) == 15);
    assert(ori_src(msl, 7, 7) == 5);
    assert(ori_acc(msl, 7, 7) == 6);
    assert(ori_src(msl, 14, 0) == 0);
    assert(ori_acc(msl, 14, 0) == 0);
    assert(ori_src(msl, 14, 1) == 1);
    assert(ori_acc(msl, 14, 1) == 6);
    assert(ori_src(msl, 14, 2) == 2);
    assert(ori_acc(msl, 14, 2) == 18);
    assert(ori_src(msl, 14, 3) == 3);
    assert(ori_acc(msl, 14, 3) == 16);
    assert(ori_src(msl, 14, 4) == 4);
    assert(ori_acc(msl, 14, 4) == 12);
    assert(ori_src(msl, 14, 5) == 5);
    assert(ori_acc(msl, 14, 5) == 14);
    assert(ori_src(msl, 14, 6) == 6);
    assert(ori_acc(msl, 14, 6) == 6);
    assert(ori_src(msl, 14, 7) == 7);
    assert(ori_acc(msl, 14, 7) == 24);
    assert forall|k: int| 0 <= k < 8 implies #[trigger] pos_net(twist_seq_for(3, 5))[k] == id_perm()[k] by {
        lemma_pos_run_pointwise(msl, id_perm(), 14, k);
        if k == 0 {
            assert(id_perm()[0] == 0u8);
            assert(pos_net(twist_seq_for(3, 5))[0] == 0u8);
        } else if k == 1 {
            assert(id_perm()[1] == 1u8);
            assert(pos_net(twist_seq_for(3, 5))[1] == 1u8);
        } else if k == 2 {
            assert(id_perm()[2] == 2u8);
            assert(pos_net(twist_seq_for(3, 5))[2] == 2u8);
        } else if k == 3 {
            assert(id_perm()[3] == 3u8);
            assert(pos_net(twist_seq_for(3, 5))[3] == 3u8);
        } else if k == 4 {
            assert(id_perm()[4] == 4u8);
            assert(pos_net(twist_seq_for(3, 5))[4] == 4u8);
        } else if k == 5 {
            assert(id_perm()[5] == 5u8);
            assert(pos_net(twist_seq_for(3, 5))[5] == 5u8);
        } else if k == 6 {
            assert(id_perm()[6] == 6u8);
            assert(pos_net(twist_seq_for(3, 5))[6] == 6u8);
        } else if k == 7 {
            assert(id_perm()[7] == 7u8);
            assert(pos_net(twist_seq_for(3, 5))[7] == 7u8);
        }
    }
    lemma_pos_run_pointwise(msl, id_perm(), 14, 0);
    assert(pos_net(twist_seq_for(3, 5)) =~= id_perm());
    assert forall|t: int| 0 <= t < 8 implies ori_src(twist_seq_for(3, 5), 14, t) == t && #[trigger] ori_acc(twist_seq_for(3, 5), 14, t) % 3 == twist_delta(3, 5, t) by {
        if t == 0 {
            assert(ori_acc(msl, 14, 0) % 3 == 0);
        } else if t == 1 {
            assert(ori_acc(msl, 14, 1) % 3 == 0);
        } else if t == 2 {
            assert(ori_acc(msl, 14, 2) % 3 == 0);
        } else if t == 3 {
            assert(ori_acc(msl, 14, 3) % 3 == 1);
        } else if t == 4 {
            assert(ori_acc(msl, 14, 4) % 3 == 0);
        } else if t == 5 {
            assert(ori_acc(msl, 14, 5) % 3 == 2);
        } else if t == 6 {
            assert(ori_acc(msl, 14, 6) % 3 == 0);
        } else if t == 7 {
            assert(ori_acc(msl, 14, 7) % 3 == 0);
        }
    }
}

#[verifier::rlimit(100)]
#[verifier::spinoff_prover]
proof fn twist_pair_3_6()
    ensures
        twist_pair_ok(3, 6),
{
    reveal_with_fuel(iter_rot, 16);
    reveal_with_fuel(ori_src, 16);
    reveal_with_fuel(ori_acc, 16);
    crate::positions::lemma_move_rot_table();
    crate::orientations::lemma_q_back_table();
    reveal(twist_seq_for);
    let msl: Seq<Move> = seq![Move::L1, Move::U1, Move::B3, Move::U1, Move::B3, Move::U1, Move::B3, Move::U3, Move::B1, Move::U3, Move::B1, Move::U3, Move::B1, Move::L3];
    assert(twist_seq_for(3, 6) =~= msl);
    assert(iter_rot(msl, 3, 0) == 4);
    assert(iter_rot(msl, 3, 1) == 3);
    assert(iter_rot(msl, 3, 2) == 1);
    assert(iter_rot(msl, 3, 3) == 0);
    assert(iter_rot(msl, 3, 4) == 7);
    assert(iter_rot(msl, 3, 5) == 5);
    assert(iter_rot(msl, 3, 6) == 6);
    assert(iter_rot(msl, 3, 7) == 2);
    assert(ori_src(msl, 3, 0) == 3);
    assert(ori_acc(msl, 3, 0) == 5);
    assert(ori_src(msl, 3, 1) == 2);
    assert(ori_acc(msl, 3, 1) == 5);
    assert(ori_src(msl, 3, 2) == 7);
    assert(ori_acc(msl, 3, 2) == 7);
    assert(ori_src(msl, 3, 3) == 1);
    assert(ori_acc(msl, 3, 3) == 4);
    assert(ori_src(msl, 3, 4) == 0);
    assert(ori_acc(msl, 3, 4) == 0);
    assert(ori_src(msl, 3, 5) == 5);
    assert(ori_acc(msl, 3, 5) == 0);
    assert(ori_src(msl, 3, 6) == 6);
    assert(ori_acc(msl, 3, 6) == 2);
    assert(ori_src(msl, 3, 7) == 4);
    assert(ori_acc(msl, 3, 7) == 1);
    assert(iter_rot(msl, 10, 0) == 4);
    assert(iter_rot(msl, 10, 1) == 0);
    assert(iter_rot(msl, 10, 2) == 3);
    assert(iter_rot(msl, 10, 3) == 6);
    assert(iter_rot(msl, 10, 4) == 7);
    assert(iter_rot(msl, 10, 5) == 5);
    assert(iter_rot(msl, 10, 6) == 1);
    assert(iter_rot(msl, 10, 7) == 2);
    assert(ori_src(msl, 10, 0) == 1);
    assert(ori_acc(msl, 10, 0) == 15);
    assert(ori_src(msl, 10, 1) == 6);
    assert(ori_acc(msl, 10, 1) == 17);
    assert(ori_src(msl, 10, 2) == 7);
    assert(ori_acc(msl, 10, 2) == 19);
    assert(ori_src(msl, 10, 3) == 2);
    assert(ori_acc(msl, 10, 3) == 21);
    assert(ori_src(msl, 10, 4) == 0);
    assert(ori_acc(msl, 10, 4) == 0);
    assert(ori_src(msl, 10, 5) == 5);
    assert(ori_acc(msl, 10, 5) == 0);
    assert(ori_src(msl, 10, 6) == 3);
    assert(ori_acc(msl, 10, 6) == 23);
    assert(ori_src(msl, 10, 7) == 4);
    assert(ori_acc(msl, 10, 7) == 19);
    assert(iter_rot(msl, 7, 0) == 4);
    assert(iter_rot(msl, 14, 0) == 0);
    assert(iter_rot(msl, 7, 1) == 1);
    assert(iter_rot(msl, 14, 1) == 1);
    assert(iter_rot(msl, 7, 2) == 0);
    assert(iter_rot(msl, 14, 2) == 2);
    assert(iter_rot(msl, 7, 3) == 3);
    assert(iter_rot(msl, 14, 3) == 3);
    assert(iter_rot(msl, 7, 4) == 6);
    assert(iter_rot(msl, 14, 4) == 4);
    assert(iter_rot(msl, 7, 5) == 5);
    assert(iter_rot(msl, 14, 5) == 5);
    assert(iter_rot(msl, 7, 6) == 2);
    assert(iter_rot(msl, 14, 6) == 6);
    assert(iter_rot(msl, 7, 7) == 7);
    assert(iter_rot(msl, 14, 7) == 7);
    assert(ori_src(msl, 7, 0) == 2);
    assert(ori_acc(msl, 7, 0) == 14);
    assert(ori_src(msl, 7, 1) == 1);
    assert(ori_acc(msl, 7, 1) == 14);
    assert(ori_src(msl, 7, 2) == 6);
    assert(ori_acc(msl, 7, 2) == 10);
    assert(ori_src(msl, 7, 3) == 3);
    assert(ori_acc(msl, 7, 3) == 14);
    assert(ori_src(msl, 7, 4) == 0);
    assert(ori_acc(msl, 7, 4) == 0);
    assert(ori_src(msl, 7, 5) == 5);
    assert(ori_acc(msl, 7, 5) == 0);
    assert(ori_src(msl, 7, 6) == 4);
    assert(ori_acc(msl, 7, 6) == 10);
    assert(ori_src(msl, 7, 7) == 7);
    assert(ori_acc(msl, 7, 7) == 10);
    assert(ori_src(msl, 14, 0) == 0);
    assert(ori_acc(msl, 14, 0) == 0);
    assert(ori_src(msl, 14, 1) == 1);
    assert(ori_acc(msl, 14, 1) == 24);
    assert(ori_src(msl, 14, 2) == 2);
    assert(ori_acc(msl, 14, 2) == 24);
    assert(ori_src(msl, 14, 3) == 3);
    assert(ori_acc(msl, 14, 3) == 28);
    assert(ori_src(msl, 14, 4) == 4);
    assert(ori_acc(msl, 14, 4) == 24);
    assert(ori_src(msl, 14, 5) == 5);
    assert(ori_acc(msl, 14, 5) == 0);
    assert(ori_src(msl, 14, 6) == 6);
    assert(ori_acc(msl, 14, 6) == 20);
    assert(ori_src(msl, 14, 7) == 7);
    assert(ori_acc(msl, 14, 7) == 24);
    assert forall|k: int| 0 <= k < 8 implies #[trigger] pos_net(twist_seq_for(3, 6))[k] == id_perm()[k] by {
        lemma_pos_run_pointwise(msl, id_perm(), 14, k);
        if k == 0 {
            assert(id_perm()[0] == 0u8);
            assert(pos_net(twist_seq_for(3, 6))[0] == 0u8);
        } else if k == 1 {
            assert(id_perm()[1] == 1u8);
            assert(pos_net(twist_seq_for(3, 6))[1] == 1u8);
        } else if k == 2 {
            assert(id_perm()[2] == 2u8);
            assert(pos_net(twist_seq_for(3, 6))[2] == 2u8);
        } else if k == 3 {
            assert(id_perm()[3] == 3u8);
            assert(pos_net(twist_seq_for(3, 6))[3] == 3u8);
        } else if k == 4 {
            assert(id_perm()[4] == 4u8);
            assert(pos_net(twist_seq_for(3, 6))[4] == 4u8);
        } else if k == 5 {
            assert(id_perm()[5] == 5u8);
            assert(pos_net(twist_seq_for(3, 6))[5] == 5u8);
        } else if k == 6 {
            assert(id_perm()[6] == 6u8);
            assert(pos_net(twist_seq_for(3, 6))[6] == 6u8);
        } else if k == 7 {
            assert(id_perm()[7] == 7u8);
            assert(pos_net(twist_seq_for(3, 6))[7] == 7u8);
        }
    }
    lemma_pos_run_pointwise(msl, id_perm(), 14, 0);
    assert(pos_net(twist_seq_for(3, 6)) =~= id_perm());
    assert forall|t: int| 0 <= t < 8 implies ori_src(twist_seq_for(3, 6), 14, t) == t && #[trigger] ori_acc(twist_seq_for(3, 6), 14, t) % 3 == twist_delta(3, 6, t) by {
        if t == 0 {
            assert(ori_acc(msl, 14, 0) % 3 == 0);
        } else if t == 1 {
            assert(ori_acc(msl, 14, 1) % 3 == 0);
        } else if t == 2 {
            assert(ori_acc(msl, 14, 2) % 3 == 0);
        } else if t == 3 {
            assert(ori_acc(msl, 14, 3) % 3 == 1);
        } else if t == 4 {
            assert(ori_acc(msl, 14, 4) % 3 == 0);
        } else if t == 5 {
            assert(ori_acc(msl, 14, 5) % 3 == 0);
        } else if t == 6 {
            assert(ori_acc(msl, 14, 6) % 3 == 2);
        } else if t == 7 {
            assert(ori_acc(msl, 14, 7) % 3 == 0);
        }
    }
}

#[verifier::rlimit(100)]
#[verifier::spinoff_prover]
proof fn twist_pair_3_7()
    ensures
        twist_pair_ok(3, 7),
{
    reveal_with_fuel(iter_rot, 16);
    reveal_with_fuel(ori_src, 16);
    reveal_with_fuel(ori_acc, 16);
    crate::positions::lemma_move_rot_table();
    crate::orientations::lemma_q_back_table();
    reveal(twist_seq_for);
    let msl: Seq<Move> = seq![Move::R1, Move::U3, Move::R1, Move::U3, Move::R1, Move::U3, Move::R3, Move::U1, Move::R3, Move::U1, Move::R3, Move::U1];
    assert(twist_seq_for(3, 7) =~= msl);
    assert(iter_rot(msl, 3, 0) == 0);
    assert(iter_rot(msl, 3, 1) == 5);
    assert(iter_rot(msl, 3, 2) == 7);
    assert(iter_rot(msl, 3, 3) == 6);
    assert(iter_rot(msl, 3, 4) == 4);
    assert(iter_rot(msl, 3, 5) == 3);
    assert(iter_rot(msl, 3, 6) == 2);
    assert(iter_rot(msl, 3, 7) == 1);
    assert(ori_src(msl, 3, 0) == 0);
    assert(ori_acc(msl, 3, 0) == 0);
    assert(ori_src(msl, 3, 1) == 7);
    assert(ori_acc(msl, 3, 1) == 0);
    assert(ori_src(msl, 3, 2) == 6);
    assert(ori_acc(msl, 3, 2) == 4);
    assert(ori_src(msl, 3, 3) == 5);
    assert(ori_acc(msl, 3, 3) == 0);
    assert(ori_src(msl, 3, 4) == 4);
    assert(ori_acc(msl, 3, 4) == 0);
    assert(ori_src(msl, 3, 5) == 1);
    assert(ori_acc(msl, 3, 5) == 4);
    assert(ori_src(msl, 3, 6) == 3);
    assert(ori_acc(msl, 3, 6) == 5);
    assert(ori_src(msl, 3, 7) == 2);
    assert(ori_acc(msl, 3, 7) == 5);
    assert(iter_rot(msl, 9, 0) == 0);
    assert(iter_rot(msl, 9, 1) == 7);
    assert(iter_rot(msl, 9, 2) == 6);
    assert(iter_rot(msl, 9, 3) == 5);
    assert(iter_rot(msl, 9, 4) == 4);
    assert(iter_rot(msl, 9, 5) == 1);
    assert(iter_rot(msl, 9, 6) == 3);
    assert(iter_rot(msl, 9, 7) == 2);
    assert(ori_src(msl, 9, 0) == 0);
    assert(ori_acc(msl, 9, 0) == 0);
    assert(ori_src(msl, 9, 1) == 5);
    assert(ori_acc(msl, 9, 1) == 6);
    assert(ori_src(msl, 9, 2) == 7);
    assert(ori_acc(msl, 9, 2) == 5);
    assert(ori_src(msl, 9, 3) == 6);
    assert(ori_acc(msl, 9, 3) == 15);
    assert(ori_src(msl, 9, 4) == 4);
    assert(ori_acc(msl, 9, 4) == 0);
    assert(ori_src(msl, 9, 5) == 3);
    assert(ori_acc(msl, 9, 5) == 14);
    assert(ori_src(msl, 9, 6) == 2);
    assert(ori_acc(msl, 9, 6) == 16);
    assert(ori_src(msl, 9, 7) == 1);
    assert(ori_acc(msl, 9, 7) == 4);
    assert(iter_rot(msl, 6, 0) == 0);
    assert(iter_rot(msl, 12, 0) == 0);
    assert(iter_rot(msl, 6, 1) == 1);
    assert(iter_rot(msl, 12, 1) == 1);
    assert(iter_rot(msl, 6, 2) == 2);
    assert(iter_rot(msl, 12, 2) == 2);
    assert(iter_rot(msl, 6, 3) == 3);
    assert(iter_rot(msl, 12, 3) == 3);
    assert(iter_rot(msl, 6, 4) == 4);
    assert(iter_rot(msl, 12, 4) == 4);
    assert(iter_rot(msl, 6, 5) == 5);
    assert(iter_rot(msl, 12, 5) == 5);
    assert(iter_rot(msl, 6, 6) == 6);
    assert(iter_rot(msl, 12, 6) == 6);
    assert(iter_rot(msl, 6, 7) == 7);
    assert(iter_rot(msl, 12, 7) == 7);
    assert(ori_src(msl, 6, 0) == 0);
    assert(ori_acc(msl, 6, 0) == 0);
    assert(ori_src(msl, 6, 1) == 1);
    assert(ori_acc(msl, 6, 1) == 4);
    assert(ori_src(msl, 6, 2) == 2);
    assert(ori_acc(msl, 6, 2) == 14);
    assert(ori_src(msl, 6, 3) == 3);
    assert(ori_acc(msl, 6, 3) == 14);
    assert(ori_src(msl, 6, 4) == 4);
    assert(ori_acc(msl, 6, 4) == 0);
    assert(ori_src(msl, 6, 5) == 5);
    assert(ori_acc(msl, 6, 5) == 4);
    assert(ori_src(msl, 6, 6) == 6);
    assert(ori_acc(msl, 6, 6) == 14);
    assert(ori_src(msl, 6, 7) == 7);
    assert(ori_acc(msl, 6, 7) == 4);
    assert(ori_src(msl, 12, 0) == 0);
    assert(ori_acc(msl, 12, 0) == 0);
    assert(ori_src(msl, 12, 1) == 1);
    assert(ori_acc(msl, 12, 1) == 6);
    assert(ori_src(msl, 12, 2) == 2);
    assert(ori_acc(msl, 12, 2) == 18);
    assert(ori_src(msl, 12, 3) == 3);
    assert(ori_acc(msl, 12, 3) == 16);
    assert(ori_src(msl, 12, 4) == 4);
    assert(ori_acc(msl, 12, 4) == 0);
    assert(ori_src(msl, 12, 5) == 5);
    assert(ori_acc(msl, 12, 5) == 6);
    assert(ori_src(msl, 12, 6) == 6);
    assert(ori_acc(msl, 12, 6) == 18);
    assert(ori_src(msl, 12, 7) == 7);
    assert(ori_acc(msl, 12, 7) == 8);
    assert forall|k: int| 0 <= k < 8 implies #[trigger] pos_net(twist_seq_for(3, 7))[k] == id_perm()[k] by {
        lemma_pos_run_pointwise(msl, id_perm(), 12, k);
        if k == 0 {
            assert(id_perm()[0] == 0u8);
            assert(pos_net(twist_seq_for(3, 7))[0] == 0u8);
        } else if k == 1 {
            assert(id_perm()[1] == 1u8);
            assert(pos_net(twist_seq_for(3, 7))[1] == 1u8);
        } else if k == 2 {
            assert(id_perm()[2] == 2u8);
            assert(pos_net(twist_seq_for(3, 7))[2] == 2u8);
        } else if k == 3 {
            assert(id_perm()[3] == 3u8);
            assert(pos_net(twist_seq_for(3, 7))[3] == 3u8);
        } else if k == 4 {
            assert(id_perm()[4] == 4u8);
            assert(pos_net(twist_seq_for(3, 7))[4] == 4u8);
        } else if k == 5 {
            assert(id_perm()[5] == 5u8);
            assert(pos_net(twist_seq_for(3, 7))[5] == 5u8);
        } else if k == 6 {
            assert(id_perm()[6] == 6u8);
            assert(pos_net(twist_seq_for(3, 7))[6] == 6u8);
        } else if k == 7 {
            assert(id_perm()[7] == 7u8);
            assert(pos_net(twist_seq_for(3, 7))[7] == 7u8);
        }
    }
    lemma_pos_run_pointwise(msl, id_perm(), 12, 0);
    assert(pos_net(twist_seq_for(3, 7)) =~= id_perm());
    assert forall|t: int| 0 <= t < 8 implies ori_src(twist_seq_for(3, 7), 12, t) == t && #[trigger] ori_acc(twist_seq_for(3, 7), 12, t) % 3 == twist_delta(3, 7, t) by {
        if t == 0 {
            assert(ori_acc(msl, 12, 0) % 3 == 0);
        } else if t == 1 {
            assert(ori_acc(msl, 12, 1) % 3 == 0);
        } else if t == 2 {
            assert(ori_acc(msl, 12, 2) % 3 == 0);
        } else if t == 3 {
            assert(ori_acc(msl, 12, 3) % 3 == 1);
        } else if t == 4 {
            assert(ori_acc(msl, 12, 4) % 3 == 0);
        } else if t == 5 {
            assert(ori_acc(msl, 12, 5) % 3 == 0);
        } else if t == 6 {
            assert(ori_acc(msl, 12, 6) % 3 == 0);
        } else if t == 7 {
            assert(ori_acc(msl, 12, 7) % 3 == 2);
        }
    }
}

#[verifier::rlimit(100)]
#[verifier::spinoff_prover]
proof fn twist_pair_4_0()
    ensures
        twist_pair_ok(4, 0),
{
    reveal_with_fuel(iter_rot, 16);
    reveal_with_fuel(ori_src, 16);
    reveal_with_fuel(ori_acc, 16);
    crate::positions::lemma_move_rot_table();
    crate::orientations::lemma_q_back_table();
    reveal(twist_seq_for);
    let msl: Seq<Move> = seq![Move::D1, Move::L3, Move::D1, Move::L3, Move::D1, Move::L3, Move::D3, Move::L1, Move::D3, Move::L1, Move::D3, Move::L1];
    assert(twist_seq_for(4, 0) =~= msl);
    assert(iter_rot(msl, 3, 0) == 5);
    assert(iter_rot(msl, 3, 1) == 4);
    assert(iter_rot(msl, 3, 2) == 6);
    assert(iter_rot(msl, 3, 3) == 3);
    assert(iter_rot(msl, 3, 4) == 2);
    assert(iter_rot(msl, 3, 5) == 1);
    assert(iter_rot(msl, 3, 6) == 0);
    assert(iter_rot(msl, 3, 7) == 7);
    assert(ori_src(msl, 3, 0) == 6);
    assert(ori_acc(msl, 3, 0) == 2);
    assert(ori_src(msl, 3, 1) == 5);
    assert(ori_acc(msl, 3, 1) == 2);
    assert(ori_src(msl, 3, 2) == 4);
    assert(ori_acc(msl, 3, 2) == 2);
    assert(ori_src(msl, 3, 3) == 3);
    assert(ori_acc(msl, 3, 3) == 0);
    assert(ori_src(msl, 3, 4) == 1);
    assert(ori_acc(msl, 3, 4) == 3);
    assert(ori_src(msl, 3, 5) == 0);
    assert(ori_acc(msl, 3, 5) == 3);
    assert(ori_src(msl, 3, 6) == 2);
    assert(ori_acc(msl, 3, 6) == 0);
    assert(ori_src(msl, 3, 7) == 7);
    assert(ori_acc(msl, 3, 7) == 0);
    assert(iter_rot(msl, 9, 0) == 6);
    assert(iter_rot(msl, 9, 1) == 5);
    assert(iter_rot(msl, 9, 2) == 4);
    assert(iter_rot(msl, 9, 3) == 3);
    assert(iter_rot(msl, 9, 4) == 1);
    assert(iter_rot(msl, 9, 5) == 0);
    assert(iter_rot(msl, 9, 6) == 2);
    assert(iter_rot(msl, 9, 7) == 7);
    assert(ori_src(msl, 9, 0) == 5);
    assert(ori_acc(msl, 9, 0) == 13);
    assert(ori_src(msl, 9, 1) == 4);
    assert(ori_acc(msl, 9, 1) == 11);
    assert(ori_src(msl, 9, 2) == 6);
    assert(ori_acc(msl, 9, 2) == 2);
    assert(ori_src(msl, 9, 3) == 3);
    assert(ori_acc(msl, 9, 3) == 0);
    assert(ori_src(msl, 9, 4) == 2);
    assert(ori_acc(msl, 9, 4) == 6);
    assert(ori_src(msl, 9, 5) == 1);
    assert(ori_acc(msl, 9, 5) == 14);
    assert(ori_src(msl, 9, 6) == 0);
    assert(ori_acc(msl, 9, 6) == 8);
    assert(ori_src(msl, 9, 7) == 7);
    assert(ori_acc(msl, 9, 7) == 0);
    assert(iter_rot(msl, 6, 0) == 0);
    assert(iter_rot(msl, 12, 0) == 0);
    assert(iter_rot(msl, 6, 1) == 1);
    assert(iter_rot(msl, 12, 1) == 1);
    assert(iter_rot(msl, 6, 2) == 2);
    assert(iter_rot(msl, 12, 2) == 2);
    assert(iter_rot(msl, 6, 3) == 3);
    assert(iter_rot(msl, 12, 3) == 3);
    assert(iter_rot(msl, 6, 4) == 4);
    assert(iter_rot(msl, 12, 4) == 4);
    assert(iter_rot(msl, 6, 5) == 5);
    assert(iter_rot(msl, 12, 5) == 5);
    assert(iter_rot(msl, 6, 6) == 6);
    assert(iter_rot(msl, 12, 6) == 6);
    assert(iter_rot(msl, 6, 7) == 7);
    assert(iter_rot(msl, 12, 7) == 7);
    assert(ori_src(msl, 6, 0) == 0);
    assert(ori_acc(msl, 6, 0) == 4);
    assert(ori_src(msl, 6, 1) == 1);
    assert(ori_acc(msl, 6, 1) == 4);
    assert(ori_src(msl, 6, 2) == 2);
    assert(ori_acc(msl, 6, 2) == 2);
    assert(ori_src(msl, 6, 3) == 3);
    assert(ori_acc(msl, 6, 3) == 0);
    assert(ori_src(msl, 6, 4) == 4);
    assert(ori_acc(msl, 6, 4) == 2);
    assert(ori_src(msl, 6, 5) == 5);
    assert(ori_acc(msl, 6, 5) == 4);
    assert(ori_src(msl, 6, 6) == 6);
    assert(ori_acc(msl, 6, 6) == 2);
    assert(ori_src(msl, 6, 7) == 7);
    assert(ori_acc(msl, 6, 7) == 0);
    assert(ori_src(msl, 12, 0) == 0);
    assert(ori_acc(msl, 12, 0) == 8);
    assert(ori_src(msl, 12, 1) == 1);
    assert(ori_acc(msl, 12, 1) == 18);
    assert(ori_src(msl, 12, 2) == 2);
    assert(ori_acc(msl, 12, 2) == 6);
    assert(ori_src(msl, 12, 3) == 3);
    assert(ori_acc(msl, 12, 3) == 0);
    assert(ori_src(msl, 12, 4) == 4);
    assert(ori_acc(msl, 12, 4) == 16);
    assert(ori_src(msl, 12, 5) == 5);
    assert(ori_acc(msl, 12, 5) == 18);
    assert(ori_src(msl, 12, 6) == 6);
    assert(ori_acc(msl, 12, 6) == 6);
    assert(ori_src(msl, 12, 7) == 7);
    assert(ori_acc(msl, 12, 7) == 0);
    assert forall|k: int| 0 <= k < 8 implies #[trigger] pos_net(twist_seq_for(4, 0))[k] == id_perm()[k] by {
        lemma_pos_run_pointwise(msl, id_perm(), 12, k);
        if k == 0 {
            assert(id_perm()[0] == 0u8);
            assert(pos_net(twist_seq_for(4, 0))[0] == 0u8);
        } else if k == 1 {
            assert(id_perm()[1] == 1u8);
            assert(pos_net(twist_seq_for(4, 0))[1] == 1u8);
        } else if k == 2 {
            assert(id_perm()[2] == 2u8);
            assert(pos_net(twist_seq_for(4, 0))[2] == 2u8);
        } else if k == 3 {
            assert(id_perm()[3] == 3u8);
            assert(pos_net(twist_seq_for(4, 0))[3] == 3u8);
        } else if k == 4 {
            assert(id_perm()[4] == 4u8);
            assert(pos_net(twist_seq_for(4, 0))[4] == 4u8);
        } else if k == 5 {
            assert(id_perm()[5] == 5u8);
            assert(pos_net(twist_seq_for(4, 0))[5] == 5u8);
        } else if k == 6 {
            assert(id_perm()[6] == 6u8);
            assert(pos_net(twist_seq_for(4, 0))[6] == 6u8);
        } else if k == 7 {
            assert(id_perm()[7] == 7u8);
            assert(pos_net(twist_seq_for(4, 0))[7] == 7u8);
        }
    }
    lemma_pos_run_pointwise(msl, id_perm(), 12, 0);
    assert(pos_net(twist_seq_for(4, 0)) =~= id_perm());
    assert forall|t: int| 0 <= t < 8 implies ori_src(twist_seq_for(4, 0), 12, t) == t && #[trigger] ori_acc(twist_seq_for(4, 0), 12, t) % 3 == twist_delta(4, 0, t) by {
        if t == 0 {
            assert(ori_acc(msl, 12, 0) % 3 == 2);
        } else if t == 1 {
            assert(ori_acc(msl, 12, 1) % 3 == 0);
        } else if t == 2 {
            assert(ori_acc(msl, 12, 2) % 3 == 0);
        } else if t == 3 {
            assert(ori_acc(msl, 12, 3) % 3 == 0);
        } else if t == 4 {
            assert(ori_acc(msl, 12, 4) % 3 == 1);
        } else if t == 5 {
            assert(ori_acc(msl, 12, 5) % 3 == 0);
        } else if t == 6 {
            assert(ori_acc(msl, 12, 6) % 3 == 0);
        } else if t == 7 {
            assert(ori_acc(msl, 12, 7) % 3 == 0);
        }
    }
}

#[verifier::rlimit(100)]
#[verifier::spinoff_prover]
proof fn twist_pair_4_1()
    ensures
        twist_pair_ok(4, 1),
{
    reveal_with_fuel(iter_rot, 16);
    reveal_with_fuel(ori_src, 16);
    reveal_with_fuel(ori_acc, 16);
    crate::positions::lemma_move_rot_table();
    crate::orientations::lemma_q_back_table();
    reveal(twist_seq_for);
    let msl: Seq<Move> = seq![Move::L3, Move::D3, Move::B1, Move::D3, Move::B1, Move::D3, Move::B1, Move::D1, Move::B3, Move::D1, Move::B3, Move::D1, Move::B3, Move::L1];
    assert(twist_seq_for(4, 1) =~= msl);
    assert(iter_rot(msl, 3, 0) == 3);
    assert(iter_rot(msl, 3, 1) == 2);
    assert(iter_rot(msl, 3, 2) == 6);
    assert(iter_rot(msl, 3, 3) == 1);
    assert(iter_rot(msl, 3, 4) == 4);
    assert(iter_rot(msl, 3, 5) == 0);
    assert(iter_rot(msl, 3, 6) == 5);
    assert(iter_rot(msl, 3, 7) == 7);
    assert(ori_src(msl, 3, 0) == 5);
    assert(ori_acc(msl, 3, 0) == 5);
    assert(ori_src(msl, 3, 1) == 3);
    assert(ori_acc(msl, 3, 1) == 2);
    assert(ori_src(msl, 3, 2) == 1);
    assert(ori_acc(msl, 3, 2) == 7);
    assert(ori_src(msl, 3, 3) == 0);
    assert(ori_acc(msl, 3, 3) == 1);
    assert(ori_src(msl, 3, 4) == 4);
    assert(ori_acc(msl, 3, 4) == 4);
    assert(ori_src(msl, 3, 5) == 6);
    assert(ori_acc(msl, 3, 5) == 5);
    assert(ori_src(msl, 3, 6) == 2);
    assert(ori_acc(msl, 3, 6) == 0);
    assert(ori_src(msl, 3, 7) == 7);
    assert(ori_acc(msl, 3, 7) == 0);
    assert(iter_rot(msl, 10, 0) == 1);
    assert(iter_rot(msl, 10, 1) == 4);
    assert(iter_rot(msl, 10, 2) == 6);
    assert(iter_rot(msl, 10, 3) == 2);
    assert(iter_rot(msl, 10, 4) == 3);
    assert(iter_rot(msl, 10, 5) == 0);
    assert(iter_rot(msl, 10, 6) == 5);
    assert(iter_rot(msl, 10, 7) == 7);
    assert(ori_src(msl, 10, 0) == 5);
    assert(ori_acc(msl, 10, 0) == 17);
    assert(ori_src(msl, 10, 1) == 0);
    assert(ori_acc(msl, 10, 1) == 15);
    assert(ori_src(msl, 10, 2) == 3);
    assert(ori_acc(msl, 10, 2) == 15);
    assert(ori_src(msl, 10, 3) == 4);
    assert(ori_acc(msl, 10, 3) == 19);
    assert(ori_src(msl, 10, 4) == 1);
    assert(ori_acc(msl, 10, 4) == 13);
    assert(ori_src(msl, 10, 5) == 6);
    assert(ori_acc(msl, 10, 5) == 23);
    assert(ori_src(msl, 10, 6) == 2);
    assert(ori_acc(msl, 10, 6) == 0);
    assert(ori_src(msl, 10, 7) == 7);
    assert(ori_acc(msl, 10, 7) == 0);
    assert(iter_rot(msl, 7, 0) == 2);
    assert(iter_rot(msl, 14, 0) == 0);
    assert(iter_rot(msl, 7, 1) == 1);
    assert(iter_rot(msl, 14, 1) == 1);
    assert(iter_rot(msl, 7, 2) == 6);
    assert(iter_rot(msl, 14, 2) == 2);
    assert(iter_rot(msl, 7, 3) == 3);
    assert(iter_rot(msl, 14, 3) == 3);
    assert(iter_rot(msl, 7, 4) == 0);
    assert(iter_rot(msl, 14, 4) == 4);
    assert(iter_rot(msl, 7, 5) == 5);
    assert(iter_rot(msl, 14, 5) == 5);
    assert(iter_rot(msl, 7, 6) == 4);
    assert(iter_rot(msl, 14, 6) == 6);
    assert(iter_rot(msl, 7, 7) == 7);
    assert(iter_rot(msl, 14, 7) == 7);
    assert(ori_src(msl, 7, 0) == 4);
    assert(ori_acc(msl, 7, 0) == 14);
    assert(ori_src(msl, 7, 1) == 1);
    assert(ori_acc(msl, 7, 1) == 10);
    assert(ori_src(msl, 7, 2) == 0);
    assert(ori_acc(msl, 7, 2) == 10);
    assert(ori_src(msl, 7, 3) == 3);
    assert(ori_acc(msl, 7, 3) == 10);
    assert(ori_src(msl, 7, 4) == 6);
    assert(ori_acc(msl, 7, 4) == 14);
    assert(ori_src(msl, 7, 5) == 5);
    assert(ori_acc(msl, 7, 5) == 14);
    assert(ori_src(msl, 7, 6) == 2);
    assert(ori_acc(msl, 7, 6) == 0);
    assert(ori_src(msl, 7, 7) == 7);
    assert(ori_acc(msl, 7, 7) == 0);
    assert(ori_src(msl, 14, 0) == 0);
    assert(ori_acc(msl, 14, 0) == 24);
    assert(ori_src(msl, 14, 1) == 1);
    assert(ori_acc(msl, 14, 1) == 20);
    assert(ori_src(msl, 14, 2) == 2);
    assert(ori_acc(msl, 14, 2) == 0);
    assert(ori_src(msl, 14, 3) == 3);
    assert(ori_acc(msl, 14, 3) == 24);
    assert(ori_src(msl, 14, 4) == 4);
    assert(ori_acc(msl, 14, 4) == 28);
    assert(ori_src(msl, 14, 5) == 5);
    assert(ori_acc(msl, 14, 5) == 24);
    assert(ori_src(msl, 14, 6) == 6);
    assert(ori_acc(msl, 14, 6) == 24);
    assert(ori_src(msl, 14, 7) == 7);
    assert(ori_acc(msl, 14, 7) == 0);
    assert forall|k: int| 0 <= k < 8 implies #[trigger] pos_net(twist_seq_for(4, 1))[k] == id_perm()[k] by {
        lemma_pos_run_pointwise(msl, id_perm(), 14, k);
        if k == 0 {
            assert(id_perm()[0] == 0u8);
            assert(pos_net(twist_seq_for(4, 1))[0] == 0u8);
        } else if k == 1 {
            assert(id_perm()[1] == 1u8);
            assert(pos_net(twist_seq_for(4, 1))[1] == 1u8);
        } else if k == 2 {
            assert(id_perm()[2] == 2u8);
            assert(pos_net(twist_seq_for(4, 1))[2] == 2u8);
        } else if k == 3 {
            assert(id_perm()[3] == 3u8);
            assert(pos_net(twist_seq_for(4, 1))[3] == 3u8);
        } else if k == 4 {
            assert(id_perm()[4] == 4u8);
            assert(pos_net(twist_seq_for(4, 1))[4] == 4u8);
        } else if k == 5 {
            assert(id_perm()[5] == 5u8);
            assert(pos_net(twist_seq_for(4, 1))[5] == 5u8);
        } else if k == 6 {
            assert(id_perm()[6] == 6u8);
            assert(pos_net(twist_seq_for(4, 1))[6] == 6u8);
        } else if k == 7 {
            assert(id_perm()[7] == 7u8);
            assert(pos_net(twist_seq_for(4, 1))[7] == 7u8);
        }
    }
    lemma_pos_run_pointwise(msl, id_perm(), 14, 0);
    assert(pos_net(twist_seq_for(4, 1)) =~= id_perm());
    assert forall|t: int| 0 <= t < 8 implies ori_src(twist_seq_for(4, 1), 14, t) == t && #[trigger] ori_acc(twist_seq_for(4, 1), 14, t) % 3 == twist_delta(4, 1, t) by {
        if t == 0 {
            assert(ori_acc(msl, 14, 0) % 3 == 0);
        } else if t == 1 {
            assert(ori_acc(msl, 14, 1) % 3 == 2);
        } else if t == 2 {
            assert(ori_acc(msl, 14, 2) % 3 == 0);
        } else if t == 3 {
            assert(ori_acc(msl, 14, 3) % 3 == 0);
        } else if t == 4 {
            assert(ori_acc(msl, 14, 4) % 3 == 1);
        } else if t == 5 {
            assert(ori_acc(msl, 14, 5) % 3 == 0);
        } else if t == 6 {
            assert(ori_acc(msl, 14, 6) % 3 == 0);
        } else if t == 7 {
            assert(ori_acc(msl, 14, 7) % 3 == 0);
        }
    }
}

#[verifier::rlimit(100)]
#[verifier::spinoff_prover]
proof fn twist_pair_4_2()
    ensures
        twist_pair_ok(4, 2),
{
    reveal_with_fuel(iter_rot, 16);
    reveal_with_fuel(ori_src, 16);
    reveal_with_fuel(ori_acc, 16);
    crate::positions::lemma_move_rot_table();
    crate::orientations::lemma_q_back_table();
    reveal(twist_seq_for);
    let msl: Seq<Move> = seq![Move::F3, Move::L3, Move::U1, Move::L3, Move::U1, Move::L3, Move::U1, Move::L1, Move::U3, Move::L1, Move::U3, Move::L1, Move::U3, Move::F1];
    assert(twist_seq_for(4, 2) =~= msl);
    assert(iter_rot(msl, 3, 0) == 6);
    assert(iter_rot(msl, 3, 1) == 1);
    assert(iter_rot(msl, 3, 2) == 7);
    assert(iter_rot(msl, 3, 3) == 2);
    assert(iter_rot(msl, 3, 4) == 4);
    assert(iter_rot(msl, 3, 5) == 0);
    assert(iter_rot(msl, 3, 6) == 3);
    assert(iter_rot(msl, 3, 7) == 5);
    assert(ori_src(msl, 3, 0) == 5);
    assert(ori_acc(msl, 3, 0) == 5);
    assert(ori_src(msl, 3, 1) == 1);
    assert(ori_acc(msl, 3, 1) == 0);
    assert(ori_src(msl, 3, 2) == 3);
    assert(ori_acc(msl, 3, 2) == 1);
    assert(ori_src(msl, 3, 3) == 6);
    assert(ori_acc(msl, 3, 3) == 7);
    assert(ori_src(msl, 3, 4) == 4);
    assert(ori_acc(msl, 3, 4) == 4);
    assert(ori_src(msl, 3, 5) == 7);
    assert(ori_acc(msl, 3, 5) == 4);
    assert(ori_src(msl, 3, 6) == 0);
    assert(ori_acc(msl, 3, 6) == 2);
    assert(ori_src(msl, 3, 7) == 2);
    assert(ori_acc(msl, 3, 7) == 1);
    assert(iter_rot(msl, 10, 0) == 6);
    assert(iter_rot(msl, 10, 1) == 1);
    assert(iter_rot(msl, 10, 2) == 4);
    assert(iter_rot(msl, 10, 3) == 7);
    assert(iter_rot(msl, 10, 4) == 3);
    assert(iter_rot(msl, 10, 5) == 0);
    assert(iter_rot(msl, 10, 6) == 2);
    assert(iter_rot(msl, 10, 7) == 5);
    assert(ori_src(msl, 10, 0) == 5);
    assert(ori_acc(msl, 10, 0) == 11);
    assert(ori_src(msl, 10, 1) == 1);
    assert(ori_acc(msl, 10, 1) == 0);
    assert(ori_src(msl, 10, 2) == 6);
    assert(ori_acc(msl, 10, 2) == 14);
    assert(ori_src(msl, 10, 3) == 4);
    assert(ori_acc(msl, 10, 3) == 11);
    assert(ori_src(msl, 10, 4) == 2);
    assert(ori_acc(msl, 10, 4) == 4);
    assert(ori_src(msl, 10, 5) == 7);
    assert(ori_acc(msl, 10, 5) == 4);
    assert(ori_src(msl, 10, 6) == 0);
    assert(ori_acc(msl, 10, 6) == 2);
    assert(ori_src(msl, 10, 7) == 3);
    assert(ori_acc(msl, 10, 7) == 8);
    assert(iter_rot(msl, 7, 0) == 0);
    assert(iter_rot(msl, 14, 0) == 0);
    assert(iter_rot(msl, 7, 1) == 1);
    assert(iter_rot(msl, 14, 1) == 1);
    assert(iter_rot(msl, 7, 2) == 2);
    assert(iter_rot(msl, 14, 2) == 2);
    assert(iter_rot(msl, 7, 3) == 3);
    assert(iter_rot(msl, 14, 3) == 3);
    assert(iter_rot(msl, 7, 4) == 6);
    assert(iter_rot(msl, 14, 4) == 4);
    assert(iter_rot(msl, 7, 5) == 4);
    assert(iter_rot(msl, 14, 5) == 5);
    assert(iter_rot(msl, 7, 6) == 7);
    assert(iter_rot(msl, 14, 6) == 6);
    assert(iter_rot(msl, 7, 7) == 5);
    assert(iter_rot(msl, 14, 7) == 7);
    assert(ori_src(msl, 7, 0) == 0);
    assert(ori_acc(msl, 7, 0) == 2);
    assert(ori_src(msl, 7, 1) == 1);
    assert(ori_acc(msl, 7, 1) == 0);
    assert(ori_src(msl, 7, 2) == 2);
    assert(ori_acc(msl, 7, 2) == 4);
    assert(ori_src(msl, 7, 3) == 3);
    assert(ori_acc(msl, 7, 3) == 4);
    assert(ori_src(msl, 7, 4) == 5);
    assert(ori_acc(msl, 7, 4) == 7);
    assert(ori_src(msl, 7, 5) == 7);
    assert(ori_acc(msl, 7, 5) == 4);
    assert(ori_src(msl, 7, 6) == 4);
    assert(ori_acc(msl, 7, 6) == 6);
    assert(ori_src(msl, 7, 7) == 6);
    assert(ori_acc(msl, 7, 7) == 9);
    assert(ori_src(msl, 14, 0) == 0);
    assert(ori_acc(msl, 14, 0) == 6);
    assert(ori_src(msl, 14, 1) == 1);
    assert(ori_acc(msl, 14, 1) == 0);
    assert(ori_src(msl, 14, 2) == 2);
    assert(ori_acc(msl, 14, 2) == 8);
    assert(ori_src(msl, 14, 3) == 3);
    assert(ori_acc(msl, 14, 3) == 18);
    assert(ori_src(msl, 14, 4) == 4);
    assert(ori_acc(msl, 14, 4) == 22);
    assert(ori_src(msl, 14, 5) == 5);
    assert(ori_acc(msl, 14, 5) == 12);
    assert(ori_src(msl, 14, 6) == 6);
    assert(ori_acc(msl, 14, 6) == 24);
    assert(ori_src(msl, 14, 7) == 7);
    assert(ori_acc(msl, 14, 7) == 6);
    assert forall|k: int| 0 <= k < 8 implies #[trigger] pos_net(twist_seq_for(4, 2))[k] == id_perm()[k] by {
        lemma_pos_run_pointwise(msl, id_perm(), 14, k);
        if k == 0 {
            assert(id_perm()[0] == 0u8);
            assert(pos_net(twist_seq_for(4, 2))[0] == 0u8);
        } else if k == 1 {
            assert(id_perm()[1] == 1u8);
            assert(pos_net(twist_seq_for(4, 2))[1] == 1u8);
        } else if k == 2 {
            assert(id_perm()[2] == 2u8);
            assert(pos_net(twist_seq_for(4, 2))[2] == 2u8);
        } else if k == 3 {
            assert(id_perm()[3] == 3u8);
            assert(pos_net(twist_seq_for(4, 2))[3] == 3u8);
        } else if k == 4 {
            assert(id_perm()[4] == 4u8);
            assert(pos_net(twist_seq_for(4, 2))[4] == 4u8);
        } else if k == 5 {
            assert(id_perm()[5] == 5u8);
            assert(pos_net(twist_seq_for(4, 2))[5] == 5u8);
        } else if k == 6 {
            assert(id_perm()[6] == 6u8);
            assert(pos_net(twist_seq_for(4, 2))[6] == 6u8);
        } else if k == 7 {
            assert(id_perm()[7] == 7u8);
            assert(pos_net(twist_seq_for(4, 2))[7] == 7u8);
        }
    }
    lemma_pos_run_pointwise(msl, id_perm(), 14, 0);
    assert(pos_net(twist_seq_for(4, 2)) =~= id_perm());
    assert forall|t: int| 0 <= t < 8 implies ori_src(twist_seq_for(4, 2), 14, t) == t && #[trigger] ori_acc(twist_seq_for(4, 2), 14, t) % 3 == twist_delta(4, 2, t) by {
        if t == 0 {
            assert(ori_acc(msl, 14, 0) % 3 == 0);
        } else if t == 1 {
            assert(ori_acc(msl, 14, 1) % 3 == 0);
        } else if t == 2 {
            assert(ori_acc(msl, 14, 2) % 3 == 2);
        } else if t == 3 {
            assert(ori_acc(msl, 14, 3) % 3 == 0);
        } else if t == 4 {
            assert(ori_acc(msl, 14, 4) % 3 == 1);
        } else if t == 5 {
            assert(ori_acc(msl, 14, 5) % 3 == 0);
        } else if t == 6 {
            assert(ori_acc(msl, 14, 6) % 3 == 0);
        } else if t == 7 {
            assert(ori_acc(msl, 14, 7) % 3 == 0);
        }
    }
}

#[verifier::rlimit(100)]
#[verifier::spinoff_prover]
proof fn twist_pair_4_3()
    ensures
        twist_pair_ok(4, 3),
{
    reveal_with_fuel(iter_rot, 16);
    reveal_with_fuel(ori_src, 16);
    reveal_with_fuel(ori_acc, 16);
    crate::positions::lemma_move_rot_table();
    crate::orientations::lemma_q_back_table();
    reveal(twist_seq_for);
    let msl: Seq<Move> = seq![Move::B2, Move::D1, Move::L3, Move::D1, Move::L3, Move::D1, Move::L3, Move::D3, Move::L1, Move::D3, Move::L1, Move::D3, Move::L1, Move::B2];
    assert(twist_seq_for(4, 3) =~= msl);
    assert(iter_rot(msl, 3, 0) == 3);
    assert(iter_rot(msl, 3, 1) == 6);
    assert(iter_rot(msl, 3, 2) == 5);
    assert(iter_rot(msl, 3, 3) == 1);
    assert(iter_rot(msl, 3, 4) == 2);
    assert(iter_rot(msl, 3, 5) == 0);
    assert(iter_rot(msl, 3, 6) == 4);
    assert(iter_rot(msl, 3, 7) == 7);
    assert(ori_src(msl, 3, 0) == 5);
    assert(ori_acc(msl, 3, 0) == 1);
    assert(ori_src(msl, 3, 1) == 3);
    assert(ori_acc(msl, 3, 1) == 4);
    assert(ori_src(msl, 3, 2) == 4);
    assert(ori_acc(msl, 3, 2) == 2);
    assert(ori_src(msl, 3, 3) == 0);
    assert(ori_acc(msl, 3, 3) == 3);
    assert(ori_src(msl, 3, 4) == 6);
    assert(ori_acc(msl, 3, 4) == 0);
    assert(ori_src(msl, 3, 5) == 2);
    assert(ori_acc(msl, 3, 5) == 5);
    assert(ori_src(msl, 3, 6) == 1);
    assert(ori_acc(msl, 3, 6) == 3);
    assert(ori_src(msl, 3, 7) == 7);
    assert(ori_acc(msl, 3, 7) == 0);
    assert(iter_rot(msl, 10, 0) == 3);
    assert(iter_rot(msl, 10, 1) == 4);
    assert(iter_rot(msl, 10, 2) == 5);
    assert(iter_rot(msl, 10, 3) == 6);
    assert(iter_rot(msl, 10, 4) == 1);
    assert(iter_rot(msl, 10, 5) == 0);
    assert(iter_rot(msl, 10, 6) == 2);
    assert(iter_rot(msl, 10, 7) == 7);
    assert(ori_src(msl, 10, 0) == 5);
    assert(ori_acc(msl, 10, 0) == 13);
    assert(ori_src(msl, 10, 1) == 4);
    assert(ori_acc(msl, 10, 1) == 11);
    assert(ori_src(msl, 10, 2) == 6);
    assert(ori_acc(msl, 10, 2) == 2);
    assert(ori_src(msl, 10, 3) == 0);
    assert(ori_acc(msl, 10, 3) == 3);
    assert(ori_src(msl, 10, 4) == 1);
    assert(ori_acc(msl, 10, 4) == 9);
    assert(ori_src(msl, 10, 5) == 2);
    assert(ori_acc(msl, 10, 5) == 17);
    assert(ori_src(msl, 10, 6) == 3);
    assert(ori_acc(msl, 10, 6) == 11);
    assert(ori_src(msl, 10, 7) == 7);
    assert(ori_acc(msl, 10, 7) == 0);
    assert(iter_rot(msl, 7, 0) == 3);
    assert(iter_rot(msl, 14, 0) == 0);
    assert(iter_rot(msl, 7, 1) == 2);
    assert(iter_rot(msl, 14, 1) == 1);
    assert(iter_rot(msl, 7, 2) == 1);
    assert(iter_rot(msl, 14, 2) == 2);
    assert(iter_rot(msl, 7, 3) == 0);
    assert(iter_rot(msl, 14, 3) == 3);
    assert(iter_rot(msl, 7, 4) == 4);
    assert(iter_rot(msl, 14, 4) == 4);
    assert(iter_rot(msl, 7, 5) == 5);
    assert(iter_rot(msl, 14, 5) == 5);
    assert(iter_rot(msl, 7, 6) == 6);
    assert(iter_rot(msl, 14, 6) == 6);
    assert(iter_rot(msl, 7, 7) == 7);
    assert(iter_rot(msl, 14, 7) == 7);
    assert(ori_src(msl, 7, 0) == 3);
    assert(ori_acc(msl, 7, 0) == 7);
    assert(ori_src(msl, 7, 1) == 2);
    assert(ori_acc(msl, 7, 1) == 7);
    assert(ori_src(msl, 7, 2) == 1);
    assert(ori_acc(msl, 7, 2) == 5);
    assert(ori_src(msl, 7, 3) == 0);
    assert(ori_acc(msl, 7, 3) == 3);
    assert(ori_src(msl, 7, 4) == 4);
    assert(ori_acc(msl, 7, 4) == 2);
    assert(ori_src(msl, 7, 5) == 5);
    assert(ori_acc(msl, 7, 5) == 4);
    assert(ori_src(msl, 7, 6) == 6);
    assert(ori_acc(msl, 7, 6) == 2);
    assert(ori_src(msl, 7, 7) == 7);
    assert(ori_acc(msl, 7, 7) == 0);
    assert(ori_src(msl, 14, 0) == 0);
    assert(ori_acc(msl, 14, 0) == 6);
    assert(ori_src(msl, 14, 1) == 1);
    assert(ori_acc(msl, 14, 1) == 12);
    assert(ori_src(msl, 14, 2) == 2);
    assert(ori_acc(msl, 14, 2) == 24);
    assert(ori_src(msl, 14, 3) == 3);
    assert(ori_acc(msl, 14, 3) == 14);
    assert(ori_src(msl, 14, 4) == 4);
    assert(ori_acc(msl, 14, 4) == 16);
    assert(ori_src(msl, 14, 5) == 5);
    assert(ori_acc(msl, 14, 5) == 18);
    assert(ori_src(msl, 14, 6) == 6);
    assert(ori_acc(msl, 14, 6) == 6);
    assert(ori_src(msl, 14, 7) == 7);
    assert(ori_acc(msl, 14, 7) == 0);
    assert forall|k: int| 0 <= k < 8 implies #[trigger] pos_net(twist_seq_for(4, 3))[k] == id_perm()[k] by {
        lemma_pos_run_pointwise(msl, id_perm(), 14, k);
        if k == 0 {
            assert(id_perm()[0] == 0u8);
            assert(pos_net(twist_seq_for(4, 3))[0] == 0u8);
        } else if k == 1 {
            assert(id_perm()[1] == 1u8);
            assert(pos_net(twist_seq_for(4, 3))[1] == 1u8);
        } else if k == 2 {
            assert(id_perm()[2] == 2u8);
            assert(pos_net(twist_seq_for(4, 3))[2] == 2u8);
        } else if k == 3 {
            assert(id_perm()[3] == 3u8);
            assert(pos_net(twist_seq_for(4, 3))[3] == 3u8);
        } else if k == 4 {
            assert(id_perm()[4] == 4u8);
            assert(pos_net(twist_seq_for(4, 3))[4] == 4u8);
        } else if k == 5 {
            assert(id_perm()[5] == 5u8);
            assert(pos_net(twist_seq_for(4, 3))[5] == 5u8);
        } else if k == 6 {
            assert(id_perm()[6] == 6u8);
            assert(pos_net(twist_seq_for(4, 3))[6] == 6u8);
        } else if k == 7 {
            assert(id_perm()[7] == 7u8);
            assert(pos_net(twist_seq_for(4, 3))[7] == 7u8);
        }
    }
    lemma_pos_run_pointwise(msl, id_perm(), 14, 0);
    assert(pos_net(twist_seq_for(4, 3)) =~= id_perm());
    assert forall|t: int| 0 <= t < 8 implies ori_src(twist_seq_for(4, 3), 14, t) == t && #[trigger] ori_acc(twist_seq_for(4, 3), 14, t) % 3 == twist_delta(4, 3, t) by {
        if t == 0 {
            assert(ori_acc(msl, 14, 0) % 3 == 0);
        } else if t == 1 {
            assert(ori_acc(msl, 14, 1) % 3 == 0);
        } else if t == 2 {
            assert(ori_acc(msl, 14, 2) % 3 == 0);
        } else if t == 3 {
            assert(ori_acc(msl, 14, 3) % 3 == 2);
        } else if t == 4 {
            assert(ori_acc(msl, 14, 4) % 3 == 1);
        } else if t == 5 {
            assert(ori_acc(msl, 14, 5) % 3 == 0);
        } else if t == 6 {
            assert(ori_acc(msl, 14, 6) % 3 == 0);
        } else if t == 7 {
            assert(ori_acc(msl, 14, 7) % 3 == 0);
        }
    }
}

#[verifier::rlimit(100)]
#[verifier::spinoff_prover]
proof fn twist_pair_4_5()
    ensures
        twist_pair_ok(4, 5),
{
    reveal_with_fuel(iter_rot, 16);
    reveal_with_fuel(ori_src, 16);
    reveal_with_fuel(ori_acc, 16);
    crate::positions::lemma_move_rot_table();
    crate::orientations::lemma_q_back_table();
    reveal(twist_seq_for);
    let msl: Seq<Move> = seq![Move::F1, Move::D3, Move::F1, Move::D3, Move::F1, Move::D3, Move::F3, Move::D1, Move::F3, Move::D1, Move::F3, Move::D1];
    assert(twist_seq_for(4, 5) =~= msl);
    assert(iter_rot(msl, 3, 0) == 5);
    assert(iter_rot(msl, 3, 1) == 0);
    assert(iter_rot(msl, 3, 2) == 2);
    assert(iter_rot(msl, 3, 3) == 3);
    assert(iter_rot(msl, 3, 4) == 1);
    assert(iter_rot(msl, 3, 5) == 6);
    assert(iter_rot(msl, 3, 6) == 7);
    assert(iter_rot(msl, 3, 7) == 4);
    assert(ori_src(msl, 3, 0) == 1);
    assert(ori_acc(msl, 3, 0) == 5);
    assert(ori_src(msl, 3, 1) == 4);
    assert(ori_acc(msl, 3, 1) == 5);
    assert(ori_src(msl, 3, 2) == 2);
    assert(ori_acc(msl, 3, 2) == 0);
    assert(ori_src(msl, 3, 3) == 3);
    assert(ori_acc(msl, 3, 3) == 0);
    assert(ori_src(msl, 3, 4) == 7);
    assert(ori_acc(msl, 3, 4) == 3);
    assert(ori_src(msl, 3, 5) == 0);
    assert(ori_acc(msl, 3, 5) == 5);
    assert(ori_src(msl, 3, 6) == 5);
    assert(ori_acc(msl, 3, 6) == 3);
    assert(ori_src(msl, 3, 7) == 6);
    assert(ori_acc(msl, 3, 7) == 9);
    assert(iter_rot(msl, 9, 0) == 1);
    assert(iter_rot(msl, 9, 1) == 4);
    assert(iter_rot(msl, 9, 2) == 2);
    assert(iter_rot(msl, 9, 3) == 3);
    assert(iter_rot(msl, 9, 4) == 7);
    assert(iter_rot(msl, 9, 5) == 0);
    assert(iter_rot(msl, 9, 6) == 5);
    assert(iter_rot(msl, 9, 7) == 6);
    assert(ori_src(msl, 9, 0) == 5);
    assert(ori_acc(msl, 9, 0) == 17);
    assert(ori_src(msl, 9, 1) == 0);
    assert(ori_acc(msl, 9, 1) == 15);
    assert(ori_src(msl, 9, 2) == 2);
    assert(ori_acc(msl, 9, 2) == 0);
    assert(ori_src(msl, 9, 3) == 3);
    assert(ori_acc(msl, 9, 3) == 0);
    assert(ori_src(msl, 9, 4) == 1);
    assert(ori_acc(msl, 9, 4) == 21);
    assert(ori_src(msl, 9, 5) == 6);
    assert(ori_acc(msl, 9, 5) == 19);
    assert(ori_src(msl, 9, 6) == 7);
    assert(ori_acc(msl, 9, 6) == 19);
    assert(ori_src(msl, 9, 7) == 4);
    assert(ori_acc(msl, 9, 7) == 23);
    assert(iter_rot(msl, 6, 0) == 0);
    assert(iter_rot(msl, 12, 0) == 0);
    assert(iter_rot(msl, 6, 1) == 1);
    assert(iter_rot(msl, 12, 1) == 1);
    assert(iter_rot(msl, 6, 2) == 2);
    assert(iter_rot(msl, 12, 2) == 2);
    assert(iter_rot(msl, 6, 3) == 3);
    assert(iter_rot(msl, 12, 3) == 3);
    assert(iter_rot(msl, 6, 4) == 4);
    assert(iter_rot(msl, 12, 4) == 4);
    assert(iter_rot(msl, 6, 5) == 5);
    assert(iter_rot(msl, 12, 5) == 5);
    assert(iter_rot(msl, 6, 6) == 6);
    assert(iter_rot(msl, 12, 6) == 6);
    assert(iter_rot(msl, 6, 7) == 7);
    assert(iter_rot(msl, 12, 7) == 7);
    assert(ori_src(msl, 6, 0) == 0);
    assert(ori_acc(msl, 6, 0) == 14);
    assert(ori_src(msl, 6, 1) == 1);
    assert(ori_acc(msl, 6, 1) == 14);
    assert(ori_src(msl, 6, 2) == 2);
    assert(ori_acc(msl, 6, 2) == 0);
    assert(ori_src(msl, 6, 3) == 3);
    assert(ori_acc(msl, 6, 3) == 0);
    assert(ori_src(msl, 6, 4) == 4);
    assert(ori_acc(msl, 6, 4) == 14);
    assert(ori_src(msl, 6, 5) == 5);
    assert(ori_acc(msl, 6, 5) == 10);
    assert(ori_src(msl, 6, 6) == 6);
    assert(ori_acc(msl, 6, 6) == 10);
    assert(ori_src(msl, 6, 7) == 7);
    assert(ori_acc(msl, 6, 7) == 10);
    assert(ori_src(msl, 12, 0) == 0);
    assert(ori_acc(msl, 12, 0) == 24);
    assert(ori_src(msl, 12, 1) == 1);
    assert(ori_acc(msl, 12, 1) == 24);
    assert(ori_src(msl, 12, 2) == 2);
    assert(ori_acc(msl, 12, 2) == 0);
    assert(ori_src(msl, 12, 3) == 3);
    assert(ori_acc(msl, 12, 3) == 0);
    assert(ori_src(msl, 12, 4) == 4);
    assert(ori_acc(msl, 12, 4) == 28);
    assert(ori_src(msl, 12, 5) == 5);
    assert(ori_acc(msl, 12, 5) == 20);
    assert(ori_src(msl, 12, 6) == 6);
    assert(ori_acc(msl, 12, 6) == 24);
    assert(ori_src(msl, 12, 7) == 7);
    assert(ori_acc(msl, 12, 7) == 24);
    assert forall|k: int| 0 <= k < 8 implies #[trigger] pos_net(twist_seq_for(4, 5))[k] == id_perm()[k] by {
        lemma_pos_run_pointwise(msl, id_perm(), 12, k);
        if k == 0 {
            assert(id_perm()[0] == 0u8);
            assert(pos_net(twist_seq_for(4, 5))[0] == 0u8);
        } else if k == 1 {
            assert(id_perm()[1] == 1u8);
            assert(pos_net(twist_seq_for(4, 5))[1] == 1u8);
        } else if k == 2 {
            assert(id_perm()[2] == 2u8);
            assert(pos_net(twist_seq_for(4, 5))[2] == 2u8);
        } else if k == 3 {
            assert(id_perm()[3] == 3u8);
            assert(pos_net(twist_seq_for(4, 5))[3] == 3u8);
        } else if k == 4 {
            assert(id_perm()[4] == 4u8);
            assert(pos_net(twist_seq_for(4, 5))[4] == 4u8);
        } else if k == 5 {
            assert(id_perm()[5] == 5u8);
            assert(pos_net(twist_seq_for(4, 5))[5] == 5u8);
        } else if k == 6 {
            assert(id_perm()[6] == 6u8);
            assert(pos_net(twist_seq_for(4, 5))[6] == 6u8);
        } else if k == 7 {
            assert(id_perm()[7] == 7u8);
            assert(pos_net(twist_seq_for(4, 5))[7] == 7u8);
        }
    }
    lemma_pos_run_pointwise(msl, id_perm(), 12, 0);
    assert(pos_net(twist_seq_for(4, 5)) =~= id_perm());
    assert forall|t: int| 0 <= t < 8 implies ori_src(twist_seq_for(4, 5), 12, t) == t && #[trigger] ori_acc(twist_seq_for(4, 5), 12, t) % 3 == twist_delta(4, 5, t) by {
        if t == 0 {
            assert(ori_acc(msl, 12, 0) % 3 == 0);
        } else if t == 1 {
            assert(ori_acc(msl, 12, 1) % 3 == 0);
        } else if t == 2 {
            assert(ori_acc(msl, 12, 2) % 3 == 0);
        } else if t == 3 {
            assert(ori_acc(msl, 12, 3) % 3 == 0);
        } else if t == 4 {
            assert(ori_acc(msl, 12, 4) % 3 == 1);
        } else if t == 5 {
            assert(ori_acc(msl, 12, 5) % 3 == 2);
        } else if t == 6 {
            assert(ori_acc(msl, 12, 6) % 3 == 0);
        } else if t == 7 {
            assert(ori_acc(msl, 12, 7) % 3 == 0);
        }
    }
}

#[verifier::rlimit(100)]
#[verifier::spinoff_prover]
proof fn twist_pair_4_6()
    ensures
        twist_pair_ok(4, 6),
{
    reveal_with_fuel(iter_rot, 16);
    reveal_with_fuel(ori_src, 16);
    reveal_with_fuel(ori_acc, 16);
    crate::positions::lemma_move_rot_table();
    crate::orientations::lemma_q_back_table();
    reveal(twist_seq_for);
    let msl: Seq<Move> = seq![Move::L1, Move::F3, Move::L1, Move::F3, Move::L1, Move::F3, Move::L3, Move::F1, Move::L3, Move::F1, Move::L3, Move::F1];
    assert(twist_seq_for(4, 6) =~= msl);
    assert(iter_rot(msl, 3, 0) == 2);
    assert(iter_rot(msl, 3, 1) == 1);
    assert(iter_rot(msl, 3, 2) == 4);
    assert(iter_rot(msl, 3, 3) == 3);
    assert(iter_rot(msl, 3, 4) == 7);
    assert(iter_rot(msl, 3, 5) == 6);
    assert(iter_rot(msl, 3, 6) == 0);
    assert(iter_rot(msl, 3, 7) == 5);
    assert(ori_src(msl, 3, 0) == 6);
    assert(ori_acc(msl, 3, 0) == 0);
    assert(ori_src(msl, 3, 1) == 1);
    assert(ori_acc(msl, 3, 1) == 0);
    assert(ori_src(msl, 3, 2) == 0);
    assert(ori_acc(msl, 3, 2) == 4);
    assert(ori_src(msl, 3, 3) == 3);
    assert(ori_acc(msl, 3, 3) == 0);
    assert(ori_src(msl, 3, 4) == 2);
    assert(ori_acc(msl, 3, 4) == 0);
    assert(ori_src(msl, 3, 5) == 7);
    assert(ori_acc(msl, 3, 5) == 4);
    assert(ori_src(msl, 3, 6) == 5);
    assert(ori_acc(msl, 3, 6) == 5);
    assert(ori_src(msl, 3, 7) == 4);
    assert(ori_acc(msl, 3, 7) == 5);
    assert(iter_rot(msl, 9, 0) == 6);
    assert(iter_rot(msl, 9, 1) == 1);
    assert(iter_rot(msl, 9, 2) == 0);
    assert(iter_rot(msl, 9, 3) == 3);
    assert(iter_rot(msl, 9, 4) == 2);
    assert(iter_rot(msl, 9, 5) == 7);
    assert(iter_rot(msl, 9, 6) == 5);
    assert(iter_rot(msl, 9, 7) == 4);
    assert(ori_src(msl, 9, 0) == 2);
    assert(ori_acc(msl, 9, 0) == 6);
    assert(ori_src(msl, 9, 1) == 1);
    assert(ori_acc(msl, 9, 1) == 0);
    assert(ori_src(msl, 9, 2) == 4);
    assert(ori_acc(msl, 9, 2) == 14);
    assert(ori_src(msl, 9, 3) == 3);
    assert(ori_acc(msl, 9, 3) == 0);
    assert(ori_src(msl, 9, 4) == 7);
    assert(ori_acc(msl, 9, 4) == 15);
    assert(ori_src(msl, 9, 5) == 6);
    assert(ori_acc(msl, 9, 5) == 5);
    assert(ori_src(msl, 9, 6) == 0);
    assert(ori_acc(msl, 9, 6) == 4);
    assert(ori_src(msl, 9, 7) == 5);
    assert(ori_acc(msl, 9, 7) == 16);
    assert(iter_rot(msl, 6, 0) == 0);
    assert(iter_rot(msl, 12, 0) == 0);
    assert(iter_rot(msl, 6, 1) == 1);
    assert(iter_rot(msl, 12, 1) == 1);
    assert(iter_rot(msl, 6, 2) == 2);
    assert(iter_rot(msl, 12, 2) == 2);
    assert(iter_rot(msl, 6, 3) == 3);
    assert(iter_rot(msl, 12, 3) == 3);
    assert(iter_rot(msl, 6, 4) == 4);
    assert(iter_rot(msl, 12, 4) == 4);
    assert(iter_rot(msl, 6, 5) == 5);
    assert(iter_rot(msl, 12, 5) == 5);
    assert(iter_rot(msl, 6, 6) == 6);
    assert(iter_rot(msl, 12, 6) == 6);
    assert(iter_rot(msl, 6, 7) == 7);
    assert(iter_rot(msl, 12, 7) == 7);
    assert(ori_src(msl, 6, 0) == 0);
    assert(ori_acc(msl, 6, 0) == 4);
    assert(ori_src(msl, 6, 1) == 1);
    assert(ori_acc(msl, 6, 1) == 0);
    assert(ori_src(msl, 6, 2) == 2);
    assert(ori_acc(msl, 6, 2) == 4);
    assert(ori_src(msl, 6, 3) == 3);
    assert(ori_acc(msl, 6, 3) == 0);
    assert(ori_src(msl, 6, 4) == 4);
    assert(ori_acc(msl, 6, 4) == 14);
    assert(ori_src(msl, 6, 5) == 5);
    assert(ori_acc(msl, 6, 5) == 14);
    assert(ori_src(msl, 6, 6) == 6);
    assert(ori_acc(msl, 6, 6) == 4);
    assert(ori_src(msl, 6, 7) == 7);
    assert(ori_acc(msl, 6, 7) == 14);
    assert(ori_src(msl, 12, 0) == 0);
    assert(ori_acc(msl, 12, 0) == 6);
    assert(ori_src(msl, 12, 1) == 1);
    assert(ori_acc(msl, 12, 1) == 0);
    assert(ori_src(msl, 12, 2) == 2);
    assert(ori_acc(msl, 12, 2) == 6);
    assert(ori_src(msl, 12, 3) == 3);
    assert(ori_acc(msl, 12, 3) == 0);
    assert(ori_src(msl, 12, 4) == 4);
    assert(ori_acc(msl, 12, 4) == 16);
    assert(ori_src(msl, 12, 5) == 5);
    assert(ori_acc(msl, 12, 5) == 18);
    assert(ori_src(msl, 12, 6) == 6);
    assert(ori_acc(msl, 12, 6) == 8);
    assert(ori_src(msl, 12, 7) == 7);
    assert(ori_acc(msl, 12, 7) == 18);
    assert forall|k: int| 0 <= k < 8 implies #[trigger] pos_net(twist_seq_for(4, 6))[k] == id_perm()[k] by {
        lemma_pos_run_pointwise(msl, id_perm(), 12, k);
        if k == 0 {
            assert(id_perm()[0] == 0u8);
            assert(pos_net(twist_seq_for(4, 6))[0] == 0u8);
        } else if k == 1 {
            assert(id_perm()[1] == 1u8);
            assert(pos_net(twist_seq_for(4, 6))[1] == 1u8);
        } else if k == 2 {
            assert(id_perm()[2] == 2u8);
            assert(pos_net(twist_seq_for(4, 6))[2] == 2u8);
        } else if k == 3 {
            assert(id_perm()[3] == 3u8);
            assert(pos_net(twist_seq_for(4, 6))[3] == 3u8);
        } else if k == 4 {
            assert(id_perm()[4] == 4u8);
            assert(pos_net(twist_seq_for(4, 6))[4] == 4u8);
        } else if k == 5 {
            assert(id_perm()[5] == 5u8);
            assert(pos_net(twist_seq_for(4, 6))[5] == 5u8);
        } else if k == 6 {
            assert(id_perm()[6] == 6u8);
            assert(pos_net(twist_seq_for(4, 6))[6] == 6u8);
        } else if k == 7 {
            assert(id_perm()[7] == 7u8);
            assert(pos_net(twist_seq_for(4, 6))[7] == 7u8);
        }
    }
    lemma_pos_run_pointwise(msl, id_perm(), 12, 0);
    assert(pos_net(twist_seq_for(4, 6)) =~= id_perm());
    assert forall|t: int| 0 <= t < 8 implies ori_src(twist_seq_for(4, 6), 12, t) == t && #[trigger] ori_acc(twist_seq_for(4, 6), 12, t) % 3 == twist_delta(4, 6, t) by {
        if t == 0 {
            assert(ori_acc(msl, 12, 0) % 3 == 0);
        } else if t == 1 {
            assert(ori_acc(msl, 12, 1) % 3 == 0);
        } else if t == 2 {
            assert(ori_acc(msl, 12, 2) % 3 == 0);
        } else if t == 3 {
            assert(ori_acc(msl, 12, 3) % 3 == 0);
        } else if t == 4 {
            assert(ori_acc(msl, 12, 4) % 3 == 1);
        } else if t == 5 {
            assert(ori_acc(msl, 12, 5) % 3 == 0);
        } else if t == 6 {
            assert(ori_acc(msl, 12, 6) % 3 == 2);
        } else if t == 7 {
            assert(ori_acc(msl, 12, 7) % 3 == 0);
        }
    }
}

#[verifier::rlimit(100)]
#[verifier::spinoff_prover]
proof fn twist_pair_4_7()
    ensures
        twist_pair_ok(4, 7),
{
    reveal_with_fuel(iter_rot, 16);
    reveal_with_fuel(ori_src, 16);
    reveal_with_fuel(ori_acc, 16);
    crate::positions::lemma_move_rot_table();
    crate::orientations::lemma_q_back_table();
    reveal(twist_seq_for);
    let msl: Seq<Move> = seq![Move::D3, Move::F3, Move::R1, Move::F3, Move::R1, Move::F3, Move::R1, Move::F1, Move::R3, Move::F1, Move::R3, Move::F1, Move::R3, Move::D1];
    assert(twist_seq_for(4, 7) =~= msl);
    assert(iter_rot(msl, 3, 0) == 6);
    assert(iter_rot(msl, 3, 1) == 0);
    assert(iter_rot(msl, 3, 2) == 2);
    assert(iter_rot(msl, 3, 3) == 7);
    assert(iter_rot(msl, 3, 4) == 4);
    assert(iter_rot(msl, 3, 5) == 3);
    assert(iter_rot(msl, 3, 6) == 5);
    assert(iter_rot(msl, 3, 7) == 1);
    assert(ori_src(msl, 3, 0) == 1);
    assert(ori_acc(msl, 3, 0) == 5);
    assert(ori_src(msl, 3, 1) == 7);
    assert(ori_acc(msl, 3, 1) == 4);
    assert(ori_src(msl, 3, 2) == 2);
    assert(ori_acc(msl, 3, 2) == 0);
    assert(ori_src(msl, 3, 3) == 5);
    assert(ori_acc(msl, 3, 3) == 4);
    assert(ori_src(msl, 3, 4) == 4);
    assert(ori_acc(msl, 3, 4) == 10);
    assert(ori_src(msl, 3, 5) == 6);
    assert(ori_acc(msl, 3, 5) == 5);
    assert(ori_src(msl, 3, 6) == 0);
    assert(ori_acc(msl, 3, 6) == 8);
    assert(ori_src(msl, 3, 7) == 3);
    assert(ori_acc(msl, 3, 7) == 0);
    assert(iter_rot(msl, 10, 0) == 6);
    assert(iter_rot(msl, 10, 1) == 0);
    assert(iter_rot(msl, 10, 2) == 2);
    assert(iter_rot(msl, 10, 3) == 1);
    assert(iter_rot(msl, 10, 4) == 3);
    assert(iter_rot(msl, 10, 5) == 7);
    assert(iter_rot(msl, 10, 6) == 5);
    assert(iter_rot(msl, 10, 7) == 4);
    assert(ori_src(msl, 10, 0) == 1);
    assert(ori_acc(msl, 10, 0) == 5);
    assert(ori_src(msl, 10, 1) == 3);
    assert(ori_acc(msl, 10, 1) == 4);
    assert(ori_src(msl, 10, 2) == 2);
    assert(ori_acc(msl, 10, 2) == 0);
    assert(ori_src(msl, 10, 3) == 4);
    assert(ori_acc(msl, 10, 3) == 21);
    assert(ori_src(msl, 10, 4) == 7);
    assert(ori_acc(msl, 10, 4) == 7);
    assert(ori_src(msl, 10, 5) == 6);
    assert(ori_acc(msl, 10, 5) == 17);
    assert(ori_src(msl, 10, 6) == 0);
    assert(ori_acc(msl, 10, 6) == 20);
    assert(ori_src(msl, 10, 7) == 5);
    assert(ori_acc(msl, 10, 7) == 10);
    assert(iter_rot(msl, 7, 0) == 4);
    assert(iter_rot(msl, 14, 0) == 0);
    assert(iter_rot(msl, 7, 1) == 0);
    assert(iter_rot(msl, 14, 1) == 1);
    assert(iter_rot(msl, 7, 2) == 2);
    assert(iter_rot(msl, 14, 2) == 2);
    assert(iter_rot(msl, 7, 3) == 3);
    assert(iter_rot(msl, 14, 3) == 3);
    assert(iter_rot(msl, 7, 4) == 5);
    assert(iter_rot(msl, 14, 4) == 4);
    assert(iter_rot(msl, 7, 5) == 1);
    assert(iter_rot(msl, 14, 5) == 5);
    assert(iter_rot(msl, 7, 6) == 6);
    assert(iter_rot(msl, 14, 6) == 6);
    assert(iter_rot(msl, 7, 7) == 7);
    assert(iter_rot(msl, 14, 7) == 7);
    assert(ori_src(msl, 7, 0) == 1);
    assert(ori_acc(msl, 7, 0) == 5);
    assert(ori_src(msl, 7, 1) == 5);
    assert(ori_acc(msl, 7, 1) == 8);
    assert(ori_src(msl, 7, 2) == 2);
    assert(ori_acc(msl, 7, 2) == 0);
    assert(ori_src(msl, 7, 3) == 3);
    assert(ori_acc(msl, 7, 3) == 4);
    assert(ori_src(msl, 7, 4) == 0);
    assert(ori_acc(msl, 7, 4) == 18);
    assert(ori_src(msl, 7, 5) == 4);
    assert(ori_acc(msl, 7, 5) == 19);
    assert(ori_src(msl, 7, 6) == 6);
    assert(ori_acc(msl, 7, 6) == 14);
    assert(ori_src(msl, 7, 7) == 7);
    assert(ori_acc(msl, 7, 7) == 4);
    assert(ori_src(msl, 14, 0) == 0);
    assert(ori_acc(msl, 14, 0) == 24);
    assert(ori_src(msl, 14, 1) == 1);
    assert(ori_acc(msl, 14, 1) == 6);
    assert(ori_src(msl, 14, 2) == 2);
    assert(ori_acc(msl, 14, 2) == 0);
    assert(ori_src(msl, 14, 3) == 3);
    assert(ori_acc(msl, 14, 3) == 6);
    assert(ori_src(msl, 14, 4) == 4);
    assert(ori_acc(msl, 14, 4) == 22);
    assert(ori_src(msl, 14, 5) == 5);
    assert(ori_acc(msl, 14, 5) == 12);
    assert(ori_src(msl, 14, 6) == 6);
    assert(ori_acc(msl, 14, 6) == 18);
    assert(ori_src(msl, 14, 7) == 7);
    assert(ori_acc(msl, 14, 7) == 8);
    assert forall|k: int| 0 <= k < 8 implies #[trigger] pos_net(twist_seq_for(4, 7))[k] == id_perm()[k] by {
        lemma_pos_run_pointwise(msl, id_perm(), 14, k);
        if k == 0 {
            assert(id_perm()[0] == 0u8);
            assert(pos_net(twist_seq_for(4, 7))[0] == 0u8);
        } else if k == 1 {
            assert(id_perm()[1] == 1u8);
            assert(pos_net(twist_seq_for(4, 7))[1] == 1u8);
        } else if k == 2 {
            assert(id_perm()[2] == 2u8);
            assert(pos_net(twist_seq_for(4, 7))[2] == 2u8);
        } else if k == 3 {
            assert(id_perm()[3] == 3u8);
            assert(pos_net(twist_seq_for(4, 7))[3] == 3u8);
        } else if k == 4 {
            assert(id_perm()[4] == 4u8);
            assert(pos_net(twist_seq_for(4, 7))[4] == 4u8);
        } else if k == 5 {
            assert(id_perm()[5] == 5u8);
            assert(pos_net(twist_seq_for(4, 7))[5] == 5u8);
        } else if k == 6 {
            assert(id_perm()[6] == 6u8);
            assert(pos_net(twist_seq_for(4, 7))[6] == 6u8);
        } else if k == 7 {
            assert(id_perm()[7] == 7u8);
            assert(pos_net(twist_seq_for(4, 7))[7] == 7u8);
        }
    }
    lemma_pos_run_pointwise(msl, id_perm(), 14, 0);
    assert(pos_net(twist_seq_for(4, 7)) =~= id_perm());
    assert forall|t: int| 0 <= t < 8 implies ori_src(twist_seq_for(4, 7), 14, t) == t && #[trigger] ori_acc(twist_seq_for(4, 7), 14, t) % 3 == twist_delta(4, 7, t) by {
        if t == 0 {
            assert(ori_acc(msl, 14, 0) % 3 == 0);
        } else if t == 1 {
            assert(ori_acc(msl, 14, 1) % 3 == 0);
        } else if t == 2 {
            assert(ori_acc(msl, 14, 2) % 3 == 0);
        } else if t == 3 {
            assert(ori_acc(msl, 14, 3) % 3 == 0);
        } else if t == 4 {
            assert(ori_acc(msl, 14, 4) % 3 == 1);
        } else if t == 5 {
            assert(ori_acc(msl, 14, 5) % 3 == 0);
        } else if t == 6 {
            assert(ori_acc(msl, 14, 6) % 3 == 0);
        } else if t == 7 {
            assert(ori_acc(msl, 14, 7) % 3 == 2);
        }
    }
}

#[verifier::rlimit(100)]
#[verifier::spinoff_prover]
proof fn twist_pair_5_0()
    ensures
        twist_pair_ok(5, 0),
{
    reveal_with_fuel(iter_rot, 16);
    reveal_with_fuel(ori_src, 16);
    reveal_with_fuel(ori_acc, 16);
    crate::positions::lemma_move_rot_table();
    crate::orientations::lemma_q_back_table();
    reveal(twist_seq_for);
    let msl: Seq<Move> = seq![Move::L1, Move::D1, Move::F3, Move::D1, Move::F3, Move::D1, Move::F3, Move::D3, Move::F1, Move::D3, Move::F1, Move::D3, Move::F1, Move::L3];
    assert(twist_seq_for(5, 0) =~= msl);
    assert(iter_rot(msl, 3, 0) == 0);
    assert(iter_rot(msl, 3, 1) == 4);
    assert(iter_rot(msl, 3, 2) == 1);
    assert(iter_rot(msl, 3, 3) == 3);
    assert(iter_rot(msl, 3, 4) == 7);
    assert(iter_rot(msl, 3, 5) == 6);
    assert(iter_rot(msl, 3, 6) == 2);
    assert(iter_rot(msl, 3, 7) == 5);
    assert(ori_src(msl, 3, 0) == 0);
    assert(ori_acc(msl, 3, 0) == 2);
    assert(ori_src(msl, 3, 1) == 2);
    assert(ori_acc(msl, 3, 1) == 1);
    assert(ori_src(msl, 3, 2) == 6);
    assert(ori_acc(msl, 3, 2) == 0);
    assert(ori_src(msl, 3, 3) == 3);
    assert(ori_acc(msl, 3, 3) == 0);
    assert(ori_src(msl, 3, 4) == 1);
    assert(ori_acc(msl, 3, 4) == 7);
    assert(ori_src(msl, 3, 5) == 7);
    assert(ori_acc(msl, 3, 5) == 4);
    assert(ori_src(msl, 3, 6) == 5);
    assert(ori_acc(msl, 3, 6) == 5);
    assert(ori_src(msl, 3, 7) == 4);
    assert(ori_acc(msl, 3, 7) == 5);
    assert(iter_rot(msl, 10, 0) == 7);
    assert(iter_rot(msl, 10, 1) == 4);
    assert(iter_rot(msl, 10, 2) == 1);
    assert(iter_rot(msl, 10, 3) == 3);
    assert(iter_rot(msl, 10, 4) == 5);
    assert(iter_rot(msl, 10, 5) == 0);
    assert(iter_rot(msl, 10, 6) == 2);
    assert(iter_rot(msl, 10, 7) == 6);
    assert(ori_src(msl, 10, 0) == 5);
    assert(ori_acc(msl, 10, 0) == 23);
    assert(ori_src(msl, 10, 1) == 2);
    assert(ori_acc(msl, 10, 1) == 19);
    assert(ori_src(msl, 10, 2) == 6);
    assert(ori_acc(msl, 10, 2) == 0);
    assert(ori_src(msl, 10, 3) == 3);
    assert(ori_acc(msl, 10, 3) == 0);
    assert(ori_src(msl, 10, 4) == 1);
    assert(ori_acc(msl, 10, 4) == 19);
    assert(ori_src(msl, 10, 5) == 4);
    assert(ori_acc(msl, 10, 5) == 21);
    assert(ori_src(msl, 10, 6) == 7);
    assert(ori_acc(msl, 10, 6) == 15);
    assert(ori_src(msl, 10, 7) == 0);
    assert(ori_acc(msl, 10, 7) == 17);
    assert(iter_rot(msl, 7, 0) == 4);
    assert(iter_rot(msl, 14, 0) == 0);
    assert(iter_rot(msl, 7, 1) == 1);
    assert(iter_rot(msl, 14, 1) == 1);
    assert(iter_rot(msl, 7, 2) == 0);
    assert(iter_rot(msl, 14, 2) == 2);
    assert(iter_rot(msl, 7, 3) == 3);
    assert(iter_rot(msl, 14, 3) == 3);
    assert(iter_rot(msl, 7, 4) == 6);
    assert(iter_rot(msl, 14, 4) == 4);
    assert(iter_rot(msl, 7, 5) == 5);
    assert(iter_rot(msl, 14, 5) == 5);
    assert(iter_rot(msl, 7, 6) == 2);
    assert(iter_rot(msl, 14, 6) == 6);
    assert(iter_rot(msl, 7, 7) == 7);
    assert(iter_rot(msl, 14, 7) == 7);
    assert(ori_src(msl, 7, 0) == 2);
    assert(ori_acc(msl, 7, 0) == 10);
    assert(ori_src(msl, 7, 1) == 1);
    assert(ori_acc(msl, 7, 1) == 10);
    assert(ori_src(msl, 7, 2) == 6);
    assert(ori_acc(msl, 7, 2) == 0);
    assert(ori_src(msl, 7, 3) == 3);
    assert(ori_acc(msl, 7, 3) == 0);
    assert(ori_src(msl, 7, 4) == 0);
    assert(ori_acc(msl, 7, 4) == 10);
    assert(ori_src(msl, 7, 5) == 5);
    assert(ori_acc(msl, 7, 5) == 14);
    assert(ori_src(msl, 7, 6) == 4);
    assert(ori_acc(msl, 7, 6) == 14);
    assert(ori_src(msl, 7, 7) == 7);
    assert(ori_acc(msl, 7, 7) == 14);
    assert(ori_src(msl, 14, 0) == 0);
    assert(ori_acc(msl, 14, 0) == 20);
    assert(ori_src(msl, 14, 1) == 1);
    assert(ori_acc(msl, 14, 1) == 24);
    assert(ori_src(msl, 14, 2) == 2);
    assert(ori_acc(msl, 14, 2) == 24);
    assert(ori_src(msl, 14, 3) == 3);
    assert(ori_acc(msl, 14, 3) == 0);
    assert(ori_src(msl, 14, 4) == 4);
    assert(ori_acc(msl, 14, 4) == 24);
    assert(ori_src(msl, 14, 5) == 5);
    assert(ori_acc(msl, 14, 5) == 28);
    assert(ori_src(msl, 14, 6) == 6);
    assert(ori_acc(msl, 14, 6) == 0);
    assert(ori_src(msl, 14, 7) == 7);
    assert(ori_acc(msl, 14, 7) == 24);
    assert forall|k: int| 0 <= k < 8 implies #[trigger] pos_net(twist_seq_for(5, 0))[k] == id_perm()[k] by {
        lemma_pos_run_pointwise(msl, id_perm(), 14, k);
        if k == 0 {
            assert(id_perm()[0] == 0u8);
            assert(pos_net(twist_seq_for(5, 0))[0] == 0u8);
        } else if k == 1 {
            assert(id_perm()[1] == 1u8);
            assert(pos_net(twist_seq_for(5, 0))[1] == 1u8);
        } else if k == 2 {
            assert(id_perm()[2] == 2u8);
            assert(pos_net(twist_seq_for(5, 0))[2] == 2u8);
        } else if k == 3 {
            assert(id_perm()[3] == 3u8);
            assert(pos_net(twist_seq_for(5, 0))[3] == 3u8);
        } else if k == 4 {
            assert(id_perm()[4] == 4u8);
            assert(pos_net(twist_seq_for(5, 0))[4] == 4u8);
        } else if k == 5 {
            assert(id_perm()[5] == 5u8);
            assert(pos_net(twist_seq_for(5, 0))[5] == 5u8);
        } else if k == 6 {
            assert(id_perm()[6] == 6u8);
            assert(pos_net(twist_seq_for(5, 0))[6] == 6u8);
        } else if k == 7 {
            assert(id_perm()[7] == 7u8);
            assert(pos_net(twist_seq_for(5, 0))[7] == 7u8);
        }
    }
    lemma_pos_run_pointwise(msl, id_perm(), 14, 0);
    assert(pos_net(twist_seq_for(5, 0)) =~= id_perm());
    assert forall|t: int| 0 <= t < 8 implies ori_src(twist_seq_for(5, 0), 14, t) == t && #[trigger] ori_acc(twist_seq_for(5, 0), 14, t) % 3 == twist_delta(5, 0, t) by {
        if t == 0 {
            assert(ori_acc(msl, 14, 0) % 3 == 2);
        } else if t == 1 {
            assert(ori_acc(msl, 14, 1) % 3 == 0);
        } else if t == 2 {
            assert(ori_acc(msl, 14, 2) % 3 == 0);
        } else if t == 3 {
            assert(ori_acc(msl, 14, 3) % 3 == 0);
        } else if t == 4 {
            assert(ori_acc(msl, 14, 4) % 3 == 0);
        } else if t == 5 {
            assert(ori_acc(msl, 14, 5) % 3 == 1);
        } else if t == 6 {
            assert(ori_acc(msl, 14, 6) % 3 == 0);
        } else if t == 7 {
            assert(ori_acc(msl, 14, 7) % 3 == 0);
        }
    }
}

#[verifier::rlimit(100)]
#[verifier::spinoff_prover]
proof fn twist_pair_5_1()
    ensures
        twist_pair_ok(5, 1),
{
    reveal_with_fuel(iter_rot, 16);
    reveal_with_fuel(ori_src, 16);
    reveal_with_fuel(ori_acc, 16);
    crate::positions::lemma_move_rot_table();
    crate::orientations::lemma_q_back_table();
    reveal(twist_seq_for);
    let msl: Seq<Move> = seq![Move::R1, Move::D3, Move::R1, Move::D3, Move::R1, Move::D3, Move::R3, Move::D1, Move::R3, Move::D1, Move::R3, Move::D1];
    assert(twist_seq_for(5, 1) =~= msl);
    assert(iter_rot(msl, 3, 0) == 4);
    assert(iter_rot(msl, 3, 1) == 7);
    assert(iter_rot(msl, 3, 2) == 2);
    assert(iter_rot(msl, 3, 3) == 5);
    assert(iter_rot(msl, 3, 4) == 1);
    assert(iter_rot(msl, 3, 5) == 0);
    assert(iter_rot(msl, 3, 6) == 6);
    assert(iter_rot(msl, 3, 7) == 3);
    assert(ori_src(msl, 3, 0) == 5);
    assert(ori_acc(msl, 3, 0) == 5);
    assert(ori_src(msl, 3, 1) == 4);
    assert(ori_acc(msl, 3, 1) == 5);
    assert(ori_src(msl, 3, 2) == 2);
    assert(ori_acc(msl, 3, 2) == 0);
    assert(ori_src(msl, 3, 3) == 7);
    assert(ori_acc(msl, 3, 3) == 4);
    assert(ori_src(msl, 3, 4) == 0);
    assert(ori_acc(msl, 3, 4) == 4);
    assert(ori_src(msl, 3, 5) == 3);
    assert(ori_acc(msl, 3, 5) == 0);
    assert(ori_src(msl, 3, 6) == 6);
    assert(ori_acc(msl, 3, 6) == 0);
    assert(ori_src(msl, 3, 7) == 1);
    assert(ori_acc(msl, 3, 7) == 0);
    assert(iter_rot(msl, 9, 0) == 5);
    assert(iter_rot(msl, 9, 1) == 4);
    assert(iter_rot(msl, 9, 2) == 2);
    assert(iter_rot(msl, 9, 3) == 7);
    assert(iter_rot(msl, 9, 4) == 0);
    assert(iter_rot(msl, 9, 5) == 3);
    assert(iter_rot(msl, 9, 6) == 6);
    assert(iter_rot(msl, 9, 7) == 1);
    assert(ori_src(msl, 9, 0) == 4);
    assert(ori_acc(msl, 9, 0) == 16);
    assert(ori_src(msl, 9, 1) == 7);
    assert(ori_acc(msl, 9, 1) == 4);
    assert(ori_src(msl, 9, 2) == 2);
    assert(ori_acc(msl, 9, 2) == 0);
    assert(ori_src(msl, 9, 3) == 5);
    assert(ori_acc(msl, 9, 3) == 14);
    assert(ori_src(msl, 9, 4) == 1);
    assert(ori_acc(msl, 9, 4) == 5);
    assert(ori_src(msl, 9, 5) == 0);
    assert(ori_acc(msl, 9, 5) == 15);
    assert(ori_src(msl, 9, 6) == 6);
    assert(ori_acc(msl, 9, 6) == 0);
    assert(ori_src(msl, 9, 7) == 3);
    assert(ori_acc(msl, 9, 7) == 6);
    assert(iter_rot(msl, 6, 0) == 0);
    assert(iter_rot(msl, 12, 0) == 0);
    assert(iter_rot(msl, 6, 1) == 1);
    assert(iter_rot(msl, 12, 1) == 1);
    assert(iter_rot(msl, 6, 2) == 2);
    assert(iter_rot(msl, 12, 2) == 2);
    assert(iter_rot(msl, 6, 3) == 3);
    assert(iter_rot(msl, 12, 3) == 3);
    assert(iter_rot(msl, 6, 4) == 4);
    assert(iter_rot(msl, 12, 4) == 4);
    assert(iter_rot(msl, 6, 5) == 5);
    assert(iter_rot(msl, 12, 5) == 5);
    assert(iter_rot(msl, 6, 6) == 6);
    assert(iter_rot(msl, 12, 6) == 6);
    assert(iter_rot(msl, 6, 7) == 7);
    assert(iter_rot(msl, 12, 7) == 7);
    assert(ori_src(msl, 6, 0) == 0);
    assert(ori_acc(msl, 6, 0) == 14);
    assert(ori_src(msl, 6, 1) == 1);
    assert(ori_acc(msl, 6, 1) == 4);
    assert(ori_src(msl, 6, 2) == 2);
    assert(ori_acc(msl, 6, 2) == 0);
    assert(ori_src(msl, 6, 3) == 3);
    assert(ori_acc(msl, 6, 3) == 4);
    assert(ori_src(msl, 6, 4) == 4);
    assert(ori_acc(msl, 6, 4) == 14);
    assert(ori_src(msl, 6, 5) == 5);
    assert(ori_acc(msl, 6, 5) == 14);
    assert(ori_src(msl, 6, 6) == 6);
    assert(ori_acc(msl, 6, 6) == 0);
    assert(ori_src(msl, 6, 7) == 7);
    assert(ori_acc(msl, 6, 7) == 4);
    assert(ori_src(msl, 12, 0) == 0);
    assert(ori_acc(msl, 12, 0) == 18);
    assert(ori_src(msl, 12, 1) == 1);
    assert(ori_acc(msl, 12, 1) == 8);
    assert(ori_src(msl, 12, 2) == 2);
    assert(ori_acc(msl, 12, 2) == 0);
    assert(ori_src(msl, 12, 3) == 3);
    assert(ori_acc(msl, 12, 3) == 6);
    assert(ori_src(msl, 12, 4) == 4);
    assert(ori_acc(msl, 12, 4) == 18);
    assert(ori_src(msl, 12, 5) == 5);
    assert(ori_acc(msl, 12, 5) == 16);
    assert(ori_src(msl, 12, 6) == 6);
    assert(ori_acc(msl, 12, 6) == 0);
    assert(ori_src(msl, 12, 7) == 7);
    assert(ori_acc(msl, 12, 7) == 6);
    assert forall|k: int| 0 <= k < 8 implies #[trigger] pos_net(twist_seq_for(5, 1))[k] == id_perm()[k] by {
        lemma_pos_run_pointwise(msl, id_perm(), 12, k);
        if k == 0 {
            assert(id_perm()[0] == 0u8);
            assert(pos_net(twist_seq_for(5, 1))[0] == 0u8);
        } else if k == 1 {
            assert(id_perm()[1] == 1u8);
            assert(pos_net(twist_seq_for(5, 1))[1] == 1u8);
        } else if k == 2 {
            assert(id_perm()[2] == 2u8);
            assert(pos_net(twist_seq_for(5, 1))[2] == 2u8);
        } else if k == 3 {
            assert(id_perm()[3] == 3u8);
            assert(pos_net(twist_seq_for(5, 1))[3] == 3u8);
        } else if k == 4 {
            assert(id_perm()[4] == 4u8);
            assert(pos_net(twist_seq_for(5, 1))[4] == 4u8);
        } else if k == 5 {
            assert(id_perm()[5] == 5u8);
            assert(pos_net(twist_seq_for(5, 1))[5] == 5u8);
        } else if k == 6 {
            assert(id_perm()[6] == 6u8);
            assert(pos_net(twist_seq_for(5, 1))[6] == 6u8);
        } else if k == 7 {
            assert(id_perm()[7] == 7u8);
            assert(pos_net(twist_seq_for(5, 1))[7] == 7u8);
        }
    }
    lemma_pos_run_pointwise(msl, id_perm(), 12, 0);
    assert(pos_net(twist_seq_for(5, 1)) =~= id_perm());
    assert forall|t: int| 0 <= t < 8 implies ori_src(twist_seq_for(5, 1), 12, t) == t && #[trigger] ori_acc(twist_seq_for(5, 1), 12, t) % 3 == twist_delta(5, 1, t) by {
        if t == 0 {
            assert(ori_acc(msl, 12, 0) % 3 == 0);
        } else if t == 1 {
            assert(ori_acc(msl, 12, 1) % 3 == 2);
        } else if t == 2 {
            assert(ori_acc(msl, 12, 2) % 3 == 0);
        } else if t == 3 {
            assert(ori_acc(msl, 12, 3) % 3 == 0);
        } else if t == 4 {
            assert(ori_acc(msl, 12, 4) % 3 == 0);
        } else if t == 5 {
            assert(ori_acc(msl, 12, 5) % 3 == 1);
        } else if t == 6 {
            assert(ori_acc(msl, 12, 6) % 3 == 0);
        } else if t == 7 {
            assert(ori_acc(msl, 12, 7) % 3 == 0);
        }
    }
}

#[verifier::rlimit(100)]
#[verifier::spinoff_prover]
proof fn twist_pair_5_2()
    ensures
        twist_pair_ok(5, 2),
{
    reveal_with_fuel(iter_rot, 16);
    reveal_with_fuel(ori_src, 16);
    reveal_with_fuel(ori_acc, 16);
    crate::positions::lemma_move_rot_table();
    crate::orientations::lemma_q_back_table();
    reveal(twist_seq_for);
    let msl: Seq<Move> = seq![Move::B2, Move::R1, Move::D3, Move::R1, Move::D3, Move::R1, Move::D3, Move::R3, Move::D1, Move::R3, Move::D1, Move::R3, Move::D1, Move::B2];
    assert(twist_seq_for(5, 2) =~= msl);
    assert(iter_rot(msl, 3, 0) == 7);
    assert(iter_rot(msl, 3, 1) == 2);
    assert(iter_rot(msl, 3, 2) == 3);
    assert(iter_rot(msl, 3, 3) == 4);
    assert(iter_rot(msl, 3, 4) == 5);
    assert(iter_rot(msl, 3, 5) == 0);
    assert(iter_rot(msl, 3, 6) == 6);
    assert(iter_rot(msl, 3, 7) == 1);
    assert(ori_src(msl, 3, 0) == 5);
    assert(ori_acc(msl, 3, 0) == 5);
    assert(ori_src(msl, 3, 1) == 7);
    assert(ori_acc(msl, 3, 1) == 4);
    assert(ori_src(msl, 3, 2) == 1);
    assert(ori_acc(msl, 3, 2) == 3);
    assert(ori_src(msl, 3, 3) == 2);
    assert(ori_acc(msl, 3, 3) == 3);
    assert(ori_src(msl, 3, 4) == 3);
    assert(ori_acc(msl, 3, 4) == 7);
    assert(ori_src(msl, 3, 5) == 4);
    assert(ori_acc(msl, 3, 5) == 5);
    assert(ori_src(msl, 3, 6) == 6);
    assert(ori_acc(msl, 3, 6) == 0);
    assert(ori_src(msl, 3, 7) == 0);
    assert(ori_acc(msl, 3, 7) == 3);
    assert(iter_rot(msl, 10, 0) == 7);
    assert(iter_rot(msl, 10, 1) == 2);
    assert(iter_rot(msl, 10, 2) == 4);
    assert(iter_rot(msl, 10, 3) == 5);
    assert(iter_rot(msl, 10, 4) == 0);
    assert(iter_rot(msl, 10, 5) == 3);
    assert(iter_rot(msl, 10, 6) == 6);
    assert(iter_rot(msl, 10, 7) == 1);
    assert(ori_src(msl, 10, 0) == 4);
    assert(ori_acc(msl, 10, 0) == 16);
    assert(ori_src(msl, 10, 1) == 7);
    assert(ori_acc(msl, 10, 1) == 4);
    assert(ori_src(msl, 10, 2) == 1);
    assert(ori_acc(msl, 10, 2) == 3);
    assert(ori_src(msl, 10, 3) == 5);
    assert(ori_acc(msl, 10, 3) == 14);
    assert(ori_src(msl, 10, 4) == 2);
    assert(ori_acc(msl, 10, 4) == 8);
    assert(ori_src(msl, 10, 5) == 3);
    assert(ori_acc(msl, 10, 5) == 18);
    assert(ori_src(msl, 10, 6) == 6);
    assert(ori_acc(msl, 10, 6) == 0);
    assert(ori_src(msl, 10, 7) == 0);
    assert(ori_acc(msl, 10, 7) == 9);
    assert(iter_rot(msl, 7, 0) == 3);
    assert(iter_rot(msl, 14, 0) == 0);
    assert(iter_rot(msl, 7, 1) == 2);
    assert(iter_rot(msl, 14, 1) == 1);
    assert(iter_rot(msl, 7, 2) == 1);
    assert(iter_rot(msl, 14, 2) == 2);
    assert(iter_rot(msl, 7, 3) == 0);
    assert(iter_rot(msl, 14, 3) == 3);
    assert(iter_rot(msl, 7, 4) == 4);
    assert(iter_rot(msl, 14, 4) == 4);
    assert(iter_rot(msl, 7, 5) == 5);
    assert(iter_rot(msl, 14, 5) == 5);
    assert(iter_rot(msl, 7, 6) == 6);
    assert(iter_rot(msl, 14, 6) == 6);
    assert(iter_rot(msl, 7, 7) == 7);
    assert(iter_rot(msl, 14, 7) == 7);
    assert(ori_src(msl, 7, 0) == 3);
    assert(ori_acc(msl, 7, 0) == 17);
    assert(ori_src(msl, 7, 1) == 2);
    assert(ori_acc(msl, 7, 1) == 7);
    assert(ori_src(msl, 7, 2) == 1);
    assert(ori_acc(msl, 7, 2) == 3);
    assert(ori_src(msl, 7, 3) == 0);
    assert(ori_acc(msl, 7, 3) == 7);
    assert(ori_src(msl, 7, 4) == 4);
    assert(ori_acc(msl, 7, 4) == 14);
    assert(ori_src(msl, 7, 5) == 5);
    assert(ori_acc(msl, 7, 5) == 14);
    assert(ori_src(msl, 7, 6) == 6);
    assert(ori_acc(msl, 7, 6) == 0);
    assert(ori_src(msl, 7, 7) == 7);
    assert(ori_acc(msl, 7, 7) == 4);
    assert(ori_src(msl, 14, 0) == 0);
    assert(ori_acc(msl, 14, 0) == 12);
    assert(ori_src(msl, 14, 1) == 1);
    assert(ori_acc(msl, 14, 1) == 6);
    assert(ori_src(msl, 14, 2) == 2);
    assert(ori_acc(msl, 14, 2) == 14);
    assert(ori_src(msl, 14, 3) == 3);
    assert(ori_acc(msl, 14, 3) == 24);
    assert(ori_src(msl, 14, 4) == 4);
    assert(ori_acc(msl, 14, 4) == 18);
    assert(ori_src(msl, 14, 5) == 5);
    assert(ori_acc(msl, 14, 5) == 16);
    assert(ori_src(msl, 14, 6) == 6);
    assert(ori_acc(msl, 14, 6) == 0);
    assert(ori_src(msl, 14, 7) == 7);
    assert(ori_acc(msl, 14, 7) == 6);
    assert forall|k: int| 0 <= k < 8 implies #[trigger] pos_net(twist_seq_for(5, 2))[k] == id_perm()[k] by {
        lemma_pos_run_pointwise(msl, id_perm(), 14, k);
        if k == 0 {
            assert(id_perm()[0] == 0u8);
            assert(pos_net(twist_seq_for(5, 2))[0] == 0u8);
        } else if k == 1 {
            assert(id_perm()[1] == 1u8);
            assert(pos_net(twist_seq_for(5, 2))[1] == 1u8);
        } else if k == 2 {
            assert(id_perm()[2] == 2u8);
            assert(pos_net(twist_seq_for(5, 2))[2] == 2u8);
        } else if k == 3 {
            assert(id_perm()[3] == 3u8);
            assert(pos_net(twist_seq_for(5, 2))[3] == 3u8);
        } else if k == 4 {
            assert(id_perm()[4] == 4u8);
            assert(pos_net(twist_seq_for(5, 2))[4] == 4u8);
        } else if k == 5 {
            assert(id_perm()[5] == 5u8);
            assert(pos_net(twist_seq_for(5, 2))[5] == 5u8);
        } else if k == 6 {
            assert(id_perm()[6] == 6u8);
            assert(pos_net(twist_seq_for(5, 2))[6] == 6u8);
        } else if k == 7 {
            assert(id_perm()[7] == 7u8);
            assert(pos_net(twist_seq_for(5, 2))[7] == 7u8);
        }
    }
    lemma_pos_run_pointwise(msl, id_perm(), 14, 0);
    assert(pos_net(twist_seq_for(5, 2)) =~= id_perm());
    assert forall|t: int| 0 <= t < 8 implies ori_src(twist_seq_for(5, 2), 14, t) == t && #[trigger] ori_acc(twist_seq_for(5, 2), 14, t) % 3 == twist_delta(5, 2, t) by {
        if t == 0 {
            assert(ori_acc(msl, 14, 0) % 3 == 0);
        } else if t == 1 {
            assert(ori_acc(msl, 14, 1) % 3 == 0);
        } else if t == 2 {
            assert(ori_acc(msl, 14, 2) % 3 == 2);
        } else if t == 3 {
            assert(ori_acc(msl, 14, 3) % 3 == 0);
        } else if t == 4 {
            assert(ori_acc(msl, 14, 4) % 3 == 0);
        } else if t == 5 {
            assert(ori_acc(msl, 14, 5) % 3 == 1);
        } else if t == 6 {
            assert(ori_acc(msl, 14, 6) % 3 == 0);
        } else if t == 7 {
            assert(ori_acc(msl, 14, 7) % 3 == 0);
        }
    }
}

#[verifier::rlimit(100)]
#[verifier::spinoff_prover]
proof fn twist_pair_5_3()
    ensures
        twist_pair_ok(5, 3),
{
    reveal_with_fuel(iter_rot, 16);
    reveal_with_fuel(ori_src, 16);
    reveal_with_fuel(ori_acc, 16);
    crate::positions::lemma_move_rot_table();
    crate::orientations::lemma_q_back_table();
    reveal(twist_seq_for);
    let msl: Seq<Move> = seq![Move::B1, Move::R1, Move::D3, Move::R1, Move::D3, Move::R1, Move::D3, Move::R3, Move::D1, Move::R3, Move::D1, Move::R3, Move::D1, Move::B3];
    assert(twist_seq_for(5, 3) =~= msl);
    assert(iter_rot(msl, 3, 0) == 2);
    assert(iter_rot(msl, 3, 1) == 4);
    assert(iter_rot(msl, 3, 2) == 7);
    assert(iter_rot(msl, 3, 3) == 3);
    assert(iter_rot(msl, 3, 4) == 5);
    assert(iter_rot(msl, 3, 5) == 0);
    assert(iter_rot(msl, 3, 6) == 6);
    assert(iter_rot(msl, 3, 7) == 1);
    assert(ori_src(msl, 3, 0) == 5);
    assert(ori_acc(msl, 3, 0) == 5);
    assert(ori_src(msl, 3, 1) == 7);
    assert(ori_acc(msl, 3, 1) == 4);
    assert(ori_src(msl, 3, 2) == 0);
    assert(ori_acc(msl, 3, 2) == 2);
    assert(ori_src(msl, 3, 3) == 3);
    assert(ori_acc(msl, 3, 3) == 2);
    assert(ori_src(msl, 3, 4) == 1);
    assert(ori_acc(msl, 3, 4) == 5);
    assert(ori_src(msl, 3, 5) == 4);
    assert(ori_acc(msl, 3, 5) == 5);
    assert(ori_src(msl, 3, 6) == 6);
    assert(ori_acc(msl, 3, 6) == 0);
    assert(ori_src(msl, 3, 7) == 2);
    assert(ori_acc(msl, 3, 7) == 1);
    assert(iter_rot(msl, 10, 0) == 2);
    assert(iter_rot(msl, 10, 1) == 5);
    assert(iter_rot(msl, 10, 2) == 7);
    assert(iter_rot(msl, 10, 3) == 4);
    assert(iter_rot(msl, 10, 4) == 0);
    assert(iter_rot(msl, 10, 5) == 3);
    assert(iter_rot(msl, 10, 6) == 6);
    assert(iter_rot(msl, 10, 7) == 1);
    assert(ori_src(msl, 10, 0) == 4);
    assert(ori_acc(msl, 10, 0) == 16);
    assert(ori_src(msl, 10, 1) == 7);
    assert(ori_acc(msl, 10, 1) == 4);
    assert(ori_src(msl, 10, 2) == 0);
    assert(ori_acc(msl, 10, 2) == 2);
    assert(ori_src(msl, 10, 3) == 5);
    assert(ori_acc(msl, 10, 3) == 14);
    assert(ori_src(msl, 10, 4) == 3);
    assert(ori_acc(msl, 10, 4) == 7);
    assert(ori_src(msl, 10, 5) == 1);
    assert(ori_acc(msl, 10, 5) == 16);
    assert(ori_src(msl, 10, 6) == 6);
    assert(ori_acc(msl, 10, 6) == 0);
    assert(ori_src(msl, 10, 7) == 2);
    assert(ori_acc(msl, 10, 7) == 7);
    assert(iter_rot(msl, 7, 0) == 2);
    assert(iter_rot(msl, 14, 0) == 0);
    assert(iter_rot(msl, 7, 1) == 0);
    assert(iter_rot(msl, 14, 1) == 1);
    assert(iter_rot(msl, 7, 2) == 3);
    assert(iter_rot(msl, 14, 2) == 2);
    assert(iter_rot(msl, 7, 3) == 1);
    assert(iter_rot(msl, 14, 3) == 3);
    assert(iter_rot(msl, 7, 4) == 4);
    assert(iter_rot(msl, 14, 4) == 4);
    assert(iter_rot(msl, 7, 5) == 5);
    assert(iter_rot(msl, 14, 5) == 5);
    assert(iter_rot(msl, 7, 6) == 6);
    assert(iter_rot(msl, 14, 6) == 6);
    assert(iter_rot(msl, 7, 7) == 7);
    assert(iter_rot(msl, 14, 7) == 7);
    assert(ori_src(msl, 7, 0) == 1);
    assert(ori_acc(msl, 7, 0) == 15);
    assert(ori_src(msl, 7, 1) == 3);
    assert(ori_acc(msl, 7, 1) == 6);
    assert(ori_src(msl, 7, 2) == 0);
    assert(ori_acc(msl, 7, 2) == 2);
    assert(ori_src(msl, 7, 3) == 2);
    assert(ori_acc(msl, 7, 3) == 5);
    assert(ori_src(msl, 7, 4) == 4);
    assert(ori_acc(msl, 7, 4) == 14);
    assert(ori_src(msl, 7, 5) == 5);
    assert(ori_acc(msl, 7, 5) == 14);
    assert(ori_src(msl, 7, 6) == 6);
    assert(ori_acc(msl, 7, 6) == 0);
    assert(ori_src(msl, 7, 7) == 7);
    assert(ori_acc(msl, 7, 7) == 4);
    assert(ori_src(msl, 14, 0) == 0);
    assert(ori_acc(msl, 14, 0) == 6);
    assert(ori_src(msl, 14, 1) == 1);
    assert(ori_acc(msl, 14, 1) == 24);
    assert(ori_src(msl, 14, 2) == 2);
    assert(ori_acc(msl, 14, 2) == 12);
    assert(ori_src(msl, 14, 3) == 3);
    assert(ori_acc(msl, 14, 3) == 14);
    assert(ori_src(msl, 14, 4) == 4);
    assert(ori_acc(msl, 14, 4) == 18);
    assert(ori_src(msl, 14, 5) == 5);
    assert(ori_acc(msl, 14, 5) == 16);
    assert(ori_src(msl, 14, 6) == 6);
    assert(ori_acc(msl, 14, 6) == 0);
    assert(ori_src(msl, 14, 7) == 7);
    assert(ori_acc(msl, 14, 7) == 6);
    assert forall|k: int| 0 <= k < 8 implies #[trigger] pos_net(twist_seq_for(5, 3))[k] == id_perm()[k] by {
        lemma_pos_run_pointwise(msl, id_perm(), 14, k);
        if k == 0 {
            assert(id_perm()[0] == 0u8);
            assert(pos_net(twist_seq_for(5, 3))[0] == 0u8);
        } else if k == 1 {
            assert(id_perm()[1] == 1u8);
            assert(pos_net(twist_seq_for(5, 3))[1] == 1u8);
        } else if k == 2 {
            assert(id_perm()[2] == 2u8);
            assert(pos_net(twist_seq_for(5, 3))[2] == 2u8);
        } else if k == 3 {
            assert(id_perm()[3] == 3u8);
            assert(pos_net(twist_seq_for(5, 3))[3] == 3u8);
        } else if k == 4 {
            assert(id_perm()[4] == 4u8);
            assert(pos_net(twist_seq_for(5, 3))[4] == 4u8);
        } else if k == 5 {
            assert(id_perm()[5] == 5u8);
            assert(pos_net(twist_seq_for(5, 3))[5] == 5u8);
        } else if k == 6 {
            assert(id_perm()[6] == 6u8);
            assert(pos_net(twist_seq_for(5, 3))[6] == 6u8);
        } else if k == 7 {
            assert(id_perm()[7] == 7u8);
            assert(pos_net(twist_seq_for(5, 3))[7] == 7u8);
        }
    }
    lemma_pos_run_pointwise(msl, id_perm(), 14, 0);
    assert(pos_net(twist_seq_for(5, 3)) =~= id_perm());
    assert forall|t: int| 0 <= t < 8 implies ori_src(twist_seq_for(5, 3), 14, t) == t && #[trigger] ori_acc(twist_seq_for(5, 3), 14, t) % 3 == twist_delta(5, 3, t) by {
        if t == 0 {
            assert(ori_acc(msl, 14, 0) % 3 == 0);
        } else if t == 1 {
            assert(ori_acc(msl, 14, 1) % 3 == 0);
        } else if t == 2 {
            assert(ori_acc(msl, 14, 2) % 3 == 0);
        } else if t == 3 {
            assert(ori_acc(msl, 14, 3) % 3 == 2);
        } else if t == 4 {
            assert(ori_acc(msl, 14, 4) % 3 == 0);
        } else if t == 5 {
            assert(ori_acc(msl, 14, 5) % 3 == 1);
        } else if t == 6 {
            assert(ori_acc(msl, 14, 6) % 3 == 0);
        } else if t == 7 {
            assert(ori_acc(msl, 14, 7) % 3 == 0);
        }
    }
}

#[verifier::rlimit(100)]
#[verifier::spinoff_prover]
proof fn twist_pair_5_4()
    ensures
        twist_pair_ok(5, 4),
{
    reveal_with_fuel(iter_rot, 16);
    reveal_with_fuel(ori_src, 16);
    reveal_with_fuel(ori_acc, 16);
    crate::positions::lemma_move_rot_table();
    crate::orientations::lemma_q_back_table();
    reveal(twist_seq_for);
    let msl: Seq<Move> = seq![Move::D1, Move::F3, Move::D1, Move::F3, Move::D1, Move::F3, Move::D3, Move::F1, Move::D3, Move::F1, Move::D3, Move::F1];
    assert(twist_seq_for(5, 4) =~= msl);
    assert(iter_rot(msl, 3, 0) == 5);
    assert(iter_rot(msl, 3, 1) == 0);
    assert(iter_rot(msl, 3, 2) == 2);
    assert(iter_rot(msl, 3, 3) == 3);
    assert(iter_rot(msl, 3, 4) == 1);
    assert(iter_rot(msl, 3, 5) == 6);
    assert(iter_rot(msl, 3, 6) == 7);
    assert(iter_rot(msl, 3, 7) == 4);
    assert(ori_src(msl, 3, 0) == 1);
    assert(ori_acc(msl, 3, 0) == 9);
    assert(ori_src(msl, 3, 1) == 4);
    assert(ori_acc(msl, 3, 1) == 3);
    assert(ori_src(msl, 3, 2) == 2);
    assert(ori_acc(msl, 3, 2) == 0);
    assert(ori_src(msl, 3, 3) == 3);
    assert(ori_acc(msl, 3, 3) == 0);
    assert(ori_src(msl, 3, 4) == 7);
    assert(ori_acc(msl, 3, 4) == 5);
    assert(ori_src(msl, 3, 5) == 0);
    assert(ori_acc(msl, 3, 5) == 3);
    assert(ori_src(msl, 3, 6) == 5);
    assert(ori_acc(msl, 3, 6) == 5);
    assert(ori_src(msl, 3, 7) == 6);
    assert(ori_acc(msl, 3, 7) == 5);
    assert(iter_rot(msl, 9, 0) == 1);
    assert(iter_rot(msl, 9, 1) == 4);
    assert(iter_rot(msl, 9, 2) == 2);
    assert(iter_rot(msl, 9, 3) == 3);
    assert(iter_rot(msl, 9, 4) == 7);
    assert(iter_rot(msl, 9, 5) == 0);
    assert(iter_rot(msl, 9, 6) == 5);
    assert(iter_rot(msl, 9, 7) == 6);
    assert(ori_src(msl, 9, 0) == 5);
    assert(ori_acc(msl, 9, 0) == 23);
    assert(ori_src(msl, 9, 1) == 0);
    assert(ori_acc(msl, 9, 1) == 19);
    assert(ori_src(msl, 9, 2) == 2);
    assert(ori_acc(msl, 9, 2) == 0);
    assert(ori_src(msl, 9, 3) == 3);
    assert(ori_acc(msl, 9, 3) == 0);
    assert(ori_src(msl, 9, 4) == 1);
    assert(ori_acc(msl, 9, 4) == 19);
    assert(ori_src(msl, 9, 5) == 6);
    assert(ori_acc(msl, 9, 5) == 21);
    assert(ori_src(msl, 9, 6) == 7);
    assert(ori_acc(msl, 9, 6) == 15);
    assert(ori_src(msl, 9, 7) == 4);
    assert(ori_acc(msl, 9, 7) == 17);
    assert(iter_rot(msl, 6, 0) == 0);
    assert(iter_rot(msl, 12, 0) == 0);
    assert(iter_rot(msl, 6, 1) == 1);
    assert(iter_rot(msl, 12, 1) == 1);
    assert(iter_rot(msl, 6, 2) == 2);
    assert(iter_rot(msl, 12, 2) == 2);
    assert(iter_rot(msl, 6, 3) == 3);
    assert(iter_rot(msl, 12, 3) == 3);
    assert(iter_rot(msl, 6, 4) == 4);
    assert(iter_rot(msl, 12, 4) == 4);
    assert(iter_rot(msl, 6, 5) == 5);
    assert(iter_rot(msl, 12, 5) == 5);
    assert(iter_rot(msl, 6, 6) == 6);
    assert(iter_rot(msl, 12, 6) == 6);
    assert(iter_rot(msl, 6, 7) == 7);
    assert(iter_rot(msl, 12, 7) == 7);
    assert(ori_src(msl, 6, 0) == 0);
    assert(ori_acc(msl, 6, 0) == 10);
    assert(ori_src(msl, 6, 1) == 1);
    assert(ori_acc(msl, 6, 1) == 10);
    assert(ori_src(msl, 6, 2) == 2);
    assert(ori_acc(msl, 6, 2) == 0);
    assert(ori_src(msl, 6, 3) == 3);
    assert(ori_acc(msl, 6, 3) == 0);
    assert(ori_src(msl, 6, 4) == 4);
    assert(ori_acc(msl, 6, 4) == 10);
    assert(ori_src(msl, 6, 5) == 5);
    assert(ori_acc(msl, 6, 5) == 14);
    assert(ori_src(msl, 6, 6) == 6);
    assert(ori_acc(msl, 6, 6) == 14);
    assert(ori_src(msl, 6, 7) == 7);
    assert(ori_acc(msl, 6, 7) == 14);
    assert(ori_src(msl, 12, 0) == 0);
    assert(ori_acc(msl, 12, 0) == 24);
    assert(ori_src(msl, 12, 1) == 1);
    assert(ori_acc(msl, 12, 1) == 24);
    assert(ori_src(msl, 12, 2) == 2);
    assert(ori_acc(msl, 12, 2) == 0);
    assert(ori_src(msl, 12, 3) == 3);
    assert(ori_acc(msl, 12, 3) == 0);
    assert(ori_src(msl, 12, 4) == 4);
    assert(ori_acc(msl, 12, 4) == 20);
    assert(ori_src(msl, 12, 5) == 5);
    assert(ori_acc(msl, 12, 5) == 28);
    assert(ori_src(msl, 12, 6) == 6);
    assert(ori_acc(msl, 12, 6) == 24);
    assert(ori_src(msl, 12, 7) == 7);
    assert(ori_acc(msl, 12, 7) == 24);
    assert forall|k: int| 0 <= k < 8 implies #[trigger] pos_net(twist_seq_for(5, 4))[k] == id_perm()[k] by {
        lemma_pos_run_pointwise(msl, id_perm(), 12, k);
        if k == 0 {
            assert(id_perm()[0] == 0u8);
            assert(pos_net(twist_seq_for(5, 4))[0] == 0u8);
        } else if k == 1 {
            assert(id_perm()[1] == 1u8);
            assert(pos_net(twist_seq_for(5, 4))[1] == 1u8);
        } else if k == 2 {
            assert(id_perm()[2] == 2u8);
            assert(pos_net(twist_seq_for(5, 4))[2] == 2u8);
        } else if k == 3 {
            assert(id_perm()[3] == 3u8);
            assert(pos_net(twist_seq_for(5, 4))[3] == 3u8);
        } else if k == 4 {
            assert(id_perm()[4] == 4u8);
            assert(pos_net(twist_seq_for(5, 4))[4] == 4u8);
        } else if k == 5 {
            assert(id_perm()[5] == 5u8);
            assert(pos_net(twist_seq_for(5, 4))[5] == 5u8);
        } else if k == 6 {
            assert(id_perm()[6] == 6u8);
            assert(pos_net(twist_seq_for(5, 4))[6] == 6u8);
        } else if k == 7 {
            assert(id_perm()[7] == 7u8);
            assert(pos_net(twist_seq_for(5, 4))[7] == 7u8);
        }
    }
    lemma_pos_run_pointwise(msl, id_perm(), 12, 0);
    assert(pos_net(twist_seq_for(5, 4)) =~= id_perm());
    assert forall|t: int| 0 <= t < 8 implies ori_src(twist_seq_for(5, 4), 12, t) == t && #[trigger] ori_acc(twist_seq_for(5, 4), 12, t) % 3 == twist_delta(5, 4, t) by {
        if t == 0 {
            assert(ori_acc(msl, 12, 0) % 3 == 0);
        } else if t == 1 {
            assert(ori_acc(msl, 12, 1) % 3 == 0);
        } else if t == 2 {
            assert(ori_acc(msl, 12, 2) % 3 == 0);
        } else if t == 3 {
            assert(ori_acc(msl, 12, 3) % 3 == 0);
        } else if t == 4 {
            assert(ori_acc(msl, 12, 4) % 3 == 2);
        } else if t == 5 {
            assert(ori_acc(msl, 12, 5) % 3 == 1);
        } else if t == 6 {
            assert(ori_acc(msl, 12, 6) % 3 == 0);
        } else if t == 7 {
            assert(ori_acc(msl, 12, 7) % 3 == 0);
        }
    }
}

#[verifier::rlimit(100)]
#[verifier::spinoff_prover]
proof fn twist_pair_5_6()
    ensures
        twist_pair_ok(5, 6),
{
    reveal_with_fuel(iter_rot, 16);
    reveal_with_fuel(ori_src, 16);
    reveal_with_fuel(ori_acc, 16);
    crate::positions::lemma_move_rot_table();
    crate::orientations::lemma_q_back_table();
    reveal(twist_seq_for);
    let msl: Seq<Move> = seq![Move::U1, Move::F1, Move::R3, Move::F1, Move::R3, Move::F1, Move::R3, Move::F3, Move::R1, Move::F3, Move::R1, Move::F3, Move::R1, Move::U3];
    assert(twist_seq_for(5, 6) =~= msl);
    assert(iter_rot(msl, 3, 0) == 0);
    assert(iter_rot(msl, 3, 1) == 5);
    assert(iter_rot(msl, 3, 2) == 4);
    assert(iter_rot(msl, 3, 3) == 2);
    assert(iter_rot(msl, 3, 4) == 7);
    assert(iter_rot(msl, 3, 5) == 3);
    assert(iter_rot(msl, 3, 6) == 6);
    assert(iter_rot(msl, 3, 7) == 1);
    assert(ori_src(msl, 3, 0) == 0);
    assert(ori_acc(msl, 3, 0) == 0);
    assert(ori_src(msl, 3, 1) == 7);
    assert(ori_acc(msl, 3, 1) == 2);
    assert(ori_src(msl, 3, 2) == 3);
    assert(ori_acc(msl, 3, 2) == 1);
    assert(ori_src(msl, 3, 3) == 5);
    assert(ori_acc(msl, 3, 3) == 2);
    assert(ori_src(msl, 3, 4) == 2);
    assert(ori_acc(msl, 3, 4) == 4);
    assert(ori_src(msl, 3, 5) == 1);
    assert(ori_acc(msl, 3, 5) == 0);
    assert(ori_src(msl, 3, 6) == 6);
    assert(ori_acc(msl, 3, 6) == 2);
    assert(ori_src(msl, 3, 7) == 4);
    assert(ori_acc(msl, 3, 7) == 1);
    assert(iter_rot(msl, 10, 0) == 0);
    assert(iter_rot(msl, 10, 1) == 3);
    assert(iter_rot(msl, 10, 2) == 4);
    assert(iter_rot(msl, 10, 3) == 2);
    assert(iter_rot(msl, 10, 4) == 7);
    assert(iter_rot(msl, 10, 5) == 6);
    assert(iter_rot(msl, 10, 6) == 1);
    assert(iter_rot(msl, 10, 7) == 5);
    assert(ori_src(msl, 10, 0) == 0);
    assert(ori_acc(msl, 10, 0) == 0);
    assert(ori_src(msl, 10, 1) == 6);
    assert(ori_acc(msl, 10, 1) == 9);
    assert(ori_src(msl, 10, 2) == 3);
    assert(ori_acc(msl, 10, 2) == 1);
    assert(ori_src(msl, 10, 3) == 1);
    assert(ori_acc(msl, 10, 3) == 2);
    assert(ori_src(msl, 10, 4) == 2);
    assert(ori_acc(msl, 10, 4) == 16);
    assert(ori_src(msl, 10, 5) == 7);
    assert(ori_acc(msl, 10, 5) == 8);
    assert(ori_src(msl, 10, 6) == 5);
    assert(ori_acc(msl, 10, 6) == 11);
    assert(ori_src(msl, 10, 7) == 4);
    assert(ori_acc(msl, 10, 7) == 13);
    assert(iter_rot(msl, 7, 0) == 0);
    assert(iter_rot(msl, 14, 0) == 0);
    assert(iter_rot(msl, 7, 1) == 1);
    assert(iter_rot(msl, 14, 1) == 1);
    assert(iter_rot(msl, 7, 2) == 6);
    assert(iter_rot(msl, 14, 2) == 2);
    assert(iter_rot(msl, 7, 3) == 2);
    assert(iter_rot(msl, 14, 3) == 3);
    assert(iter_rot(msl, 7, 4) == 4);
    assert(iter_rot(msl, 14, 4) == 4);
    assert(iter_rot(msl, 7, 5) == 5);
    assert(iter_rot(msl, 14, 5) == 5);
    assert(iter_rot(msl, 7, 6) == 7);
    assert(iter_rot(msl, 14, 6) == 6);
    assert(iter_rot(msl, 7, 7) == 3);
    assert(iter_rot(msl, 14, 7) == 7);
    assert(ori_src(msl, 7, 0) == 0);
    assert(ori_acc(msl, 7, 0) == 0);
    assert(ori_src(msl, 7, 1) == 1);
    assert(ori_acc(msl, 7, 1) == 2);
    assert(ori_src(msl, 7, 2) == 3);
    assert(ori_acc(msl, 7, 2) == 1);
    assert(ori_src(msl, 7, 3) == 7);
    assert(ori_acc(msl, 7, 3) == 4);
    assert(ori_src(msl, 7, 4) == 4);
    assert(ori_acc(msl, 7, 4) == 4);
    assert(ori_src(msl, 7, 5) == 5);
    assert(ori_acc(msl, 7, 5) == 2);
    assert(ori_src(msl, 7, 6) == 2);
    assert(ori_acc(msl, 7, 6) == 6);
    assert(ori_src(msl, 7, 7) == 6);
    assert(ori_acc(msl, 7, 7) == 5);
    assert(ori_src(msl, 14, 0) == 0);
    assert(ori_acc(msl, 14, 0) == 0);
    assert(ori_src(msl, 14, 1) == 1);
    assert(ori_acc(msl, 14, 1) == 6);
    assert(ori_src(msl, 14, 2) == 2);
    assert(ori_acc(msl, 14, 2) == 24);
    assert(ori_src(msl, 14, 3) == 3);
    assert(ori_acc(msl, 14, 3) == 6);
    assert(ori_src(msl, 14, 4) == 4);
    assert(ori_acc(msl, 14, 4) == 18);
    assert(ori_src(msl, 14, 5) == 5);
    assert(ori_acc(msl, 14, 5) == 16);
    assert(ori_src(msl, 14, 6) == 6);
    assert(ori_acc(msl, 14, 6) == 14);
    assert(ori_src(msl, 14, 7) == 7);
    assert(ori_acc(msl, 14, 7) == 12);
    assert forall|k: int| 0 <= k < 8 implies #[trigger] pos_net(twist_seq_for(5, 6))[k] == id_perm()[k] by {
        lemma_pos_run_pointwise(msl, id_perm(), 14, k);
        if k == 0 {
            assert(id_perm()[0] == 0u8);
            assert(pos_net(twist_seq_for(5, 6))[0] == 0u8);
        } else if k == 1 {
            assert(id_perm()[1] == 1u8);
            assert(pos_net(twist_seq_for(5, 6))[1] == 1u8);
        } else if k == 2 {
            assert(id_perm()[2] == 2u8);
            assert(pos_net(twist_seq_for(5, 6))[2] == 2u8);
        } else if k == 3 {
            assert(id_perm()[3] == 3u8);
            assert(pos_net(twist_seq_for(5, 6))[3] == 3u8);
        } else if k == 4 {
            assert(id_perm()[4] == 4u8);
            assert(pos_net(twist_seq_for(5, 6))[4] == 4u8);
        } else if k == 5 {
            assert(id_perm()[5] == 5u8);
            assert(pos_net(twist_seq_for(5, 6))[5] == 5u8);
        } else if k == 6 {
            assert(id_perm()[6] == 6u8);
            assert(pos_net(twist_seq_for(5, 6))[6] == 6u8);
        } else if k == 7 {
            assert(id_perm()[7] == 7u8);
            assert(pos_net(twist_seq_for(5, 6))[7] == 7u8);
        }
    }
    lemma_pos_run_pointwise(msl, id_perm(), 14, 0);
    assert(pos_net(twist_seq_for(5, 6)) =~= id_perm());
    assert forall|t: int| 0 <= t < 8 implies ori_src(twist_seq_for(5, 6), 14, t) == t && #[trigger] ori_acc(twist_seq_for(5, 6), 14, t) % 3 == twist_delta(5, 6, t) by {
        if t == 0 {
            assert(ori_acc(msl, 14, 0) % 3 == 0);
        } else if t == 1 {
            assert(ori_acc(msl, 14, 1) % 3 == 0);
        } else if t == 2 {
            assert(ori_acc(msl, 14, 2) % 3 == 0);
        } else if t == 3 {
            assert(ori_acc(msl, 14, 3) % 3 == 0);
        } else if t == 4 {
            assert(ori_acc(msl, 14, 4) % 3 == 0);
        } else if t == 5 {
            assert(ori_acc(msl, 14, 5) % 3 == 1);
        } else if t == 6 {
            assert(ori_acc(msl, 14, 6) % 3 == 2);
        } else if t == 7 {
            assert(ori_acc(msl, 14, 7) % 3 == 0);
        }
    }
}

#[verifier::rlimit(100)]
#[verifier::spinoff_prover]
proof fn twist_pair_5_7()
    ensures
        twist_pair_ok(5, 7),
{
    reveal_with_fuel(iter_rot, 16);
    reveal_with_fuel(ori_src, 16);
    reveal_with_fuel(ori_acc, 16);
    crate::positions::lemma_move_rot_table();
    crate::orientations::lemma_q_back_table();
    reveal(twist_seq_for);
    let msl: Seq<Move> = seq![Move::F1, Move::R3, Move::F1, Move::R3, Move::F1, Move::R3, Move::F3, Move::R1, Move::F3, Move::R1, Move::F3, Move::R1];
    assert(twist_seq_for(5, 7) =~= msl);
    assert(iter_rot(msl, 3, 0) == 0);
    assert(iter_rot(msl, 3, 1) == 7);
    assert(iter_rot(msl, 3, 2) == 2);
    assert(iter_rot(msl, 3, 3) == 1);
    assert(iter_rot(msl, 3, 4) == 6);
    assert(iter_rot(msl, 3, 5) == 3);
    assert(iter_rot(msl, 3, 6) == 5);
    assert(iter_rot(msl, 3, 7) == 4);
    assert(ori_src(msl, 3, 0) == 0);
    assert(ori_acc(msl, 3, 0) == 0);
    assert(ori_src(msl, 3, 1) == 3);
    assert(ori_acc(msl, 3, 1) == 0);
    assert(ori_src(msl, 3, 2) == 2);
    assert(ori_acc(msl, 3, 2) == 0);
    assert(ori_src(msl, 3, 3) == 5);
    assert(ori_acc(msl, 3, 3) == 2);
    assert(ori_src(msl, 3, 4) == 7);
    assert(ori_acc(msl, 3, 4) == 3);
    assert(ori_src(msl, 3, 5) == 6);
    assert(ori_acc(msl, 3, 5) == 3);
    assert(ori_src(msl, 3, 6) == 4);
    assert(ori_acc(msl, 3, 6) == 2);
    assert(ori_src(msl, 3, 7) == 1);
    assert(ori_acc(msl, 3, 7) == 2);
    assert(iter_rot(msl, 9, 0) == 0);
    assert(iter_rot(msl, 9, 1) == 3);
    assert(iter_rot(msl, 9, 2) == 2);
    assert(iter_rot(msl, 9, 3) == 5);
    assert(iter_rot(msl, 9, 4) == 7);
    assert(iter_rot(msl, 9, 5) == 6);
    assert(iter_rot(msl, 9, 6) == 4);
    assert(iter_rot(msl, 9, 7) == 1);
    assert(ori_src(msl, 9, 0) == 0);
    assert(ori_acc(msl, 9, 0) == 0);
    assert(ori_src(msl, 9, 1) == 7);
    assert(ori_acc(msl, 9, 1) == 8);
    assert(ori_src(msl, 9, 2) == 2);
    assert(ori_acc(msl, 9, 2) == 0);
    assert(ori_src(msl, 9, 3) == 1);
    assert(ori_acc(msl, 9, 3) == 2);
    assert(ori_src(msl, 9, 4) == 6);
    assert(ori_acc(msl, 9, 4) == 14);
    assert(ori_src(msl, 9, 5) == 3);
    assert(ori_acc(msl, 9, 5) == 6);
    assert(ori_src(msl, 9, 6) == 5);
    assert(ori_acc(msl, 9, 6) == 11);
    assert(ori_src(msl, 9, 7) == 4);
    assert(ori_acc(msl, 9, 7) == 13);
    assert(iter_rot(msl, 6, 0) == 0);
    assert(iter_rot(msl, 12, 0) == 0);
    assert(iter_rot(msl, 6, 1) == 1);
    assert(iter_rot(msl, 12, 1) == 1);
    assert(iter_rot(msl, 6, 2) == 2);
    assert(iter_rot(msl, 12, 2) == 2);
    assert(iter_rot(msl, 6, 3) == 3);
    assert(iter_rot(msl, 12, 3) == 3);
    assert(iter_rot(msl, 6, 4) == 4);
    assert(iter_rot(msl, 12, 4) == 4);
    assert(iter_rot(msl, 6, 5) == 5);
    assert(iter_rot(msl, 12, 5) == 5);
    assert(iter_rot(msl, 6, 6) == 6);
    assert(iter_rot(msl, 12, 6) == 6);
    assert(iter_rot(msl, 6, 7) == 7);
    assert(iter_rot(msl, 12, 7) == 7);
    assert(ori_src(msl, 6, 0) == 0);
    assert(ori_acc(msl, 6, 0) == 0);
    assert(ori_src(msl, 6, 1) == 1);
    assert(ori_acc(msl, 6, 1) == 2);
    assert(ori_src(msl, 6, 2) == 2);
    assert(ori_acc(msl, 6, 2) == 0);
    assert(ori_src(msl, 6, 3) == 3);
    assert(ori_acc(msl, 6, 3) == 2);
    assert(ori_src(msl, 6, 4) == 4);
    assert(ori_acc(msl, 6, 4) == 4);
    assert(ori_src(msl, 6, 5) == 5);
    assert(ori_acc(msl, 6, 5) == 2);
    assert(ori_src(msl, 6, 6) == 6);
    assert(ori_acc(msl, 6, 6) == 4);
    assert(ori_src(msl, 6, 7) == 7);
    assert(ori_acc(msl, 6, 7) == 4);
    assert(ori_src(msl, 12, 0) == 0);
    assert(ori_acc(msl, 12, 0) == 0);
    assert(ori_src(msl, 12, 1) == 1);
    assert(ori_acc(msl, 12, 1) == 6);
    assert(ori_src(msl, 12, 2) == 2);
    assert(ori_acc(msl, 12, 2) == 0);
    assert(ori_src(msl, 12, 3) == 3);
    assert(ori_acc(msl, 12, 3) == 6);
    assert(ori_src(msl, 12, 4) == 4);
    assert(ori_acc(msl, 12, 4) == 18);
    assert(ori_src(msl, 12, 5) == 5);
    assert(ori_acc(msl, 12, 5) == 16);
    assert(ori_src(msl, 12, 6) == 6);
    assert(ori_acc(msl, 12, 6) == 18);
    assert(ori_src(msl, 12, 7) == 7);
    assert(ori_acc(msl, 12, 7) == 8);
    assert forall|k: int| 0 <= k < 8 implies #[trigger] pos_net(twist_seq_for(5, 7))[k] == id_perm()[k] by {
        lemma_pos_run_pointwise(msl, id_perm(), 12, k);
        if k == 0 {
            assert(id_perm()[0] == 0u8);
            assert(pos_net(twist_seq_for(5, 7))[0] == 0u8);
        } else if k == 1 {
            assert(id_perm()[1] == 1u8);
            assert(pos_net(twist_seq_for(5, 7))[1] == 1u8);
        } else if k == 2 {
            assert(id_perm()[2] == 2u8);
            assert(pos_net(twist_seq_for(5, 7))[2] == 2u8);
        } else if k == 3 {
            assert(id_perm()[3] == 3u8);
            assert(pos_net(twist_seq_for(5, 7))[3] == 3u8);
        } else if k == 4 {
            assert(id_perm()[4] == 4u8);
            assert(pos_net(twist_seq_for(5, 7))[4] == 4u8);
        } else if k == 5 {
            assert(id_perm()[5] == 5u8);
            assert(pos_net(twist_seq_for(5, 7))[5] == 5u8);
        } else if k == 6 {
            assert(id_perm()[6] == 6u8);
            assert(pos_net(twist_seq_for(5, 7))[6] == 6u8);
        } else if k == 7 {
            assert(id_perm()[7] == 7u8);
            assert(pos_net(twist_seq_for(5, 7))[7] == 7u8);
        }
    }
    lemma_pos_run_pointwise(msl, id_perm(), 12, 0);
    assert(pos_net(twist_seq_for(5, 7)) =~= id_perm());
    assert forall|t: int| 0 <= t < 8 implies ori_src(twist_seq_for(5, 7), 12, t) == t && #[trigger] ori_acc(twist_seq_for(5, 7), 12, t) % 3 == twist_delta(5, 7, t) by {
        if t == 0 {
            assert(ori_acc(msl, 12, 0) % 3 == 0);
        } else if t == 1 {
            assert(ori_acc(msl, 12, 1) % 3 == 0);
        } else if t == 2 {
            assert(ori_acc(msl, 12, 2) % 3 == 0);
        } else if t == 3 {
            assert(ori_acc(msl, 12, 3) % 3 == 0);
        } else if t == 4 {
            assert(ori_acc(msl, 12, 4) % 3 == 0);
        } else if t == 5 {
            assert(ori_acc(msl, 12, 5) % 3 == 1);
        } else if t == 6 {
            assert(ori_acc(msl, 12, 6) % 3 == 0);
        } else if t == 7 {
            assert(ori_acc(msl, 12, 7) % 3 == 2);
        }
    }
}

#[verifier::rlimit(100)]
#[verifier::spinoff_prover]
proof fn twist_pair_6_0()
    ensures
        twist_pair_ok(6, 0),
{
    reveal_with_fuel(iter_rot, 16);
    reveal_with_fuel(ori_src, 16);
    reveal_with_fuel(ori_acc, 16);
    crate::positions::lemma_move_rot_table();
    crate::orientations::lemma_q_back_table();
    reveal(twist_seq_for);
    let msl: Seq<Move> = seq![Move::B1, Move::L1, Move::U3, Move::L1, Move::U3, Move::L1, Move::U3, Move::L3, Move::U1, Move::L3, Move::U1, Move::L3, Move::U1, Move::B3];
    assert(twist_seq_for(6, 0) =~= msl);
    assert(iter_rot(msl, 3, 0) == 0);
    assert(iter_rot(msl, 3, 1) == 4);
    assert(iter_rot(msl, 3, 2) == 7);
    assert(iter_rot(msl, 3, 3) == 1);
    assert(iter_rot(msl, 3, 4) == 2);
    assert(iter_rot(msl, 3, 5) == 5);
    assert(iter_rot(msl, 3, 6) == 3);
    assert(iter_rot(msl, 3, 7) == 6);
    assert(ori_src(msl, 3, 0) == 0);
    assert(ori_acc(msl, 3, 0) == 2);
    assert(ori_src(msl, 3, 1) == 3);
    assert(ori_acc(msl, 3, 1) == 2);
    assert(ori_src(msl, 3, 2) == 4);
    assert(ori_acc(msl, 3, 2) == 4);
    assert(ori_src(msl, 3, 3) == 6);
    assert(ori_acc(msl, 3, 3) == 5);
    assert(ori_src(msl, 3, 4) == 1);
    assert(ori_acc(msl, 3, 4) == 1);
    assert(ori_src(msl, 3, 5) == 5);
    assert(ori_acc(msl, 3, 5) == 0);
    assert(ori_src(msl, 3, 6) == 7);
    assert(ori_acc(msl, 3, 6) == 5);
    assert(ori_src(msl, 3, 7) == 2);
    assert(ori_acc(msl, 3, 7) == 5);
    assert(iter_rot(msl, 10, 0) == 7);
    assert(iter_rot(msl, 10, 1) == 4);
    assert(iter_rot(msl, 10, 2) == 6);
    assert(iter_rot(msl, 10, 3) == 1);
    assert(iter_rot(msl, 10, 4) == 2);
    assert(iter_rot(msl, 10, 5) == 5);
    assert(iter_rot(msl, 10, 6) == 0);
    assert(iter_rot(msl, 10, 7) == 3);
    assert(ori_src(msl, 10, 0) == 6);
    assert(ori_acc(msl, 10, 0) == 14);
    assert(ori_src(msl, 10, 1) == 3);
    assert(ori_acc(msl, 10, 1) == 2);
    assert(ori_src(msl, 10, 2) == 4);
    assert(ori_acc(msl, 10, 2) == 4);
    assert(ori_src(msl, 10, 3) == 7);
    assert(ori_acc(msl, 10, 3) == 16);
    assert(ori_src(msl, 10, 4) == 1);
    assert(ori_acc(msl, 10, 4) == 7);
    assert(ori_src(msl, 10, 5) == 5);
    assert(ori_acc(msl, 10, 5) == 0);
    assert(ori_src(msl, 10, 6) == 2);
    assert(ori_acc(msl, 10, 6) == 16);
    assert(ori_src(msl, 10, 7) == 0);
    assert(ori_acc(msl, 10, 7) == 7);
    assert(iter_rot(msl, 7, 0) == 2);
    assert(iter_rot(msl, 14, 0) == 0);
    assert(iter_rot(msl, 7, 1) == 0);
    assert(iter_rot(msl, 14, 1) == 1);
    assert(iter_rot(msl, 7, 2) == 3);
    assert(iter_rot(msl, 14, 2) == 2);
    assert(iter_rot(msl, 7, 3) == 1);
    assert(iter_rot(msl, 14, 3) == 3);
    assert(iter_rot(msl, 7, 4) == 4);
    assert(iter_rot(msl, 14, 4) == 4);
    assert(iter_rot(msl, 7, 5) == 5);
    assert(iter_rot(msl, 14, 5) == 5);
    assert(iter_rot(msl, 7, 6) == 6);
    assert(iter_rot(msl, 14, 6) == 6);
    assert(iter_rot(msl, 7, 7) == 7);
    assert(iter_rot(msl, 14, 7) == 7);
    assert(ori_src(msl, 7, 0) == 1);
    assert(ori_acc(msl, 7, 0) == 5);
    assert(ori_src(msl, 7, 1) == 3);
    assert(ori_acc(msl, 7, 1) == 2);
    assert(ori_src(msl, 7, 2) == 0);
    assert(ori_acc(msl, 7, 2) == 6);
    assert(ori_src(msl, 7, 3) == 2);
    assert(ori_acc(msl, 7, 3) == 15);
    assert(ori_src(msl, 7, 4) == 4);
    assert(ori_acc(msl, 7, 4) == 4);
    assert(ori_src(msl, 7, 5) == 5);
    assert(ori_acc(msl, 7, 5) == 0);
    assert(ori_src(msl, 7, 6) == 6);
    assert(ori_acc(msl, 7, 6) == 14);
    assert(ori_src(msl, 7, 7) == 7);
    assert(ori_acc(msl, 7, 7) == 14);
    assert(ori_src(msl, 14, 0) == 0);
    assert(ori_acc(msl, 14, 0) == 14);
    assert(ori_src(msl, 14, 1) == 1);
    assert(ori_acc(msl, 14, 1) == 12);
    assert(ori_src(msl, 14, 2) == 2);
    assert(ori_acc(msl, 14, 2) == 24);
    assert(ori_src(msl, 14, 3) == 3);
    assert(ori_acc(msl, 14, 3) == 6);
    assert(ori_src(msl, 14, 4) == 4);
    assert(ori_acc(msl, 14, 4) == 6);
    assert(ori_src(msl, 14, 5) == 5);
    assert(ori_acc(msl, 14, 5) == 0);
    assert(ori_src(msl, 14, 6) == 6);
    assert(ori_acc(msl, 14, 6) == 16);
    assert(ori_src(msl, 14, 7) == 7);
    assert(ori_acc(msl, 14, 7) == 18);
    assert forall|k: int| 0 <= k < 8 implies #[trigger] pos_net(twist_seq_for(6, 0))[k] == id_perm()[k] by {
        lemma_pos_run_pointwise(msl, id_perm(), 14, k);
        if k == 0 {
            assert(id_perm()[0] == 0u8);
            assert(pos_net(twist_seq_for(6, 0))[0] == 0u8);
        } else if k == 1 {
            assert(id_perm()[1] == 1u8);
            assert(pos_net(twist_seq_for(6, 0))[1] == 1u8);
        } else if k == 2 {
            assert(id_perm()[2] == 2u8);
            assert(pos_net(twist_seq_for(6, 0))[2] == 2u8);
        } else if k == 3 {
            assert(id_perm()[3] == 3u8);
            assert(pos_net(twist_seq_for(6, 0))[3] == 3u8);
        } else if k == 4 {
            assert(id_perm()[4] == 4u8);
            assert(pos_net(twist_seq_for(6, 0))[4] == 4u8);
        } else if k == 5 {
            assert(id_perm()[5] == 5u8);
            assert(pos_net(twist_seq_for(6, 0))[5] == 5u8);
        } else if k == 6 {
            assert(id_perm()[6] == 6u8);
            assert(pos_net(twist_seq_for(6, 0))[6] == 6u8);
        } else if k == 7 {
            assert(id_perm()[7] == 7u8);
            assert(pos_net(twist_seq_for(6, 0))[7] == 7u8);
        }
    }
    lemma_pos_run_pointwise(msl, id_perm(), 14, 0);
    assert(pos_net(twist_seq_for(6, 0)) =~= id_perm());
    assert forall|t: int| 0 <= t < 8 implies ori_src(twist_seq_for(6, 0), 14, t) == t && #[trigger] ori_acc(twist_seq_for(6, 0), 14, t) % 3 == twist_delta(6, 0, t) by {
        if t == 0 {
            assert(ori_acc(msl, 14, 0) % 3 == 2);
        } else if t == 1 {
            assert(ori_acc(msl, 14, 1) % 3 == 0);
        } else if t == 2 {
            assert(ori_acc(msl, 14, 2) % 3 == 0);
        } else if t == 3 {
            assert(ori_acc(msl, 14, 3) % 3 == 0);
        } else if t == 4 {
            assert(ori_acc(msl, 14, 4) % 3 == 0);
        } else if t == 5 {
            assert(ori_acc(msl, 14, 5) % 3 == 0);
        } else if t == 6 {
            assert(ori_acc(msl, 14, 6) % 3 == 1);
        } else if t == 7 {
            assert(ori_acc(msl, 14, 7) % 3 == 0);
        }
    }
}

#[verifier::rlimit(100)]
#[verifier::spinoff_prover]
proof fn twist_pair_6_1()
    ensures
        twist_pair_ok(6, 1),
{
    reveal_with_fuel(iter_rot, 16);
    reveal_with_fuel(ori_src, 16);
    reveal_with_fuel(ori_acc, 16);
    crate::positions::lemma_move_rot_table();
    crate::orientations::lemma_q_back_table();
    reveal(twist_seq_for);
    let msl: Seq<Move> = seq![Move::B2, Move::L1, Move::U3, Move::L1, Move::U3, Move::L1, Move::U3, Move::L3, Move::U1, Move::L3, Move::U1, Move::L3, Move::U1, Move::B2];
    assert(twist_seq_for(6, 1) =~= msl);
    assert(iter_rot(msl, 3, 0) == 7);
    assert(iter_rot(msl, 3, 1) == 0);
    assert(iter_rot(msl, 3, 2) == 1);
    assert(iter_rot(msl, 3, 3) == 4);
    assert(iter_rot(msl, 3, 4) == 2);
    assert(iter_rot(msl, 3, 5) == 5);
    assert(iter_rot(msl, 3, 6) == 3);
    assert(iter_rot(msl, 3, 7) == 6);
    assert(ori_src(msl, 3, 0) == 1);
    assert(ori_acc(msl, 3, 0) == 3);
    assert(ori_src(msl, 3, 1) == 2);
    assert(ori_acc(msl, 3, 1) == 3);
    assert(ori_src(msl, 3, 2) == 4);
    assert(ori_acc(msl, 3, 2) == 4);
    assert(ori_src(msl, 3, 3) == 6);
    assert(ori_acc(msl, 3, 3) == 5);
    assert(ori_src(msl, 3, 4) == 3);
    assert(ori_acc(msl, 3, 4) == 3);
    assert(ori_src(msl, 3, 5) == 5);
    assert(ori_acc(msl, 3, 5) == 0);
    assert(ori_src(msl, 3, 6) == 7);
    assert(ori_acc(msl, 3, 6) == 5);
    assert(ori_src(msl, 3, 7) == 0);
    assert(ori_acc(msl, 3, 7) == 7);
    assert(iter_rot(msl, 10, 0) == 6);
    assert(iter_rot(msl, 10, 1) == 7);
    assert(iter_rot(msl, 10, 2) == 1);
    assert(iter_rot(msl, 10, 3) == 4);
    assert(iter_rot(msl, 10, 4) == 2);
    assert(iter_rot(msl, 10, 5) == 5);
    assert(iter_rot(msl, 10, 6) == 0);
    assert(iter_rot(msl, 10, 7) == 3);
    assert(ori_src(msl, 10, 0) == 6);
    assert(ori_acc(msl, 10, 0) == 14);
    assert(ori_src(msl, 10, 1) == 2);
    assert(ori_acc(msl, 10, 1) == 3);
    assert(ori_src(msl, 10, 2) == 4);
    assert(ori_acc(msl, 10, 2) == 4);
    assert(ori_src(msl, 10, 3) == 7);
    assert(ori_acc(msl, 10, 3) == 16);
    assert(ori_src(msl, 10, 4) == 3);
    assert(ori_acc(msl, 10, 4) == 9);
    assert(ori_src(msl, 10, 5) == 5);
    assert(ori_acc(msl, 10, 5) == 0);
    assert(ori_src(msl, 10, 6) == 0);
    assert(ori_acc(msl, 10, 6) == 18);
    assert(ori_src(msl, 10, 7) == 1);
    assert(ori_acc(msl, 10, 7) == 8);
    assert(iter_rot(msl, 7, 0) == 3);
    assert(iter_rot(msl, 14, 0) == 0);
    assert(iter_rot(msl, 7, 1) == 2);
    assert(iter_rot(msl, 14, 1) == 1);
    assert(iter_rot(msl, 7, 2) == 1);
    assert(iter_rot(msl, 14, 2) == 2);
    assert(iter_rot(msl, 7, 3) == 0);
    assert(iter_rot(msl, 14, 3) == 3);
    assert(iter_rot(msl, 7, 4) == 4);
    assert(iter_rot(msl, 14, 4) == 4);
    assert(iter_rot(msl, 7, 5) == 5);
    assert(iter_rot(msl, 14, 5) == 5);
    assert(iter_rot(msl, 7, 6) == 6);
    assert(iter_rot(msl, 14, 6) == 6);
    assert(iter_rot(msl, 7, 7) == 7);
    assert(iter_rot(msl, 14, 7) == 7);
    assert(ori_src(msl, 7, 0) == 3);
    assert(ori_acc(msl, 7, 0) == 7);
    assert(ori_src(msl, 7, 1) == 2);
    assert(ori_acc(msl, 7, 1) == 3);
    assert(ori_src(msl, 7, 2) == 1);
    assert(ori_acc(msl, 7, 2) == 7);
    assert(ori_src(msl, 7, 3) == 0);
    assert(ori_acc(msl, 7, 3) == 17);
    assert(ori_src(msl, 7, 4) == 4);
    assert(ori_acc(msl, 7, 4) == 4);
    assert(ori_src(msl, 7, 5) == 5);
    assert(ori_acc(msl, 7, 5) == 0);
    assert(ori_src(msl, 7, 6) == 6);
    assert(ori_acc(msl, 7, 6) == 14);
    assert(ori_src(msl, 7, 7) == 7);
    assert(ori_acc(msl, 7, 7) == 14);
    assert(ori_src(msl, 14, 0) == 0);
    assert(ori_acc(msl, 14, 0) == 24);
    assert(ori_src(msl, 14, 1) == 1);
    assert(ori_acc(msl, 14, 1) == 14);
    assert(ori_src(msl, 14, 2) == 2);
    assert(ori_acc(msl, 14, 2) == 6);
    assert(ori_src(msl, 14, 3) == 3);
    assert(ori_acc(msl, 14, 3) == 12);
    assert(ori_src(msl, 14, 4) == 4);
    assert(ori_acc(msl, 14, 4) == 6);
    assert(ori_src(msl, 14, 5) == 5);
    assert(ori_acc(msl, 14, 5) == 0);
    assert(ori_src(msl, 14, 6) == 6);
    assert(ori_acc(msl, 14, 6) == 16);
    assert(ori_src(msl, 14, 7) == 7);
    assert(ori_acc(msl, 14, 7) == 18);
    assert forall|k: int| 0 <= k < 8 implies #[trigger] pos_net(twist_seq_for(6, 1))[k] == id_perm()[k] by {
        lemma_pos_run_pointwise(msl, id_perm(), 14, k);
        if k == 0 {
            assert(id_perm()[0] == 0u8);
            assert(pos_net(twist_seq_for(6, 1))[0] == 0u8);
        } else if k == 1 {
            assert(id_perm()[1] == 1u8);
            assert(pos_net(twist_seq_for(6, 1))[1] == 1u8);
        } else if k == 2 {
            assert(id_perm()[2] == 2u8);
            assert(pos_net(twist_seq_for(6, 1))[2] == 2u8);
        } else if k == 3 {
            assert(id_perm()[3] == 3u8);
            assert(pos_net(twist_seq_for(6, 1))[3] == 3u8);
        } else if k == 4 {
            assert(id_perm()[4] == 4u8);
            assert(pos_net(twist_seq_for(6, 1))[4] == 4u8);
        } else if k == 5 {
            assert(id_perm()[5] == 5u8);
            assert(pos_net(twist_seq_for(6, 1))[5] == 5u8);
        } else if k == 6 {
            assert(id_perm()[6] == 6u8);
            assert(pos_net(twist_seq_for(6, 1))[6] == 6u8);
        } else if k == 7 {
            assert(id_perm()[7] == 7u8);
            assert(pos_net(twist_seq_for(6, 1))[7] == 7u8);
        }
    }
    lemma_pos_run_pointwise(msl, id_perm(), 14, 0);
    assert(pos_net(twist_seq_for(6, 1)) =~= id_perm());
    assert forall|t: int| 0 <= t < 8 implies ori_src(twist_seq_for(6, 1), 14, t) == t && #[trigger] ori_acc(twist_seq_for(6, 1), 14, t) % 3 == twist_delta(6, 1, t) by {
        if t == 0 {
            assert(ori_acc(msl, 14, 0) % 3 == 0);
        } else if t == 1 {
            assert(ori_acc(msl, 14, 1) % 3 == 2);
        } else if t == 2 {
            assert(ori_acc(msl, 14, 2) % 3 == 0);
        } else if t == 3 {
            assert(ori_acc(msl, 14, 3) % 3 == 0);
        } else if t == 4 {
            assert(ori_acc(msl, 14, 4) % 3 == 0);
        } else if t == 5 {
            assert(ori_acc(msl, 14, 5) % 3 == 0);
        } else if t == 6 {
            assert(ori_acc(msl, 14, 6) % 3 == 1);
        } else if t == 7 {
            assert(ori_acc(msl, 14, 7) % 3 == 0);
        }
    }
}

#[verifier::rlimit(100)]
#[verifier::spinoff_prover]
proof fn twist_pair_6_2()
    ensures
        twist_pair_ok(6, 2),
{
    reveal_with_fuel(iter_rot, 16);
    reveal_with_fuel(ori_src, 16);
    reveal_with_fuel(ori_acc, 16);
    crate::positions::lemma_move_rot_table();
    crate::orientations::lemma_q_back_table();
    reveal(twist_seq_for);
    let msl: Seq<Move> = seq![Move::L1, Move::U3, Move::L1, Move::U3, Move::L1, Move::U3, Move::L3, Move::U1, Move::L3, Move::U1, Move::L3, Move::U1];
    assert(twist_seq_for(6, 2) =~= msl);
    assert(iter_rot(msl, 3, 0) == 6);
    assert(iter_rot(msl, 3, 1) == 1);
    assert(iter_rot(msl, 3, 2) == 4);
    assert(iter_rot(msl, 3, 3) == 7);
    assert(iter_rot(msl, 3, 4) == 0);
    assert(iter_rot(msl, 3, 5) == 5);
    assert(iter_rot(msl, 3, 6) == 3);
    assert(iter_rot(msl, 3, 7) == 2);
    assert(ori_src(msl, 3, 0) == 4);
    assert(ori_acc(msl, 3, 0) == 4);
    assert(ori_src(msl, 3, 1) == 1);
    assert(ori_acc(msl, 3, 1) == 0);
    assert(ori_src(msl, 3, 2) == 7);
    assert(ori_acc(msl, 3, 2) == 5);
    assert(ori_src(msl, 3, 3) == 6);
    assert(ori_acc(msl, 3, 3) == 5);
    assert(ori_src(msl, 3, 4) == 2);
    assert(ori_acc(msl, 3, 4) == 0);
    assert(ori_src(msl, 3, 5) == 5);
    assert(ori_acc(msl, 3, 5) == 0);
    assert(ori_src(msl, 3, 6) == 0);
    assert(ori_acc(msl, 3, 6) == 0);
    assert(ori_src(msl, 3, 7) == 3);
    assert(ori_acc(msl, 3, 7) == 4);
    assert(iter_rot(msl, 9, 0) == 4);
    assert(iter_rot(msl, 9, 1) == 1);
    assert(iter_rot(msl, 9, 2) == 7);
    assert(iter_rot(msl, 9, 3) == 6);
    assert(iter_rot(msl, 9, 4) == 2);
    assert(iter_rot(msl, 9, 5) == 5);
    assert(iter_rot(msl, 9, 6) == 0);
    assert(iter_rot(msl, 9, 7) == 3);
    assert(ori_src(msl, 9, 0) == 6);
    assert(ori_acc(msl, 9, 0) == 14);
    assert(ori_src(msl, 9, 1) == 1);
    assert(ori_acc(msl, 9, 1) == 0);
    assert(ori_src(msl, 9, 2) == 4);
    assert(ori_acc(msl, 9, 2) == 4);
    assert(ori_src(msl, 9, 3) == 7);
    assert(ori_acc(msl, 9, 3) == 16);
    assert(ori_src(msl, 9, 4) == 0);
    assert(ori_acc(msl, 9, 4) == 6);
    assert(ori_src(msl, 9, 5) == 5);
    assert(ori_acc(msl, 9, 5) == 0);
    assert(ori_src(msl, 9, 6) == 3);
    assert(ori_acc(msl, 9, 6) == 15);
    assert(ori_src(msl, 9, 7) == 2);
    assert(ori_acc(msl, 9, 7) == 5);
    assert(iter_rot(msl, 6, 0) == 0);
    assert(iter_rot(msl, 12, 0) == 0);
    assert(iter_rot(msl, 6, 1) == 1);
    assert(iter_rot(msl, 12, 1) == 1);
    assert(iter_rot(msl, 6, 2) == 2);
    assert(iter_rot(msl, 12, 2) == 2);
    assert(iter_rot(msl, 6, 3) == 3);
    assert(iter_rot(msl, 12, 3) == 3);
    assert(iter_rot(msl, 6, 4) == 4);
    assert(iter_rot(msl, 12, 4) == 4);
    assert(iter_rot(msl, 6, 5) == 5);
    assert(iter_rot(msl, 12, 5) == 5);
    assert(iter_rot(msl, 6, 6) == 6);
    assert(iter_rot(msl, 12, 6) == 6);
    assert(iter_rot(msl, 6, 7) == 7);
    assert(iter_rot(msl, 12, 7) == 7);
    assert(ori_src(msl, 6, 0) == 0);
    assert(ori_acc(msl, 6, 0) == 4);
    assert(ori_src(msl, 6, 1) == 1);
    assert(ori_acc(msl, 6, 1) == 0);
    assert(ori_src(msl, 6, 2) == 2);
    assert(ori_acc(msl, 6, 2) == 4);
    assert(ori_src(msl, 6, 3) == 3);
    assert(ori_acc(msl, 6, 3) == 14);
    assert(ori_src(msl, 6, 4) == 4);
    assert(ori_acc(msl, 6, 4) == 4);
    assert(ori_src(msl, 6, 5) == 5);
    assert(ori_acc(msl, 6, 5) == 0);
    assert(ori_src(msl, 6, 6) == 6);
    assert(ori_acc(msl, 6, 6) == 14);
    assert(ori_src(msl, 6, 7) == 7);
    assert(ori_acc(msl, 6, 7) == 14);
    assert(ori_src(msl, 12, 0) == 0);
    assert(ori_acc(msl, 12, 0) == 6);
    assert(ori_src(msl, 12, 1) == 1);
    assert(ori_acc(msl, 12, 1) == 0);
    assert(ori_src(msl, 12, 2) == 2);
    assert(ori_acc(msl, 12, 2) == 8);
    assert(ori_src(msl, 12, 3) == 3);
    assert(ori_acc(msl, 12, 3) == 18);
    assert(ori_src(msl, 12, 4) == 4);
    assert(ori_acc(msl, 12, 4) == 6);
    assert(ori_src(msl, 12, 5) == 5);
    assert(ori_acc(msl, 12, 5) == 0);
    assert(ori_src(msl, 12, 6) == 6);
    assert(ori_acc(msl, 12, 6) == 16);
    assert(ori_src(msl, 12, 7) == 7);
    assert(ori_acc(msl, 12, 7) == 18);
    assert forall|k: int| 0 <= k < 8 implies #[trigger] pos_net(twist_seq_for(6, 2))[k] == id_perm()[k] by {
        lemma_pos_run_pointwise(msl, id_perm(), 12, k);
        if k == 0 {
            assert(id_perm()[0] == 0u8);
            assert(pos_net(twist_seq_for(6, 2))[0] == 0u8);
        } else if k == 1 {
            assert(id_perm()[1] == 1u8);
            assert(pos_net(twist_seq_for(6, 2))[1] == 1u8);
        } else if k == 2 {
            assert(id_perm()[2] == 2u8);
            assert(pos_net(twist_seq_for(6, 2))[2] == 2u8);
        } else if k == 3 {
            assert(id_perm()[3] == 3u8);
            assert(pos_net(twist_seq_for(6, 2))[3] == 3u8);
        } else if k == 4 {
            assert(id_perm()[4] == 4u8);
            assert(pos_net(twist_seq_for(6, 2))[4] == 4u8);
        } else if k == 5 {
            assert(id_perm()[5] == 5u8);
            assert(pos_net(twist_seq_for(6, 2))[5] == 5u8);
        } else if k == 6 {
            assert(id_perm()[6] == 6u8);
            assert(pos_net(twist_seq_for(6, 2))[6] == 6u8);
        } else if k == 7 {
            assert(id_perm()[7] == 7u8);
            assert(pos_net(twist_seq_for(6, 2))[7] == 7u8);
        }
    }
    lemma_pos_run_pointwise(msl, id_perm(), 12, 0);
    assert(pos_net(twist_seq_for(6, 2)) =~= id_perm());
    assert forall|t: int| 0 <= t < 8 implies ori_src(twist_seq_for(6, 2), 12, t) == t && #[trigger] ori_acc(twist_seq_for(6, 2), 12, t) % 3 == twist_delta(6, 2, t) by {
        if t == 0 {
            assert(ori_acc(msl, 12, 0) % 3 == 0);
        } else if t == 1 {
            assert(ori_acc(msl, 12, 1) % 3 == 0);
        } else if t == 2 {
            assert(ori_acc(msl, 12, 2) % 3 == 2);
        } else if t == 3 {
            assert(ori_acc(msl, 12, 3) % 3 == 0);
        } else if t == 4 {
            assert(ori_acc(msl, 12, 4) % 3 == 0);
        } else if t == 5 {
            assert(ori_acc(msl, 12, 5) % 3 == 0);
        } else if t == 6 {
            assert(ori_acc(msl, 12, 6) % 3 == 1);
        } else if t == 7 {
            assert(ori_acc(msl, 12, 7) % 3 == 0);
        }
    }
}

#[verifier::rlimit(100)]
#[verifier::spinoff_prover]
proof fn twist_pair_6_3()
    ensures
        twist_pair_ok(6, 3),
{
    reveal_with_fuel(iter_rot, 16);
    reveal_with_fuel(ori_src, 16);
    reveal_with_fuel(ori_acc, 16);
    crate::positions::lemma_move_rot_table();
    crate::orientations::lemma_q_back_table();
    reveal(twist_seq_for);
    let msl: Seq<Move> = seq![Move::R1, Move::U1, Move::F3, Move::U1, Move::F3, Move::U1, Move::F3, Move::U3, Move::F1, Move::U3, Move::F1, Move::U3, Move::F1, Move::R3];
    assert(twist_seq_for(6, 3) =~= msl);
    assert(iter_rot(msl, 3, 0) == 0);
    assert(iter_rot(msl, 3, 1) == 2);
    assert(iter_rot(msl, 3, 2) == 7);
    assert(iter_rot(msl, 3, 3) == 3);
    assert(iter_rot(msl, 3, 4) == 6);
    assert(iter_rot(msl, 3, 5) == 1);
    assert(iter_rot(msl, 3, 6) == 5);
    assert(iter_rot(msl, 3, 7) == 4);
    assert(ori_src(msl, 3, 0) == 0);
    assert(ori_acc(msl, 3, 0) == 0);
    assert(ori_src(msl, 3, 1) == 5);
    assert(ori_acc(msl, 3, 1) == 0);
    assert(ori_src(msl, 3, 2) == 1);
    assert(ori_acc(msl, 3, 2) == 1);
    assert(ori_src(msl, 3, 3) == 3);
    assert(ori_acc(msl, 3, 3) == 2);
    assert(ori_src(msl, 3, 4) == 7);
    assert(ori_acc(msl, 3, 4) == 5);
    assert(ori_src(msl, 3, 5) == 6);
    assert(ori_acc(msl, 3, 5) == 5);
    assert(ori_src(msl, 3, 6) == 4);
    assert(ori_acc(msl, 3, 6) == 4);
    assert(ori_src(msl, 3, 7) == 2);
    assert(ori_acc(msl, 3, 7) == 7);
    assert(iter_rot(msl, 10, 0) == 0);
    assert(iter_rot(msl, 10, 1) == 2);
    assert(iter_rot(msl, 10, 2) == 7);
    assert(iter_rot(msl, 10, 3) == 4);
    assert(iter_rot(msl, 10, 4) == 5);
    assert(iter_rot(msl, 10, 5) == 1);
    assert(iter_rot(msl, 10, 6) == 3);
    assert(iter_rot(msl, 10, 7) == 6);
    assert(ori_src(msl, 10, 0) == 0);
    assert(ori_acc(msl, 10, 0) == 0);
    assert(ori_src(msl, 10, 1) == 5);
    assert(ori_acc(msl, 10, 1) == 0);
    assert(ori_src(msl, 10, 2) == 1);
    assert(ori_acc(msl, 10, 2) == 19);
    assert(ori_src(msl, 10, 3) == 6);
    assert(ori_acc(msl, 10, 3) == 23);
    assert(ori_src(msl, 10, 4) == 3);
    assert(ori_acc(msl, 10, 4) == 17);
    assert(ori_src(msl, 10, 5) == 4);
    assert(ori_acc(msl, 10, 5) == 15);
    assert(ori_src(msl, 10, 6) == 7);
    assert(ori_acc(msl, 10, 6) == 21);
    assert(ori_src(msl, 10, 7) == 2);
    assert(ori_acc(msl, 10, 7) == 19);
    assert(iter_rot(msl, 7, 0) == 0);
    assert(iter_rot(msl, 14, 0) == 0);
    assert(iter_rot(msl, 7, 1) == 3);
    assert(iter_rot(msl, 14, 1) == 1);
    assert(iter_rot(msl, 7, 2) == 2);
    assert(iter_rot(msl, 14, 2) == 2);
    assert(iter_rot(msl, 7, 3) == 7);
    assert(iter_rot(msl, 14, 3) == 3);
    assert(iter_rot(msl, 7, 4) == 4);
    assert(iter_rot(msl, 14, 4) == 4);
    assert(iter_rot(msl, 7, 5) == 1);
    assert(iter_rot(msl, 14, 5) == 5);
    assert(iter_rot(msl, 7, 6) == 6);
    assert(iter_rot(msl, 14, 6) == 6);
    assert(iter_rot(msl, 7, 7) == 5);
    assert(iter_rot(msl, 14, 7) == 7);
    assert(ori_src(msl, 7, 0) == 0);
    assert(ori_acc(msl, 7, 0) == 0);
    assert(ori_src(msl, 7, 1) == 5);
    assert(ori_acc(msl, 7, 1) == 0);
    assert(ori_src(msl, 7, 2) == 2);
    assert(ori_acc(msl, 7, 2) == 10);
    assert(ori_src(msl, 7, 3) == 1);
    assert(ori_acc(msl, 7, 3) == 10);
    assert(ori_src(msl, 7, 4) == 4);
    assert(ori_acc(msl, 7, 4) == 14);
    assert(ori_src(msl, 7, 5) == 7);
    assert(ori_acc(msl, 7, 5) == 14);
    assert(ori_src(msl, 7, 6) == 6);
    assert(ori_acc(msl, 7, 6) == 14);
    assert(ori_src(msl, 7, 7) == 3);
    assert(ori_acc(msl, 7, 7) == 10);
    assert(ori_src(msl, 14, 0) == 0);
    assert(ori_acc(msl, 14, 0) == 0);
    assert(ori_src(msl, 14, 1) == 1);
    assert(ori_acc(msl, 14, 1) == 24);
    assert(ori_src(msl, 14, 2) == 2);
    assert(ori_acc(msl, 14, 2) == 24);
    assert(ori_src(msl, 14, 3) == 3);
    assert(ori_acc(msl, 14, 3) == 20);
    assert(ori_src(msl, 14, 4) == 4);
    assert(ori_acc(msl, 14, 4) == 24);
    assert(ori_src(msl, 14, 5) == 5);
    assert(ori_acc(msl, 14, 5) == 0);
    assert(ori_src(msl, 14, 6) == 6);
    assert(ori_acc(msl, 14, 6) == 28);
    assert(ori_src(msl, 14, 7) == 7);
    assert(ori_acc(msl, 14, 7) == 24);
    assert forall|k: int| 0 <= k < 8 implies #[trigger] pos_net(twist_seq_for(6, 3))[k] == id_perm()[k] by {
        lemma_pos_run_pointwise(msl, id_perm(), 14, k);
        if k == 0 {
            assert(id_perm()[0] == 0u8);
            assert(pos_net(twist_seq_for(6, 3))[0] == 0u8);
        } else if k == 1 {
            assert(id_perm()[1] == 1u8);
            assert(pos_net(twist_seq_for(6, 3))[1] == 1u8);
        } else if k == 2 {
            assert(id_perm()[2] == 2u8);
            assert(pos_net(twist_seq_for(6, 3))[2] == 2u8);
        } else if k == 3 {
            assert(id_perm()[3] == 3u8);
            assert(pos_net(twist_seq_for(6, 3))[3] == 3u8);
        } else if k == 4 {
            assert(id_perm()[4] == 4u8);
            assert(pos_net(twist_seq_for(6, 3))[4] == 4u8);
        } else if k == 5 {
            assert(id_perm()[5] == 5u8);
            assert(pos_net(twist_seq_for(6, 3))[5] == 5u8);
        } else if k == 6 {
            assert(id_perm()[6] == 6u8);
            assert(pos_net(twist_seq_for(6, 3))[6] == 6u8);
        } else if k == 7 {
            assert(id_perm()[7] == 7u8);
            assert(pos_net(twist_seq_for(6, 3))[7] == 7u8);
        }
    }
    lemma_pos_run_pointwise(msl, id_perm(), 14, 0);
    assert(pos_net(twist_seq_for(6, 3)) =~= id_perm());
    assert forall|t: int| 0 <= t < 8 implies ori_src(twist_seq_for(6, 3), 14, t) == t && #[trigger] ori_acc(twist_seq_for(6, 3), 14, t) % 3 == twist_delta(6, 3, t) by {
        if t == 0 {
            assert(ori_acc(msl, 14, 0) % 3 == 0);
        } else if t == 1 {
            assert(ori_acc(msl, 14, 1) % 3 == 0);
        } else if t == 2 {
            assert(ori_acc(msl, 14, 2) % 3 == 0);
        } else if t == 3 {
            assert(ori_acc(msl, 14, 3) % 3 == 2);
        } else if t == 4 {
            assert(ori_acc(msl, 14, 4) % 3 == 0);
        } else if t == 5 {
            assert(ori_acc(msl, 14, 5) % 3 == 0);
        } else if t == 6 {
            assert(ori_acc(msl, 14, 6) % 3 == 1);
        } else if t == 7 {
            assert(ori_acc(msl, 14, 7) % 3 == 0);
        }
    }
}

#[verifier::rlimit(100)]
#[verifier::spinoff_prover]
proof fn twist_pair_6_4()
    ensures
        twist_pair_ok(6, 4),
{
    reveal_with_fuel(iter_rot, 16);
    reveal_with_fuel(ori_src, 16);
    reveal_with_fuel(ori_acc, 16);
    crate::positions::lemma_move_rot_table();
    crate::orientations::lemma_q_back_table();
    reveal(twist_seq_for);
    let msl: Seq<Move> = seq![Move::F1, Move::L3, Move::F1, Move::L3, Move::F1, Move::L3, Move::F3, Move::L1, Move::F3, Move::L1, Move::F3, Move::L1];
    assert(twist_seq_for(6, 4) =~= msl);
    assert(iter_rot(msl, 3, 0) == 2);
    assert(iter_rot(msl, 3, 1) == 1);
    assert(iter_rot(msl, 3, 2) == 4);
    assert(iter_rot(msl, 3, 3) == 3);
    assert(iter_rot(msl, 3, 4) == 7);
    assert(iter_rot(msl, 3, 5) == 6);
    assert(iter_rot(msl, 3, 6) == 0);
    assert(iter_rot(msl, 3, 7) == 5);
    assert(ori_src(msl, 3, 0) == 6);
    assert(ori_acc(msl, 3, 0) == 2);
    assert(ori_src(msl, 3, 1) == 1);
    assert(ori_acc(msl, 3, 1) == 0);
    assert(ori_src(msl, 3, 2) == 0);
    assert(ori_acc(msl, 3, 2) == 0);
    assert(ori_src(msl, 3, 3) == 3);
    assert(ori_acc(msl, 3, 3) == 0);
    assert(ori_src(msl, 3, 4) == 2);
    assert(ori_acc(msl, 3, 4) == 2);
    assert(ori_src(msl, 3, 5) == 7);
    assert(ori_acc(msl, 3, 5) == 2);
    assert(ori_src(msl, 3, 6) == 5);
    assert(ori_acc(msl, 3, 6) == 3);
    assert(ori_src(msl, 3, 7) == 4);
    assert(ori_acc(msl, 3, 7) == 3);
    assert(iter_rot(msl, 9, 0) == 6);
    assert(iter_rot(msl, 9, 1) == 1);
    assert(iter_rot(msl, 9, 2) == 0);
    assert(iter_rot(msl, 9, 3) == 3);
    assert(iter_rot(msl, 9, 4) == 2);
    assert(iter_rot(msl, 9, 5) == 7);
    assert(iter_rot(msl, 9, 6) == 5);
    assert(iter_rot(msl, 9, 7) == 4);
    assert(ori_src(msl, 9, 0) == 2);
    assert(ori_acc(msl, 9, 0) == 2);
    assert(ori_src(msl, 9, 1) == 1);
    assert(ori_acc(msl, 9, 1) == 0);
    assert(ori_src(msl, 9, 2) == 4);
    assert(ori_acc(msl, 9, 2) == 8);
    assert(ori_src(msl, 9, 3) == 3);
    assert(ori_acc(msl, 9, 3) == 0);
    assert(ori_src(msl, 9, 4) == 7);
    assert(ori_acc(msl, 9, 4) == 13);
    assert(ori_src(msl, 9, 5) == 6);
    assert(ori_acc(msl, 9, 5) == 11);
    assert(ori_src(msl, 9, 6) == 0);
    assert(ori_acc(msl, 9, 6) == 6);
    assert(ori_src(msl, 9, 7) == 5);
    assert(ori_acc(msl, 9, 7) == 14);
    assert(iter_rot(msl, 6, 0) == 0);
    assert(iter_rot(msl, 12, 0) == 0);
    assert(iter_rot(msl, 6, 1) == 1);
    assert(iter_rot(msl, 12, 1) == 1);
    assert(iter_rot(msl, 6, 2) == 2);
    assert(iter_rot(msl, 12, 2) == 2);
    assert(iter_rot(msl, 6, 3) == 3);
    assert(iter_rot(msl, 12, 3) == 3);
    assert(iter_rot(msl, 6, 4) == 4);
    assert(iter_rot(msl, 12, 4) == 4);
    assert(iter_rot(msl, 6, 5) == 5);
    assert(iter_rot(msl, 12, 5) == 5);
    assert(iter_rot(msl, 6, 6) == 6);
    assert(iter_rot(msl, 12, 6) == 6);
    assert(iter_rot(msl, 6, 7) == 7);
    assert(iter_rot(msl, 12, 7) == 7);
    assert(ori_src(msl, 6, 0) == 0);
    assert(ori_acc(msl, 6, 0) == 2);
    assert(ori_src(msl, 6, 1) == 1);
    assert(ori_acc(msl, 6, 1) == 0);
    assert(ori_src(msl, 6, 2) == 2);
    assert(ori_acc(msl, 6, 2) == 2);
    assert(ori_src(msl, 6, 3) == 3);
    assert(ori_acc(msl, 6, 3) == 0);
    assert(ori_src(msl, 6, 4) == 4);
    assert(ori_acc(msl, 6, 4) == 4);
    assert(ori_src(msl, 6, 5) == 5);
    assert(ori_acc(msl, 6, 5) == 4);
    assert(ori_src(msl, 6, 6) == 6);
    assert(ori_acc(msl, 6, 6) == 2);
    assert(ori_src(msl, 6, 7) == 7);
    assert(ori_acc(msl, 6, 7) == 4);
    assert(ori_src(msl, 12, 0) == 0);
    assert(ori_acc(msl, 12, 0) == 6);
    assert(ori_src(msl, 12, 1) == 1);
    assert(ori_acc(msl, 12, 1) == 0);
    assert(ori_src(msl, 12, 2) == 2);
    assert(ori_acc(msl, 12, 2) == 6);
    assert(ori_src(msl, 12, 3) == 3);
    assert(ori_acc(msl, 12, 3) == 0);
    assert(ori_src(msl, 12, 4) == 4);
    assert(ori_acc(msl, 12, 4) == 8);
    assert(ori_src(msl, 12, 5) == 5);
    assert(ori_acc(msl, 12, 5) == 18);
    assert(ori_src(msl, 12, 6) == 6);
    assert(ori_acc(msl, 12, 6) == 16);
    assert(ori_src(msl, 12, 7) == 7);
    assert(ori_acc(msl, 12, 7) == 18);
    assert forall|k: int| 0 <= k < 8 implies #[trigger] pos_net(twist_seq_for(6, 4))[k] == id_perm()[k] by {
        lemma_pos_run_pointwise(msl, id_perm(), 12, k);
        if k == 0 {
            assert(id_perm()[0] == 0u8);
            assert(pos_net(twist_seq_for(6, 4))[0] == 0u8);
        } else if k == 1 {
            assert(id_perm()[1] == 1u8);
            assert(pos_net(twist_seq_for(6, 4))[1] == 1u8);
        } else if k == 2 {
            assert(id_perm()[2] == 2u8);
            assert(pos_net(twist_seq_for(6, 4))[2] == 2u8);
        } else if k == 3 {
            assert(id_perm()[3] == 3u8);
            assert(pos_net(twist_seq_for(6, 4))[3] == 3u8);
        } else if k == 4 {
            assert(id_perm()[4] == 4u8);
            assert(pos_net(twist_seq_for(6, 4))[4] == 4u8);
        } else if k == 5 {
            assert(id_perm()[5] == 5u8);
            assert(pos_net(twist_seq_for(6, 4))[5] == 5u8);
        } else if k == 6 {
            assert(id_perm()[6] == 6u8);
            assert(pos_net(twist_seq_for(6, 4))[6] == 6u8);
        } else if k == 7 {
            assert(id_perm()[7] == 7u8);
            assert(pos_net(twist_seq_for(6, 4))[7] == 7u8);
        }
    }
    lemma_pos_run_pointwise(msl, id_perm(), 12, 0);
    assert(pos_net(twist_seq_for(6, 4)) =~= id_perm());
    assert forall|t: int| 0 <= t < 8 implies ori_src(twist_seq_for(6, 4), 12, t) == t && #[trigger] ori_acc(twist_seq_for(6, 4), 12, t) % 3 == twist_delta(6, 4, t) by {
        if t == 0 {
            assert(ori_acc(msl, 12, 0) % 3 == 0);
        } else if t == 1 {
            assert(ori_acc(msl, 12, 1) % 3 == 0);
        } else if t == 2 {
            assert(ori_acc(msl, 12, 2) % 3 == 0);
        } else if t == 3 {
            assert(ori_acc(msl, 12, 3) % 3 == 0);
        } else if t == 4 {
            assert(ori_acc(msl, 12, 4) % 3 == 2);
        } else if t == 5 {
            assert(ori_acc(msl, 12, 5) % 3 == 0);
        } else if t == 6 {
            assert(ori_acc(msl, 12, 6) % 3 == 1);
        } else if t == 7 {
            assert(ori_acc(msl, 12, 7) % 3 == 0);
        }
    }
}

#[verifier::rlimit(100)]
#[verifier::spinoff_prover]
proof fn twist_pair_6_5()
    ensures
        twist_pair_ok(6, 5),
{
    reveal_with_fuel(iter_rot, 16);
    reveal_with_fuel(ori_src, 16);
    reveal_with_fuel(ori_acc, 16);
    crate::positions::lemma_move_rot_table();
    crate::orientations::lemma_q_back_table();
    reveal(twist_seq_for);
    let msl: Seq<Move> = seq![Move::D1, Move::F1, Move::L3, Move::F1, Move::L3, Move::F1, Move::L3, Move::F3, Move::L1, Move::F3, Move::L1, Move::F3, Move::L1, Move::D3];
    assert(twist_seq_for(6, 5) =~= msl);
    assert(iter_rot(msl, 3, 0) == 1);
    assert(iter_rot(msl, 3, 1) == 7);
    assert(iter_rot(msl, 3, 2) == 6);
    assert(iter_rot(msl, 3, 3) == 3);
    assert(iter_rot(msl, 3, 4) == 2);
    assert(iter_rot(msl, 3, 5) == 5);
    assert(iter_rot(msl, 3, 6) == 0);
    assert(iter_rot(msl, 3, 7) == 4);
    assert(ori_src(msl, 3, 0) == 6);
    assert(ori_acc(msl, 3, 0) == 2);
    assert(ori_src(msl, 3, 1) == 0);
    assert(ori_acc(msl, 3, 1) == 1);
    assert(ori_src(msl, 3, 2) == 4);
    assert(ori_acc(msl, 3, 2) == 2);
    assert(ori_src(msl, 3, 3) == 3);
    assert(ori_acc(msl, 3, 3) == 0);
    assert(ori_src(msl, 3, 4) == 7);
    assert(ori_acc(msl, 3, 4) == 1);
    assert(ori_src(msl, 3, 5) == 5);
    assert(ori_acc(msl, 3, 5) == 2);
    assert(ori_src(msl, 3, 6) == 2);
    assert(ori_acc(msl, 3, 6) == 0);
    assert(ori_src(msl, 3, 7) == 1);
    assert(ori_acc(msl, 3, 7) == 4);
    assert(iter_rot(msl, 10, 0) == 1);
    assert(iter_rot(msl, 10, 1) == 7);
    assert(iter_rot(msl, 10, 2) == 0);
    assert(iter_rot(msl, 10, 3) == 3);
    assert(iter_rot(msl, 10, 4) == 6);
    assert(iter_rot(msl, 10, 5) == 2);
    assert(iter_rot(msl, 10, 6) == 5);
    assert(iter_rot(msl, 10, 7) == 4);
    assert(ori_src(msl, 10, 0) == 2);
    assert(ori_acc(msl, 10, 0) == 2);
    assert(ori_src(msl, 10, 1) == 0);
    assert(ori_acc(msl, 10, 1) == 1);
    assert(ori_src(msl, 10, 2) == 5);
    assert(ori_acc(msl, 10, 2) == 9);
    assert(ori_src(msl, 10, 3) == 3);
    assert(ori_acc(msl, 10, 3) == 0);
    assert(ori_src(msl, 10, 4) == 7);
    assert(ori_acc(msl, 10, 4) == 13);
    assert(ori_src(msl, 10, 5) == 6);
    assert(ori_acc(msl, 10, 5) == 11);
    assert(ori_src(msl, 10, 6) == 4);
    assert(ori_acc(msl, 10, 6) == 8);
    assert(ori_src(msl, 10, 7) == 1);
    assert(ori_acc(msl, 10, 7) == 16);
    assert(iter_rot(msl, 7, 0) == 1);
    assert(iter_rot(msl, 14, 0) == 0);
    assert(iter_rot(msl, 7, 1) == 5);
    assert(iter_rot(msl, 14, 1) == 1);
    assert(iter_rot(msl, 7, 2) == 2);
    assert(iter_rot(msl, 14, 2) == 2);
    assert(iter_rot(msl, 7, 3) == 3);
    assert(iter_rot(msl, 14, 3) == 3);
    assert(iter_rot(msl, 7, 4) == 0);
    assert(iter_rot(msl, 14, 4) == 4);
    assert(iter_rot(msl, 7, 5) == 4);
    assert(iter_rot(msl, 14, 5) == 5);
    assert(iter_rot(msl, 7, 6) == 6);
    assert(iter_rot(msl, 14, 6) == 6);
    assert(iter_rot(msl, 7, 7) == 7);
    assert(iter_rot(msl, 14, 7) == 7);
    assert(ori_src(msl, 7, 0) == 4);
    assert(ori_acc(msl, 7, 0) == 4);
    assert(ori_src(msl, 7, 1) == 0);
    assert(ori_acc(msl, 7, 1) == 1);
    assert(ori_src(msl, 7, 2) == 2);
    assert(ori_acc(msl, 7, 2) == 2);
    assert(ori_src(msl, 7, 3) == 3);
    assert(ori_acc(msl, 7, 3) == 0);
    assert(ori_src(msl, 7, 4) == 5);
    assert(ori_acc(msl, 7, 4) == 5);
    assert(ori_src(msl, 7, 5) == 1);
    assert(ori_acc(msl, 7, 5) == 6);
    assert(ori_src(msl, 7, 6) == 6);
    assert(ori_acc(msl, 7, 6) == 2);
    assert(ori_src(msl, 7, 7) == 7);
    assert(ori_acc(msl, 7, 7) == 4);
    assert(ori_src(msl, 14, 0) == 0);
    assert(ori_acc(msl, 14, 0) == 6);
    assert(ori_src(msl, 14, 1) == 1);
    assert(ori_acc(msl, 14, 1) == 24);
    assert(ori_src(msl, 14, 2) == 2);
    assert(ori_acc(msl, 14, 2) == 6);
    assert(ori_src(msl, 14, 3) == 3);
    assert(ori_acc(msl, 14, 3) == 0);
    assert(ori_src(msl, 14, 4) == 4);
    assert(ori_acc(msl, 14, 4) == 12);
    assert(ori_src(msl, 14, 5) == 5);
    assert(ori_acc(msl, 14, 5) == 14);
    assert(ori_src(msl, 14, 6) == 6);
    assert(ori_acc(msl, 14, 6) == 16);
    assert(ori_src(msl, 14, 7) == 7);
    assert(ori_acc(msl, 14, 7) == 18);
    assert forall|k: int| 0 <= k < 8 implies #[trigger] pos_net(twist_seq_for(6, 5))[k] == id_perm()[k] by {
        lemma_pos_run_pointwise(msl, id_perm(), 14, k);
        if k == 0 {
            assert(id_perm()[0] == 0u8);
            assert(pos_net(twist_seq_for(6, 5))[0] == 0u8);
        } else if k == 1 {
            assert(id_perm()[1] == 1u8);
            assert(pos_net(twist_seq_for(6, 5))[1] == 1u8);
        } else if k == 2 {
            assert(id_perm()[2] == 2u8);
            assert(pos_net(twist_seq_for(6, 5))[2] == 2u8);
        } else if k == 3 {
            assert(id_perm()[3] == 3u8);
            assert(pos_net(twist_seq_for(6, 5))[3] == 3u8);
        } else if k == 4 {
            assert(id_perm()[4] == 4u8);
            assert(pos_net(twist_seq_for(6, 5))[4] == 4u8);
        } else if k == 5 {
            assert(id_perm()[5] == 5u8);
            assert(pos_net(twist_seq_for(6, 5))[5] == 5u8);
        } else if k == 6 {
            assert(id_perm()[6] == 6u8);
            assert(pos_net(twist_seq_for(6, 5))[6] == 6u8);
        } else if k == 7 {
            assert(id_perm()[7] == 7u8);
            assert(pos_net(twist_seq_for(6, 5))[7] == 7u8);
        }
    }
    lemma_pos_run_pointwise(msl, id_perm(), 14, 0);
    assert(pos_net(twist_seq_for(6, 5)) =~= id_perm());
    assert forall|t: int| 0 <= t < 8 implies ori_src(twist_seq_for(6, 5), 14, t) == t && #[trigger] ori_acc(twist_seq_for(6, 5), 14, t) % 3 == twist_delta(6, 5, t) by {
        if t == 0 {
            assert(ori_acc(msl, 14, 0) % 3 == 0);
        } else if t == 1 {
            assert(ori_acc(msl, 14, 1) % 3 == 0);
        } else if t == 2 {
            assert(ori_acc(msl, 14, 2) % 3 == 0);
        } else if t == 3 {
            assert(ori_acc(msl, 14, 3) % 3 == 0);
        } else if t == 4 {
            assert(ori_acc(msl, 14, 4) % 3 == 0);
        } else if t == 5 {
            assert(ori_acc(msl, 14, 5) % 3 == 2);
        } else if t == 6 {
            assert(ori_acc(msl, 14, 6) % 3 == 1);
        } else if t == 7 {
            assert(ori_acc(msl, 14, 7) % 3 == 0);
        }
    }
}

#[verifier::rlimit(100)]
#[verifier::spinoff_prover]
proof fn twist_pair_6_7()
    ensures
        twist_pair_ok(6, 7),
{
    reveal_with_fuel(iter_rot, 16);
    reveal_with_fuel(ori_src, 16);
    reveal_with_fuel(ori_acc, 16);
    crate::positions::lemma_move_rot_table();
    crate::orientations::lemma_q_back_table();
    reveal(twist_seq_for);
    let msl: Seq<Move> = seq![Move::U1, Move::F3, Move::U1, Move::F3, Move::U1, Move::F3, Move::U3, Move::F1, Move::U3, Move::F1, Move::U3, Move::F1];
    assert(twist_seq_for(6, 7) =~= msl);
    assert(iter_rot(msl, 2, 0) == 0);
    assert(iter_rot(msl, 2, 1) == 1);
    assert(iter_rot(msl, 2, 2) == 7);
    assert(iter_rot(msl, 2, 3) == 2);
    assert(iter_rot(msl, 2, 4) == 6);
    assert(iter_rot(msl, 2, 5) == 4);
    assert(iter_rot(msl, 2, 6) == 5);
    assert(iter_rot(msl, 2, 7) == 3);
    assert(ori_src(msl, 2, 0) == 0);
    assert(ori_acc(msl, 2, 0) == 0);
    assert(ori_src(msl, 2, 1) == 1);
    assert(ori_acc(msl, 2, 1) == 0);
    assert(ori_src(msl, 2, 2) == 3);
    assert(ori_acc(msl, 2, 2) == 1);
    assert(ori_src(msl, 2, 3) == 7);
    assert(ori_acc(msl, 2, 3) == 2);
    assert(ori_src(msl, 2, 4) == 5);
    assert(ori_acc(msl, 2, 4) == 5);
    assert(ori_src(msl, 2, 5) == 6);
    assert(ori_acc(msl, 2, 5) == 5);
    assert(ori_src(msl, 2, 6) == 4);
    assert(ori_acc(msl, 2, 6) == 4);
    assert(ori_src(msl, 2, 7) == 2);
    assert(ori_acc(msl, 2, 7) == 7);
    assert(iter_rot(msl, 5, 0) == 0);
    assert(iter_rot(msl, 5, 1) == 1);
    assert(iter_rot(msl, 5, 2) == 2);
    assert(iter_rot(msl, 5, 3) == 3);
    assert(iter_rot(msl, 5, 4) == 5);
    assert(iter_rot(msl, 5, 5) == 7);
    assert(iter_rot(msl, 5, 6) == 4);
    assert(iter_rot(msl, 5, 7) == 6);
    assert(ori_src(msl, 5, 0) == 0);
    assert(ori_acc(msl, 5, 0) == 0);
    assert(ori_src(msl, 5, 1) == 1);
    assert(ori_acc(msl, 5, 1) == 0);
    assert(ori_src(msl, 5, 2) == 2);
    assert(ori_acc(msl, 5, 2) == 10);
    assert(ori_src(msl, 5, 3) == 3);
    assert(ori_acc(msl, 5, 3) == 10);
    assert(ori_src(msl, 5, 4) == 6);
    assert(ori_acc(msl, 5, 4) == 10);
    assert(ori_src(msl, 5, 5) == 4);
    assert(ori_acc(msl, 5, 5) == 9);
    assert(ori_src(msl, 5, 6) == 7);
    assert(ori_acc(msl, 5, 6) == 5);
    assert(ori_src(msl, 5, 7) == 5);
    assert(ori_acc(msl, 5, 7) == 10);
    assert(iter_rot(msl, 8, 0) == 0);
    assert(iter_rot(msl, 8, 1) == 1);
    assert(iter_rot(msl, 8, 2) == 3);
    assert(iter_rot(msl, 8, 3) == 6);
    assert(iter_rot(msl, 8, 4) == 5);
    assert(iter_rot(msl, 8, 5) == 7);
    assert(iter_rot(msl, 8, 6) == 2);
    assert(iter_rot(msl, 8, 7) == 4);
    assert(ori_src(msl, 8, 0) == 0);
    assert(ori_acc(msl, 8, 0) == 0);
    assert(ori_src(msl, 8, 1) == 1);
    assert(ori_acc(msl, 8, 1) == 0);
    assert(ori_src(msl, 8, 2) == 6);
    assert(ori_acc(msl, 8, 2) == 18);
    assert(ori_src(msl, 8, 3) == 2);
    assert(ori_acc(msl, 8, 3) == 15);
    assert(ori_src(msl, 8, 4) == 7);
    assert(ori_acc(msl, 8, 4) == 17);
    assert(ori_src(msl, 8, 5) == 4);
    assert(ori_acc(msl, 8, 5) == 15);
    assert(ori_src(msl, 8, 6) == 3);
    assert(ori_acc(msl, 8, 6) == 15);
    assert(ori_src(msl, 8, 7) == 5);
    assert(ori_acc(msl, 8, 7) == 16);
    assert(iter_rot(msl, 11, 0) == 0);
    assert(iter_rot(msl, 11, 1) == 1);
    assert(iter_rot(msl, 11, 2) == 2);
    assert(iter_rot(msl, 11, 3) == 3);
    assert(iter_rot(msl, 11, 4) == 6);
    assert(iter_rot(msl, 11, 5) == 4);
    assert(iter_rot(msl, 11, 6) == 7);
    assert(iter_rot(msl, 11, 7) == 5);
    assert(ori_src(msl, 11, 0) == 0);
    assert(ori_acc(msl, 11, 0) == 0);
    assert(ori_src(msl, 11, 1) == 1);
    assert(ori_acc(msl, 11, 1) == 0);
    assert(ori_src(msl, 11, 2) == 2);
    assert(ori_acc(msl, 11, 2) == 24);
    assert(ori_src(msl, 11, 3) == 3);
    assert(ori_acc(msl, 11, 3) == 24);
    assert(ori_src(msl, 11, 4) == 5);
    assert(ori_acc(msl, 11, 4) == 23);
    assert(ori_src(msl, 11, 5) == 7);
    assert(ori_acc(msl, 11, 5) == 18);
    assert(ori_src(msl, 11, 6) == 4);
    assert(ori_acc(msl, 11, 6) == 22);
    assert(ori_src(msl, 11, 7) == 6);
    assert(ori_acc(msl, 11, 7) == 27);
    assert(iter_rot(msl, 3, 0) == 0);
    assert(iter_rot(msl, 3, 1) == 1);
    assert(iter_rot(msl, 3, 2) == 3);
    assert(iter_rot(msl, 3, 3) == 6);
    assert(iter_rot(msl, 3, 4) == 7);
    assert(iter_rot(msl, 3, 5) == 4);
    assert(iter_rot(msl, 3, 6) == 5);
    assert(iter_rot(msl, 3, 7) == 2);
    assert(ori_src(msl, 3, 0) == 0);
    assert(ori_acc(msl, 3, 0) == 0);
    assert(ori_src(msl, 3, 1) == 1);
    assert(ori_acc(msl, 3, 1) == 0);
    assert(ori_src(msl, 3, 2) == 7);
    assert(ori_acc(msl, 3, 2) == 3);
    assert(ori_src(msl, 3, 3) == 2);
    assert(ori_acc(msl, 3, 3) == 9);
    assert(ori_src(msl, 3, 4) == 5);
    assert(ori_acc(msl, 3, 4) == 5);
    assert(ori_src(msl, 3, 5) == 6);
    assert(ori_acc(msl, 3, 5) == 5);
    assert(ori_src(msl, 3, 6) == 3);
    assert(ori_acc(msl, 3, 6) == 3);
    assert(ori_src(msl, 3, 7) == 4);
    assert(ori_acc(msl, 3, 7) == 5);
    assert(iter_rot(msl, 9, 0) == 0);
    assert(iter_rot(msl, 9, 1) == 1);
    assert(iter_rot(msl, 9, 2) == 7);
    assert(iter_rot(msl, 9, 3) == 2);
    assert(iter_rot(msl, 9, 4) == 5);
    assert(iter_rot(msl, 9, 5) == 6);
    assert(iter_rot(msl, 9, 6) == 3);
    assert(iter_rot(msl, 9, 7) == 4);
    assert(ori_src(msl, 9, 0) == 0);
    assert(ori_acc(msl, 9, 0) == 0);
    assert(ori_src(msl, 9, 1) == 1);
    assert(ori_acc(msl, 9, 1) == 0);
    assert(ori_src(msl, 9, 2) == 3);
    assert(ori_acc(msl, 9, 2) == 19);
    assert(ori_src(msl, 9, 3) == 6);
    assert(ori_acc(msl, 9, 3) == 23);
    assert(ori_src(msl, 9, 4) == 7);
    assert(ori_acc(msl, 9, 4) == 17);
    assert(ori_src(msl, 9, 5) == 4);
    assert(ori_acc(msl, 9, 5) == 15);
    assert(ori_src(msl, 9, 6) == 5);
    assert(ori_acc(msl, 9, 6) == 21);
    assert(ori_src(msl, 9, 7) == 2);
    assert(ori_acc(msl, 9, 7) == 19);
    assert(iter_rot(msl, 6, 0) == 0);
    assert(iter_rot(msl, 12, 0) == 0);
    assert(iter_rot(msl, 6, 1) == 1);
    assert(iter_rot(msl, 12, 1) == 1);
    assert(iter_rot(msl, 6, 2) == 2);
    assert(iter_rot(msl, 12, 2) == 2);
    assert(iter_rot(msl, 6, 3) == 3);
    assert(iter_rot(msl, 12, 3) == 3);
    assert(iter_rot(msl, 6, 4) == 4);
    assert(iter_rot(msl, 12, 4) == 4);
    assert(iter_rot(msl, 6, 5) == 5);
    assert(iter_rot(msl, 12, 5) == 5);
    assert(iter_rot(msl, 6, 6) == 6);
    assert(iter_rot(msl, 12, 6) == 6);
    assert(iter_rot(msl, 6, 7) == 7);
    assert(iter_rot(msl, 12, 7) == 7);
    assert(ori_src(msl, 6, 0) == 0);
    assert(ori_acc(msl, 6, 0) == 0);
    assert(ori_src(msl, 6, 1) == 1);
    assert(ori_acc(msl, 6, 1) == 0);
    assert(ori_src(msl, 6, 2) == 2);
    assert(ori_acc(msl, 6, 2) == 10);
    assert(ori_src(msl, 6, 3) == 3);
    assert(ori_acc(msl, 6, 3) == 10);
    assert(ori_src(msl, 6, 4) == 4);
    assert(ori_acc(msl, 6, 4) == 14);
    assert(ori_src(msl, 6, 5) == 5);
    assert(ori_acc(msl, 6, 5) == 14);
    assert(ori_src(msl, 6, 6) == 6);
    assert(ori_acc(msl, 6, 6) == 14);
    assert(ori_src(msl, 6, 7) == 7);
    assert(ori_acc(msl, 6, 7) == 10);
    assert(ori_src(msl, 12, 0) == 0);
    assert(ori_acc(msl, 12, 0) == 0);
    assert(ori_src(msl, 12, 1) == 1);
    assert(ori_acc(msl, 12, 1) == 0);
    assert(ori_src(msl, 12, 2) == 2);
    assert(ori_acc(msl, 12, 2) == 24);
    assert(ori_src(msl, 12, 3) == 3);
    assert(ori_acc(msl, 12, 3) == 24);
    assert(ori_src(msl, 12, 4) == 4);
    assert(ori_acc(msl, 12, 4) == 24);
    assert(ori_src(msl, 12, 5) == 5);
    assert(ori_acc(msl, 12, 5) == 24);
    assert(ori_src(msl, 12, 6) == 6);
    assert(ori_acc(msl, 12, 6) == 28);
    assert(ori_src(msl, 12, 7) == 7);
    assert(ori_acc(msl, 12, 7) == 20);
    assert forall|k: int| 0 <= k < 8 implies #[trigger] pos_net(twist_seq_for(6, 7))[k] == id_perm()[k] by {
        lemma_pos_run_pointwise(msl, id_perm(), 12, k);
        if k == 0 {
            assert(id_perm()[0] == 0u8);
            assert(pos_net(twist_seq_for(6, 7))[0] == 0u8);
        } else if k == 1 {
            assert(id_perm()[1] == 1u8);
            assert(pos_net(twist_seq_for(6, 7))[1] == 1u8);
        } else if k == 2 {
            assert(id_perm()[2] == 2u8);
            assert(pos_net(twist_seq_for(6, 7))[2] == 2u8);
        } else if k == 3 {
            assert(id_perm()[3] == 3u8);
            assert(pos_net(twist_seq_for(6, 7))[3] == 3u8);
        } else if k == 4 {
            assert(id_perm()[4] == 4u8);
            assert(pos_net(twist_seq_for(6, 7))[4] == 4u8);
        } else if k == 5 {
            assert(id_perm()[5] == 5u8);
            assert(pos_net(twist_seq_for(6, 7))[5] == 5u8);
        } else if k == 6 {
            assert(id_perm()[6] == 6u8);
            assert(pos_net(twist_seq_for(6, 7))[6] == 6u8);
        } else if k == 7 {
            assert(id_perm()[7] == 7u8);
            assert(pos_net(twist_seq_for(6, 7))[7] == 7u8);
        }
    }
    lemma_pos_run_pointwise(msl, id_perm(), 12, 0);
    assert(pos_net(twist_seq_for(6, 7)) =~= id_perm());
    assert forall|t: int| 0 <= t < 8 implies ori_src(twist_seq_for(6, 7), 12, t) == t && #[trigger] ori_acc(twist_seq_for(6, 7), 12, t) % 3 == twist_delta(6, 7, t) by {
        if t == 0 {
            assert(ori_acc(msl, 12, 0) % 3 == 0);
        } else if t == 1 {
            assert(ori_acc(msl, 12, 1) % 3 == 0);
        } else if t == 2 {
            assert(ori_acc(msl, 12, 2) % 3 == 0);
        } else if t == 3 {
            assert(ori_acc(msl, 12, 3) % 3 == 0);
        } else if t == 4 {
            assert(ori_acc(msl, 12, 4) % 3 == 0);
        } else if t == 5 {
            assert(ori_acc(msl, 12, 5) % 3 == 0);
        } else if t == 6 {
            assert(ori_acc(msl, 12, 6) % 3 == 1);
        } else if t == 7 {
            assert(ori_acc(msl, 12, 7) % 3 == 2);
        }
    }
}

#[verifier::rlimit(100)]
#[verifier::spinoff_prover]
proof fn twist_pair_7_0()
    ensures
        twist_pair_ok(7, 0),
{
    reveal_with_fuel(iter_rot, 16);
    reveal_with_fuel(ori_src, 16);
    reveal_with_fuel(ori_acc, 16);
    crate::positions::lemma_move_rot_table();
    crate::orientations::lemma_q_back_table();
    reveal(twist_seq_for);
    let msl: Seq<Move> = seq![Move::B2, Move::U1, Move::R3, Move::U1, Move::R3, Move::U1, Move::R3, Move::U3, Move::R1, Move::U3, Move::R1, Move::U3, Move::R1, Move::B2];
    assert(twist_seq_for(7, 0) =~= msl);
    assert(iter_rot(msl, 3, 0) == 2);
    assert(iter_rot(msl, 3, 1) == 6);
    assert(iter_rot(msl, 3, 2) == 5);
    assert(iter_rot(msl, 3, 3) == 0);
    assert(iter_rot(msl, 3, 4) == 4);
    assert(iter_rot(msl, 3, 5) == 7);
    assert(iter_rot(msl, 3, 6) == 3);
    assert(iter_rot(msl, 3, 7) == 1);
    assert(ori_src(msl, 3, 0) == 3);
    assert(ori_acc(msl, 3, 0) == 3);
    assert(ori_src(msl, 3, 1) == 7);
    assert(ori_acc(msl, 3, 1) == 2);
    assert(ori_src(msl, 3, 2) == 0);
    assert(ori_acc(msl, 3, 2) == 4);
    assert(ori_src(msl, 3, 3) == 6);
    assert(ori_acc(msl, 3, 3) == 1);
    assert(ori_src(msl, 3, 4) == 4);
    assert(ori_acc(msl, 3, 4) == 0);
    assert(ori_src(msl, 3, 5) == 2);
    assert(ori_acc(msl, 3, 5) == 3);
    assert(ori_src(msl, 3, 6) == 1);
    assert(ori_acc(msl, 3, 6) == 5);
    assert(ori_src(msl, 3, 7) == 5);
    assert(ori_acc(msl, 3, 7) == 0);
    assert(iter_rot(msl, 10, 0) == 5);
    assert(iter_rot(msl, 10, 1) == 6);
    assert(iter_rot(msl, 10, 2) == 7);
    assert(iter_rot(msl, 10, 3) == 0);
    assert(iter_rot(msl, 10, 4) == 4);
    assert(iter_rot(msl, 10, 5) == 1);
    assert(iter_rot(msl, 10, 6) == 3);
    assert(iter_rot(msl, 10, 7) == 2);
    assert(ori_src(msl, 10, 0) == 3);
    assert(ori_acc(msl, 10, 0) == 3);
    assert(ori_src(msl, 10, 1) == 5);
    assert(ori_acc(msl, 10, 1) == 2);
    assert(ori_src(msl, 10, 2) == 7);
    assert(ori_acc(msl, 10, 2) == 11);
    assert(ori_src(msl, 10, 3) == 6);
    assert(ori_acc(msl, 10, 3) == 13);
    assert(ori_src(msl, 10, 4) == 4);
    assert(ori_acc(msl, 10, 4) == 0);
    assert(ori_src(msl, 10, 5) == 0);
    assert(ori_acc(msl, 10, 5) == 11);
    assert(ori_src(msl, 10, 6) == 1);
    assert(ori_acc(msl, 10, 6) == 17);
    assert(ori_src(msl, 10, 7) == 2);
    assert(ori_acc(msl, 10, 7) == 9);
    assert(iter_rot(msl, 7, 0) == 3);
    assert(iter_rot(msl, 14, 0) == 0);
    assert(iter_rot(msl, 7, 1) == 2);
    assert(iter_rot(msl, 14, 1) == 1);
    assert(iter_rot(msl, 7, 2) == 1);
    assert(iter_rot(msl, 14, 2) == 2);
    assert(iter_rot(msl, 7, 3) == 0);
    assert(iter_rot(msl, 14, 3) == 3);
    assert(iter_rot(msl, 7, 4) == 4);
    assert(iter_rot(msl, 14, 4) == 4);
    assert(iter_rot(msl, 7, 5) == 5);
    assert(iter_rot(msl, 14, 5) == 5);
    assert(iter_rot(msl, 7, 6) == 6);
    assert(iter_rot(msl, 14, 6) == 6);
    assert(iter_rot(msl, 7, 7) == 7);
    assert(iter_rot(msl, 14, 7) == 7);
    assert(ori_src(msl, 7, 0) == 3);
    assert(ori_acc(msl, 7, 0) == 3);
    assert(ori_src(msl, 7, 1) == 2);
    assert(ori_acc(msl, 7, 1) == 5);
    assert(ori_src(msl, 7, 2) == 1);
    assert(ori_acc(msl, 7, 2) == 7);
    assert(ori_src(msl, 7, 3) == 0);
    assert(ori_acc(msl, 7, 3) == 7);
    assert(ori_src(msl, 7, 4) == 4);
    assert(ori_acc(msl, 7, 4) == 0);
    assert(ori_src(msl, 7, 5) == 5);
    assert(ori_acc(msl, 7, 5) == 2);
    assert(ori_src(msl, 7, 6) == 6);
    assert(ori_acc(msl, 7, 6) == 4);
    assert(ori_src(msl, 7, 7) == 7);
    assert(ori_acc(msl, 7, 7) == 2);
    assert(ori_src(msl, 14, 0) == 0);
    assert(ori_acc(msl, 14, 0) == 14);
    assert(ori_src(msl, 14, 1) == 1);
    assert(ori_acc(msl, 14, 1) == 24);
    assert(ori_src(msl, 14, 2) == 2);
    assert(ori_acc(msl, 14, 2) == 12);
    assert(ori_src(msl, 14, 3) == 3);
    assert(ori_acc(msl, 14, 3) == 6);
    assert(ori_src(msl, 14, 4) == 4);
    assert(ori_acc(msl, 14, 4) == 0);
    assert(ori_src(msl, 14, 5) == 5);
    assert(ori_acc(msl, 14, 5) == 6);
    assert(ori_src(msl, 14, 6) == 6);
    assert(ori_acc(msl, 14, 6) == 18);
    assert(ori_src(msl, 14, 7) == 7);
    assert(ori_acc(msl, 14, 7) == 16);
    assert forall|k: int| 0 <= k < 8 implies #[trigger] pos_net(twist_seq_for(7, 0))[k] == id_perm()[k] by {
        lemma_pos_run_pointwise(msl, id_perm(), 14, k);
        if k == 0 {
            assert(id_perm()[0] == 0u8);
            assert(pos_net(twist_seq_for(7, 0))[0] == 0u8);
        } else if k == 1 {
            assert(id_perm()[1] == 1u8);
            assert(pos_net(twist_seq_for(7, 0))[1] == 1u8);
        } else if k == 2 {
            assert(id_perm()[2] == 2u8);
            assert(pos_net(twist_seq_for(7, 0))[2] == 2u8);
        } else if k == 3 {
            assert(id_perm()[3] == 3u8);
            assert(pos_net(twist_seq_for(7, 0))[3] == 3u8);
        } else if k == 4 {
            assert(id_perm()[4] == 4u8);
            assert(pos_net(twist_seq_for(7, 0))[4] == 4u8);
        } else if k == 5 {
            assert(id_perm()[5] == 5u8);
            assert(pos_net(twist_seq_for(7, 0))[5] == 5u8);
        } else if k == 6 {
            assert(id_perm()[6] == 6u8);
            assert(pos_net(twist_seq_for(7, 0))[6] == 6u8);
        } else if k == 7 {
            assert(id_perm()[7] == 7u8);
            assert(pos_net(twist_seq_for(7, 0))[7] == 7u8);
        }
    }
    lemma_pos_run_pointwise(msl, id_perm(), 14, 0);
    assert(pos_net(twist_seq_for(7, 0)) =~= id_perm());
    assert forall|t: int| 0 <= t < 8 implies ori_src(twist_seq_for(7, 0), 14, t) == t && #[trigger] ori_acc(twist_seq_for(7, 0), 14, t) % 3 == twist_delta(7, 0, t) by {
        if t == 0 {
            assert(ori_acc(msl, 14, 0) % 3 == 2);
        } else if t == 1 {
            assert(ori_acc(msl, 14, 1) % 3 == 0);
        } else if t == 2 {
            assert(ori_acc(msl, 14, 2) % 3 == 0);
        } else if t == 3 {
            assert(ori_acc(msl, 14, 3) % 3 == 0);
        } else if t == 4 {
            assert(ori_acc(msl, 14, 4) % 3 == 0);
        } else if t == 5 {
            assert(ori_acc(msl, 14, 5) % 3 == 0);
        } else if t == 6 {
            assert(ori_acc(msl, 14, 6) % 3 == 0);
        } else if t == 7 {
            assert(ori_acc(msl, 14, 7) % 3 == 1);
        }
    }
}

#[verifier::rlimit(100)]
#[verifier::spinoff_prover]
proof fn twist_pair_7_1()
    ensures
        twist_pair_ok(7, 1),
{
    reveal_with_fuel(iter_rot, 16);
    reveal_with_fuel(ori_src, 16);
    reveal_with_fuel(ori_acc, 16);
    crate::positions::lemma_move_rot_table();
    crate::orientations::lemma_q_back_table();
    reveal(twist_seq_for);
    let msl: Seq<Move> = seq![Move::F3, Move::R3, Move::D1, Move::R3, Move::D1, Move::R3, Move::D1, Move::R1, Move::D3, Move::R1, Move::D3, Move::R1, Move::D3, Move::F1];
    assert(twist_seq_for(7, 1) =~= msl);
    assert(iter_rot(msl, 3, 0) == 1);
    assert(iter_rot(msl, 3, 1) == 4);
    assert(iter_rot(msl, 3, 2) == 2);
    assert(iter_rot(msl, 3, 3) == 5);
    assert(iter_rot(msl, 3, 4) == 6);
    assert(iter_rot(msl, 3, 5) == 0);
    assert(iter_rot(msl, 3, 6) == 3);
    assert(iter_rot(msl, 3, 7) == 7);
    assert(ori_src(msl, 3, 0) == 5);
    assert(ori_acc(msl, 3, 0) == 7);
    assert(ori_src(msl, 3, 1) == 0);
    assert(ori_acc(msl, 3, 1) == 1);
    assert(ori_src(msl, 3, 2) == 2);
    assert(ori_acc(msl, 3, 2) == 0);
    assert(ori_src(msl, 3, 3) == 6);
    assert(ori_acc(msl, 3, 3) == 5);
    assert(ori_src(msl, 3, 4) == 1);
    assert(ori_acc(msl, 3, 4) == 1);
    assert(ori_src(msl, 3, 5) == 3);
    assert(ori_acc(msl, 3, 5) == 2);
    assert(ori_src(msl, 3, 6) == 4);
    assert(ori_acc(msl, 3, 6) == 4);
    assert(ori_src(msl, 3, 7) == 7);
    assert(ori_acc(msl, 3, 7) == 4);
    assert(iter_rot(msl, 10, 0) == 4);
    assert(iter_rot(msl, 10, 1) == 7);
    assert(iter_rot(msl, 10, 2) == 2);
    assert(iter_rot(msl, 10, 3) == 5);
    assert(iter_rot(msl, 10, 4) == 6);
    assert(iter_rot(msl, 10, 5) == 1);
    assert(iter_rot(msl, 10, 6) == 3);
    assert(iter_rot(msl, 10, 7) == 0);
    assert(ori_src(msl, 10, 0) == 7);
    assert(ori_acc(msl, 10, 0) == 11);
    assert(ori_src(msl, 10, 1) == 5);
    assert(ori_acc(msl, 10, 1) == 14);
    assert(ori_src(msl, 10, 2) == 2);
    assert(ori_acc(msl, 10, 2) == 0);
    assert(ori_src(msl, 10, 3) == 6);
    assert(ori_acc(msl, 10, 3) == 11);
    assert(ori_src(msl, 10, 4) == 0);
    assert(ori_acc(msl, 10, 4) == 8);
    assert(ori_src(msl, 10, 5) == 3);
    assert(ori_acc(msl, 10, 5) == 2);
    assert(ori_src(msl, 10, 6) == 4);
    assert(ori_acc(msl, 10, 6) == 4);
    assert(ori_src(msl, 10, 7) == 1);
    assert(ori_acc(msl, 10, 7) == 4);
    assert(iter_rot(msl, 7, 0) == 0);
    assert(iter_rot(msl, 14, 0) == 0);
    assert(iter_rot(msl, 7, 1) == 1);
    assert(iter_rot(msl, 14, 1) == 1);
    assert(iter_rot(msl, 7, 2) == 2);
    assert(iter_rot(msl, 14, 2) == 2);
    assert(iter_rot(msl, 7, 3) == 3);
    assert(iter_rot(msl, 14, 3) == 3);
    assert(iter_rot(msl, 7, 4) == 6);
    assert(iter_rot(msl, 14, 4) == 4);
    assert(iter_rot(msl, 7, 5) == 4);
    assert(iter_rot(msl, 14, 5) == 5);
    assert(iter_rot(msl, 7, 6) == 7);
    assert(iter_rot(msl, 14, 6) == 6);
    assert(iter_rot(msl, 7, 7) == 5);
    assert(iter_rot(msl, 14, 7) == 7);
    assert(ori_src(msl, 7, 0) == 0);
    assert(ori_acc(msl, 7, 0) == 4);
    assert(ori_src(msl, 7, 1) == 1);
    assert(ori_acc(msl, 7, 1) == 4);
    assert(ori_src(msl, 7, 2) == 2);
    assert(ori_acc(msl, 7, 2) == 0);
    assert(ori_src(msl, 7, 3) == 3);
    assert(ori_acc(msl, 7, 3) == 2);
    assert(ori_src(msl, 7, 4) == 5);
    assert(ori_acc(msl, 7, 4) == 9);
    assert(ori_src(msl, 7, 5) == 7);
    assert(ori_acc(msl, 7, 5) == 6);
    assert(ori_src(msl, 7, 6) == 4);
    assert(ori_acc(msl, 7, 6) == 4);
    assert(ori_src(msl, 7, 7) == 6);
    assert(ori_acc(msl, 7, 7) == 7);
    assert(ori_src(msl, 14, 0) == 0);
    assert(ori_acc(msl, 14, 0) == 18);
    assert(ori_src(msl, 14, 1) == 1);
    assert(ori_acc(msl, 14, 1) == 8);
    assert(ori_src(msl, 14, 2) == 2);
    assert(ori_acc(msl, 14, 2) == 0);
    assert(ori_src(msl, 14, 3) == 3);
    assert(ori_acc(msl, 14, 3) == 6);
    assert(ori_src(msl, 14, 4) == 4);
    assert(ori_acc(msl, 14, 4) == 6);
    assert(ori_src(msl, 14, 5) == 5);
    assert(ori_acc(msl, 14, 5) == 24);
    assert(ori_src(msl, 14, 6) == 6);
    assert(ori_acc(msl, 14, 6) == 12);
    assert(ori_src(msl, 14, 7) == 7);
    assert(ori_acc(msl, 14, 7) == 22);
    assert forall|k: int| 0 <= k < 8 implies #[trigger] pos_net(twist_seq_for(7, 1))[k] == id_perm()[k] by {
        lemma_pos_run_pointwise(msl, id_perm(), 14, k);
        if k == 0 {
            assert(id_perm()[0] == 0u8);
            assert(pos_net(twist_seq_for(7, 1))[0] == 0u8);
        } else if k == 1 {
            assert(id_perm()[1] == 1u8);
            assert(pos_net(twist_seq_for(7, 1))[1] == 1u8);
        } else if k == 2 {
            assert(id_perm()[2] == 2u8);
            assert(pos_net(twist_seq_for(7, 1))[2] == 2u8);
        } else if k == 3 {
            assert(id_perm()[3] == 3u8);
            assert(pos_net(twist_seq_for(7, 1))[3] == 3u8);
        } else if k == 4 {
            assert(id_perm()[4] == 4u8);
            assert(pos_net(twist_seq_for(7, 1))[4] == 4u8);
        } else if k == 5 {
            assert(id_perm()[5] == 5u8);
            assert(pos_net(twist_seq_for(7, 1))[5] == 5u8);
        } else if k == 6 {
            assert(id_perm()[6] == 6u8);
            assert(pos_net(twist_seq_for(7, 1))[6] == 6u8);
        } else if k == 7 {
            assert(id_perm()[7] == 7u8);
            assert(pos_net(twist_seq_for(7, 1))[7] == 7u8);
        }
    }
    lemma_pos_run_pointwise(msl, id_perm(), 14, 0);
    assert(pos_net(twist_seq_for(7, 1)) =~= id_perm());
    assert forall|t: int| 0 <= t < 8 implies ori_src(twist_seq_for(7, 1), 14, t) == t && #[trigger] ori_acc(twist_seq_for(7, 1), 14, t) % 3 == twist_delta(7, 1, t) by {
        if t == 0 {
            assert(ori_acc(msl, 14, 0) % 3 == 0);
        } else if t == 1 {
            assert(ori_acc(msl, 14, 1) % 3 == 2);
        } else if t == 2 {
            assert(ori_acc(msl, 14, 2) % 3 == 0);
        } else if t == 3 {
            assert(ori_acc(msl, 14, 3) % 3 == 0);
        } else if t == 4 {
            assert(ori_acc(msl, 14, 4) % 3 == 0);
        } else if t == 5 {
            assert(ori_acc(msl, 14, 5) % 3 == 0);
        } else if t == 6 {
            assert(ori_acc(msl, 14, 6) % 3 == 0);
        } else if t == 7 {
            assert(ori_acc(msl, 14, 7) % 3 == 1);
        }
    }
}

#[verifier::rlimit(100)]
#[verifier::spinoff_prover]
proof fn twist_pair_7_2()
    ensures
        twist_pair_ok(7, 2),
{
    reveal_with_fuel(iter_rot, 16);
    reveal_with_fuel(ori_src, 16);
    reveal_with_fuel(ori_acc, 16);
    crate::positions::lemma_move_rot_table();
    crate::orientations::lemma_q_back_table();
    reveal(twist_seq_for);
    let msl: Seq<Move> = seq![Move::R3, Move::U3, Move::B1, Move::U3, Move::B1, Move::U3, Move::B1, Move::U1, Move::B3, Move::U1, Move::B3, Move::U1, Move::B3, Move::R1];
    assert(twist_seq_for(7, 2) =~= msl);
    assert(iter_rot(msl, 3, 0) == 2);
    assert(iter_rot(msl, 3, 1) == 5);
    assert(iter_rot(msl, 3, 2) == 1);
    assert(iter_rot(msl, 3, 3) == 0);
    assert(iter_rot(msl, 3, 4) == 4);
    assert(iter_rot(msl, 3, 5) == 6);
    assert(iter_rot(msl, 3, 6) == 3);
    assert(iter_rot(msl, 3, 7) == 7);
    assert(ori_src(msl, 3, 0) == 3);
    assert(ori_acc(msl, 3, 0) == 1);
    assert(ori_src(msl, 3, 1) == 2);
    assert(ori_acc(msl, 3, 1) == 7);
    assert(ori_src(msl, 3, 2) == 0);
    assert(ori_acc(msl, 3, 2) == 2);
    assert(ori_src(msl, 3, 3) == 6);
    assert(ori_acc(msl, 3, 3) == 5);
    assert(ori_src(msl, 3, 4) == 4);
    assert(ori_acc(msl, 3, 4) == 0);
    assert(ori_src(msl, 3, 5) == 1);
    assert(ori_acc(msl, 3, 5) == 0);
    assert(ori_src(msl, 3, 6) == 5);
    assert(ori_acc(msl, 3, 6) == 5);
    assert(ori_src(msl, 3, 7) == 7);
    assert(ori_acc(msl, 3, 7) == 4);
    assert(iter_rot(msl, 10, 0) == 1);
    assert(iter_rot(msl, 10, 1) == 5);
    assert(iter_rot(msl, 10, 2) == 7);
    assert(iter_rot(msl, 10, 3) == 2);
    assert(iter_rot(msl, 10, 4) == 4);
    assert(iter_rot(msl, 10, 5) == 6);
    assert(iter_rot(msl, 10, 6) == 3);
    assert(iter_rot(msl, 10, 7) == 0);
    assert(ori_src(msl, 10, 0) == 7);
    assert(ori_acc(msl, 10, 0) == 19);
    assert(ori_src(msl, 10, 1) == 0);
    assert(ori_acc(msl, 10, 1) == 15);
    assert(ori_src(msl, 10, 2) == 3);
    assert(ori_acc(msl, 10, 2) == 15);
    assert(ori_src(msl, 10, 3) == 6);
    assert(ori_acc(msl, 10, 3) == 17);
    assert(ori_src(msl, 10, 4) == 4);
    assert(ori_acc(msl, 10, 4) == 0);
    assert(ori_src(msl, 10, 5) == 1);
    assert(ori_acc(msl, 10, 5) == 0);
    assert(ori_src(msl, 10, 6) == 5);
    assert(ori_acc(msl, 10, 6) == 23);
    assert(ori_src(msl, 10, 7) == 2);
    assert(ori_acc(msl, 10, 7) == 13);
    assert(iter_rot(msl, 7, 0) == 0);
    assert(iter_rot(msl, 14, 0) == 0);
    assert(iter_rot(msl, 7, 1) == 5);
    assert(iter_rot(msl, 14, 1) == 1);
    assert(iter_rot(msl, 7, 2) == 2);
    assert(iter_rot(msl, 14, 2) == 2);
    assert(iter_rot(msl, 7, 3) == 1);
    assert(iter_rot(msl, 14, 3) == 3);
    assert(iter_rot(msl, 7, 4) == 4);
    assert(iter_rot(msl, 14, 4) == 4);
    assert(iter_rot(msl, 7, 5) == 7);
    assert(iter_rot(msl, 14, 5) == 5);
    assert(iter_rot(msl, 7, 6) == 6);
    assert(iter_rot(msl, 14, 6) == 6);
    assert(iter_rot(msl, 7, 7) == 3);
    assert(iter_rot(msl, 14, 7) == 7);
    assert(ori_src(msl, 7, 0) == 0);
    assert(ori_acc(msl, 7, 0) == 10);
    assert(ori_src(msl, 7, 1) == 3);
    assert(ori_acc(msl, 7, 1) == 10);
    assert(ori_src(msl, 7, 2) == 2);
    assert(ori_acc(msl, 7, 2) == 10);
    assert(ori_src(msl, 7, 3) == 7);
    assert(ori_acc(msl, 7, 3) == 14);
    assert(ori_src(msl, 7, 4) == 4);
    assert(ori_acc(msl, 7, 4) == 0);
    assert(ori_src(msl, 7, 5) == 1);
    assert(ori_acc(msl, 7, 5) == 0);
    assert(ori_src(msl, 7, 6) == 6);
    assert(ori_acc(msl, 7, 6) == 14);
    assert(ori_src(msl, 7, 7) == 5);
    assert(ori_acc(msl, 7, 7) == 14);
    assert(ori_src(msl, 14, 0) == 0);
    assert(ori_acc(msl, 14, 0) == 24);
    assert(ori_src(msl, 14, 1) == 1);
    assert(ori_acc(msl, 14, 1) == 0);
    assert(ori_src(msl, 14, 2) == 2);
    assert(ori_acc(msl, 14, 2) == 20);
    assert(ori_src(msl, 14, 3) == 3);
    assert(ori_acc(msl, 14, 3) == 24);
    assert(ori_src(msl, 14, 4) == 4);
    assert(ori_acc(msl, 14, 4) == 0);
    assert(ori_src(msl, 14, 5) == 5);
    assert(ori_acc(msl, 14, 5) == 24);
    assert(ori_src(msl, 14, 6) == 6);
    assert(ori_acc(msl, 14, 6) == 24);
    assert(ori_src(msl, 14, 7) == 7);
    assert(ori_acc(msl, 14, 7) == 28);
    assert forall|k: int| 0 <= k < 8 implies #[trigger] pos_net(twist_seq_for(7, 2))[k] == id_perm()[k] by {
        lemma_pos_run_pointwise(msl, id_perm(), 14, k);
        if k == 0 {
            assert(id_perm()[0] == 0u8);
            assert(pos_net(twist_seq_for(7, 2))[0] == 0u8);
        } else if k == 1 {
            assert(id_perm()[1] == 1u8);
            assert(pos_net(twist_seq_for(7, 2))[1] == 1u8);
        } else if k == 2 {
            assert(id_perm()[2] == 2u8);
            assert(pos_net(twist_seq_for(7, 2))[2] == 2u8);
        } else if k == 3 {
            assert(id_perm()[3] == 3u8);
            assert(pos_net(twist_seq_for(7, 2))[3] == 3u8);
        } else if k == 4 {
            assert(id_perm()[4] == 4u8);
            assert(pos_net(twist_seq_for(7, 2))[4] == 4u8);
        } else if k == 5 {
            assert(id_perm()[5] == 5u8);
            assert(pos_net(twist_seq_for(7, 2))[5] == 5u8);
        } else if k == 6 {
            assert(id_perm()[6] == 6u8);
            assert(pos_net(twist_seq_for(7, 2))[6] == 6u8);
        } else if k == 7 {
            assert(id_perm()[7] == 7u8);
            assert(pos_net(twist_seq_for(7, 2))[7] == 7u8);
        }
    }
    lemma_pos_run_pointwise(msl, id_perm(), 14, 0);
    assert(pos_net(twist_seq_for(7, 2)) =~= id_perm());
    assert forall|t: int| 0 <= t < 8 implies ori_src(twist_seq_for(7, 2), 14, t) == t && #[trigger] ori_acc(twist_seq_for(7, 2), 14, t) % 3 == twist_delta(7, 2, t) by {
        if t == 0 {
            assert(ori_acc(msl, 14, 0) % 3 == 0);
        } else if t == 1 {
            assert(ori_acc(msl, 14, 1) % 3 == 0);
        } else if t == 2 {
            assert(ori_acc(msl, 14, 2) % 3 == 2);
        } else if t == 3 {
            assert(ori_acc(msl, 14, 3) % 3 == 0);
        } else if t == 4 {
            assert(ori_acc(msl, 14, 4) % 3 == 0);
        } else if t == 5 {
            assert(ori_acc(msl, 14, 5) % 3 == 0);
        } else if t == 6 {
            assert(ori_acc(msl, 14, 6) % 3 == 0);
        } else if t == 7 {
            assert(ori_acc(msl, 14, 7) % 3 == 1);
        }
    }
}

#[verifier::rlimit(100)]
#[verifier::spinoff_prover]
proof fn twist_pair_7_3()
    ensures
        twist_pair_ok(7, 3),
{
    reveal_with_fuel(iter_rot, 16);
    reveal_with_fuel(ori_src, 16);
    reveal_with_fuel(ori_acc, 16);
    crate::positions::lemma_move_rot_table();
    crate::orientations::lemma_q_back_table();
    reveal(twist_seq_for);
    let msl: Seq<Move> = seq![Move::U1, Move::R3, Move::U1, Move::R3, Move::U1, Move::R3, Move::U3, Move::R1, Move::U3, Move::R1, Move::U3, Move::R1];
    assert(twist_seq_for(7, 3) =~= msl);
    assert(iter_rot(msl, 3, 0) == 0);
    assert(iter_rot(msl, 3, 1) == 5);
    assert(iter_rot(msl, 3, 2) == 7);
    assert(iter_rot(msl, 3, 3) == 6);
    assert(iter_rot(msl, 3, 4) == 4);
    assert(iter_rot(msl, 3, 5) == 3);
    assert(iter_rot(msl, 3, 6) == 2);
    assert(iter_rot(msl, 3, 7) == 1);
    assert(ori_src(msl, 3, 0) == 0);
    assert(ori_acc(msl, 3, 0) == 0);
    assert(ori_src(msl, 3, 1) == 7);
    assert(ori_acc(msl, 3, 1) == 2);
    assert(ori_src(msl, 3, 2) == 6);
    assert(ori_acc(msl, 3, 2) == 2);
    assert(ori_src(msl, 3, 3) == 5);
    assert(ori_acc(msl, 3, 3) == 2);
    assert(ori_src(msl, 3, 4) == 4);
    assert(ori_acc(msl, 3, 4) == 0);
    assert(ori_src(msl, 3, 5) == 1);
    assert(ori_acc(msl, 3, 5) == 0);
    assert(ori_src(msl, 3, 6) == 3);
    assert(ori_acc(msl, 3, 6) == 3);
    assert(ori_src(msl, 3, 7) == 2);
    assert(ori_acc(msl, 3, 7) == 3);
    assert(iter_rot(msl, 9, 0) == 0);
    assert(iter_rot(msl, 9, 1) == 7);
    assert(iter_rot(msl, 9, 2) == 6);
    assert(iter_rot(msl, 9, 3) == 5);
    assert(iter_rot(msl, 9, 4) == 4);
    assert(iter_rot(msl, 9, 5) == 1);
    assert(iter_rot(msl, 9, 6) == 3);
    assert(iter_rot(msl, 9, 7) == 2);
    assert(ori_src(msl, 9, 0) == 0);
    assert(ori_acc(msl, 9, 0) == 0);
    assert(ori_src(msl, 9, 1) == 5);
    assert(ori_acc(msl, 9, 1) == 2);
    assert(ori_src(msl, 9, 2) == 7);
    assert(ori_acc(msl, 9, 2) == 11);
    assert(ori_src(msl, 9, 3) == 6);
    assert(ori_acc(msl, 9, 3) == 13);
    assert(ori_src(msl, 9, 4) == 4);
    assert(ori_acc(msl, 9, 4) == 0);
    assert(ori_src(msl, 9, 5) == 3);
    assert(ori_acc(msl, 9, 5) == 8);
    assert(ori_src(msl, 9, 6) == 2);
    assert(ori_acc(msl, 9, 6) == 14);
    assert(ori_src(msl, 9, 7) == 1);
    assert(ori_acc(msl, 9, 7) == 6);
    assert(iter_rot(msl, 6, 0) == 0);
    assert(iter_rot(msl, 12, 0) == 0);
    assert(iter_rot(msl, 6, 1) == 1);
    assert(iter_rot(msl, 12, 1) == 1);
    assert(iter_rot(msl, 6, 2) == 2);
    assert(iter_rot(msl, 12, 2) == 2);
    assert(iter_rot(msl, 6, 3) == 3);
    assert(iter_rot(msl, 12, 3) == 3);
    assert(iter_rot(msl, 6, 4) == 4);
    assert(iter_rot(msl, 12, 4) == 4);
    assert(iter_rot(msl, 6, 5) == 5);
    assert(iter_rot(msl, 12, 5) == 5);
    assert(iter_rot(msl, 6, 6) == 6);
    assert(iter_rot(msl, 12, 6) == 6);
    assert(iter_rot(msl, 6, 7) == 7);
    assert(iter_rot(msl, 12, 7) == 7);
    assert(ori_src(msl, 6, 0) == 0);
    assert(ori_acc(msl, 6, 0) == 0);
    assert(ori_src(msl, 6, 1) == 1);
    assert(ori_acc(msl, 6, 1) == 2);
    assert(ori_src(msl, 6, 2) == 2);
    assert(ori_acc(msl, 6, 2) == 4);
    assert(ori_src(msl, 6, 3) == 3);
    assert(ori_acc(msl, 6, 3) == 4);
    assert(ori_src(msl, 6, 4) == 4);
    assert(ori_acc(msl, 6, 4) == 0);
    assert(ori_src(msl, 6, 5) == 5);
    assert(ori_acc(msl, 6, 5) == 2);
    assert(ori_src(msl, 6, 6) == 6);
    assert(ori_acc(msl, 6, 6) == 4);
    assert(ori_src(msl, 6, 7) == 7);
    assert(ori_acc(msl, 6, 7) == 2);
    assert(ori_src(msl, 12, 0) == 0);
    assert(ori_acc(msl, 12, 0) == 0);
    assert(ori_src(msl, 12, 1) == 1);
    assert(ori_acc(msl, 12, 1) == 6);
    assert(ori_src(msl, 12, 2) == 2);
    assert(ori_acc(msl, 12, 2) == 18);
    assert(ori_src(msl, 12, 3) == 3);
    assert(ori_acc(msl, 12, 3) == 8);
    assert(ori_src(msl, 12, 4) == 4);
    assert(ori_acc(msl, 12, 4) == 0);
    assert(ori_src(msl, 12, 5) == 5);
    assert(ori_acc(msl, 12, 5) == 6);
    assert(ori_src(msl, 12, 6) == 6);
    assert(ori_acc(msl, 12, 6) == 18);
    assert(ori_src(msl, 12, 7) == 7);
    assert(ori_acc(msl, 12, 7) == 16);
    assert forall|k: int| 0 <= k < 8 implies #[trigger] pos_net(twist_seq_for(7, 3))[k] == id_perm()[k] by {
        lemma_pos_run_pointwise(msl, id_perm(), 12, k);
        if k == 0 {
            assert(id_perm()[0] == 0u8);
            assert(pos_net(twist_seq_for(7, 3))[0] == 0u8);
        } else if k == 1 {
            assert(id_perm()[1] == 1u8);
            assert(pos_net(twist_seq_for(7, 3))[1] == 1u8);
        } else if k == 2 {
            assert(id_perm()[2] == 2u8);
            assert(pos_net(twist_seq_for(7, 3))[2] == 2u8);
        } else if k == 3 {
            assert(id_perm()[3] == 3u8);
            assert(pos_net(twist_seq_for(7, 3))[3] == 3u8);
        } else if k == 4 {
            assert(id_perm()[4] == 4u8);
            assert(pos_net(twist_seq_for(7, 3))[4] == 4u8);
        } else if k == 5 {
            assert(id_perm()[5] == 5u8);
            assert(pos_net(twist_seq_for(7, 3))[5] == 5u8);
        } else if k == 6 {
            assert(id_perm()[6] == 6u8);
            assert(pos_net(twist_seq_for(7, 3))[6] == 6u8);
        } else if k == 7 {
            assert(id_perm()[7] == 7u8);
            assert(pos_net(twist_seq_for(7, 3))[7] == 7u8);
        }
    }
    lemma_pos_run_pointwise(msl, id_perm(), 12, 0);
    assert(pos_net(twist_seq_for(7, 3)) =~= id_perm());
    assert forall|t: int| 0 <= t < 8 implies ori_src(twist_seq_for(7, 3), 12, t) == t && #[trigger] ori_acc(twist_seq_for(7, 3), 12, t) % 3 == twist_delta(7, 3, t) by {
        if t == 0 {
            assert(ori_acc(msl, 12, 0) % 3 == 0);
        } else if t == 1 {
            assert(ori_acc(msl, 12, 1) % 3 == 0);
        } else if t == 2 {
            assert(ori_acc(msl, 12, 2) % 3 == 0);
        } else if t == 3 {
            assert(ori_acc(msl, 12, 3) % 3 == 2);
        } else if t == 4 {
            assert(ori_acc(msl, 12, 4) % 3 == 0);
        } else if t == 5 {
            assert(ori_acc(msl, 12, 5) % 3 == 0);
        } else if t == 6 {
            assert(ori_acc(msl, 12, 6) % 3 == 0);
        } else if t == 7 {
            assert(ori_acc(msl, 12, 7) % 3 == 1);
        }
    }
}

#[verifier::rlimit(100)]
#[verifier::spinoff_prover]
proof fn twist_pair_7_4()
    ensures
        twist_pair_ok(7, 4),
{
    reveal_with_fuel(iter_rot, 16);
    reveal_with_fuel(ori_src, 16);
    reveal_with_fuel(ori_acc, 16);
    crate::positions::lemma_move_rot_table();
    crate::orientations::lemma_q_back_table();
    reveal(twist_seq_for);
    let msl: Seq<Move> = seq![Move::U3, Move::F3, Move::L1, Move::F3, Move::L1, Move::F3, Move::L1, Move::F1, Move::L3, Move::F1, Move::L3, Move::F1, Move::L3, Move::U1];
    assert(twist_seq_for(7, 4) =~= msl);
    assert(iter_rot(msl, 3, 0) == 4);
    assert(iter_rot(msl, 3, 1) == 1);
    assert(iter_rot(msl, 3, 2) == 3);
    assert(iter_rot(msl, 3, 3) == 5);
    assert(iter_rot(msl, 3, 4) == 2);
    assert(iter_rot(msl, 3, 5) == 6);
    assert(iter_rot(msl, 3, 6) == 0);
    assert(iter_rot(msl, 3, 7) == 7);
    assert(ori_src(msl, 3, 0) == 6);
    assert(ori_acc(msl, 3, 0) == 4);
    assert(ori_src(msl, 3, 1) == 1);
    assert(ori_acc(msl, 3, 1) == 0);
    assert(ori_src(msl, 3, 2) == 4);
    assert(ori_acc(msl, 3, 2) == 4);
    assert(ori_src(msl, 3, 3) == 2);
    assert(ori_acc(msl, 3, 3) == 5);
    assert(ori_src(msl, 3, 4) == 0);
    assert(ori_acc(msl, 3, 4) == 0);
    assert(ori_src(msl, 3, 5) == 3);
    assert(ori_acc(msl, 3, 5) == 8);
    assert(ori_src(msl, 3, 6) == 5);
    assert(ori_acc(msl, 3, 6) == 5);
    assert(ori_src(msl, 3, 7) == 7);
    assert(ori_acc(msl, 3, 7) == 10);
    assert(iter_rot(msl, 10, 0) == 2);
    assert(iter_rot(msl, 10, 1) == 1);
    assert(iter_rot(msl, 10, 2) == 3);
    assert(iter_rot(msl, 10, 3) == 5);
    assert(iter_rot(msl, 10, 4) == 7);
    assert(iter_rot(msl, 10, 5) == 6);
    assert(iter_rot(msl, 10, 6) == 4);
    assert(iter_rot(msl, 10, 7) == 0);
    assert(ori_src(msl, 10, 0) == 7);
    assert(ori_acc(msl, 10, 0) == 21);
    assert(ori_src(msl, 10, 1) == 1);
    assert(ori_acc(msl, 10, 1) == 0);
    assert(ori_src(msl, 10, 2) == 0);
    assert(ori_acc(msl, 10, 2) == 4);
    assert(ori_src(msl, 10, 3) == 2);
    assert(ori_acc(msl, 10, 3) == 5);
    assert(ori_src(msl, 10, 4) == 6);
    assert(ori_acc(msl, 10, 4) == 10);
    assert(ori_src(msl, 10, 5) == 3);
    assert(ori_acc(msl, 10, 5) == 20);
    assert(ori_src(msl, 10, 6) == 5);
    assert(ori_acc(msl, 10, 6) == 17);
    assert(ori_src(msl, 10, 7) == 4);
    assert(ori_acc(msl, 10, 7) == 7);
    assert(iter_rot(msl, 7, 0) == 0);
    assert(iter_rot(msl, 14, 0) == 0);
    assert(iter_rot(msl, 7, 1) == 1);
    assert(iter_rot(msl, 14, 1) == 1);
    assert(iter_rot(msl, 7, 2) == 3);
    assert(iter_rot(msl, 14, 2) == 2);
    assert(iter_rot(msl, 7, 3) == 7);
    assert(iter_rot(msl, 14, 3) == 3);
    assert(iter_rot(msl, 7, 4) == 4);
    assert(iter_rot(msl, 14, 4) == 4);
    assert(iter_rot(msl, 7, 5) == 5);
    assert(iter_rot(msl, 14, 5) == 5);
    assert(iter_rot(msl, 7, 6) == 2);
    assert(iter_rot(msl, 14, 6) == 6);
    assert(iter_rot(msl, 7, 7) == 6);
    assert(iter_rot(msl, 14, 7) == 7);
    assert(ori_src(msl, 7, 0) == 0);
    assert(ori_acc(msl, 7, 0) == 4);
    assert(ori_src(msl, 7, 1) == 1);
    assert(ori_acc(msl, 7, 1) == 0);
    assert(ori_src(msl, 7, 2) == 6);
    assert(ori_acc(msl, 7, 2) == 8);
    assert(ori_src(msl, 7, 3) == 2);
    assert(ori_acc(msl, 7, 3) == 5);
    assert(ori_src(msl, 7, 4) == 4);
    assert(ori_acc(msl, 7, 4) == 4);
    assert(ori_src(msl, 7, 5) == 5);
    assert(ori_acc(msl, 7, 5) == 14);
    assert(ori_src(msl, 7, 6) == 7);
    assert(ori_acc(msl, 7, 6) == 19);
    assert(ori_src(msl, 7, 7) == 3);
    assert(ori_acc(msl, 7, 7) == 18);
    assert(ori_src(msl, 14, 0) == 0);
    assert(ori_acc(msl, 14, 0) == 6);
    assert(ori_src(msl, 14, 1) == 1);
    assert(ori_acc(msl, 14, 1) == 0);
    assert(ori_src(msl, 14, 2) == 2);
    assert(ori_acc(msl, 14, 2) == 6);
    assert(ori_src(msl, 14, 3) == 3);
    assert(ori_acc(msl, 14, 3) == 24);
    assert(ori_src(msl, 14, 4) == 4);
    assert(ori_acc(msl, 14, 4) == 8);
    assert(ori_src(msl, 14, 5) == 5);
    assert(ori_acc(msl, 14, 5) == 18);
    assert(ori_src(msl, 14, 6) == 6);
    assert(ori_acc(msl, 14, 6) == 12);
    assert(ori_src(msl, 14, 7) == 7);
    assert(ori_acc(msl, 14, 7) == 22);
    assert forall|k: int| 0 <= k < 8 implies #[trigger] pos_net(twist_seq_for(7, 4))[k] == id_perm()[k] by {
        lemma_pos_run_pointwise(msl, id_perm(), 14, k);
        if k == 0 {
            assert(id_perm()[0] == 0u8);
            assert(pos_net(twist_seq_for(7, 4))[0] == 0u8);
        } else if k == 1 {
            assert(id_perm()[1] == 1u8);
            assert(pos_net(twist_seq_for(7, 4))[1] == 1u8);
        } else if k == 2 {
            assert(id_perm()[2] == 2u8);
            assert(pos_net(twist_seq_for(7, 4))[2] == 2u8);
        } else if k == 3 {
            assert(id_perm()[3] == 3u8);
            assert(pos_net(twist_seq_for(7, 4))[3] == 3u8);
        } else if k == 4 {
            assert(id_perm()[4] == 4u8);
            assert(pos_net(twist_seq_for(7, 4))[4] == 4u8);
        } else if k == 5 {
            assert(id_perm()[5] == 5u8);
            assert(pos_net(twist_seq_for(7, 4))[5] == 5u8);
        } else if k == 6 {
            assert(id_perm()[6] == 6u8);
            assert(pos_net(twist_seq_for(7, 4))[6] == 6u8);
        } else if k == 7 {
            assert(id_perm()[7] == 7u8);
            assert(pos_net(twist_seq_for(7, 4))[7] == 7u8);
        }
    }
    lemma_pos_run_pointwise(msl, id_perm(), 14, 0);
    assert(pos_net(twist_seq_for(7, 4)) =~= id_perm());
    assert forall|t: int| 0 <= t < 8 implies ori_src(twist_seq_for(7, 4), 14, t) == t && #[trigger] ori_acc(twist_seq_for(7, 4), 14, t) % 3 == twist_delta(7, 4, t) by {
        if t == 0 {
            assert(ori_acc(msl, 14, 0) % 3 == 0);
        } else if t == 1 {
            assert(ori_acc(msl, 14, 1) % 3 == 0);
        } else if t == 2 {
            assert(ori_acc(msl, 14, 2) % 3 == 0);
        } else if t == 3 {
            assert(ori_acc(msl, 14, 3) % 3 == 0);
        } else if t == 4 {
            assert(ori_acc(msl, 14, 4) % 3 == 2);
        } else if t == 5 {
            assert(ori_acc(msl, 14, 5) % 3 == 0);
        } else if t == 6 {
            assert(ori_acc(msl, 14, 6) % 3 == 0);
        } else if t == 7 {
            assert(ori_acc(msl, 14, 7) % 3 == 1);
        }
    }
}

#[verifier::rlimit(100)]
#[verifier::spinoff_prover]
proof fn twist_pair_7_5()
    ensures
        twist_pair_ok(7, 5),
{
    reveal_with_fuel(iter_rot, 16);
    reveal_with_fuel(ori_src, 16);
    reveal_with_fuel(ori_acc, 16);
    crate::positions::lemma_move_rot_table();
    crate::orientations::lemma_q_back_table();
    reveal(twist_seq_for);
    let msl: Seq<Move> = seq![Move::R1, Move::F3, Move::R1, Move::F3, Move::R1, Move::F3, Move::R3, Move::F1, Move::R3, Move::F1, Move::R3, Move::F1];
    assert(twist_seq_for(7, 5) =~= msl);
    assert(iter_rot(msl, 3, 0) == 0);
    assert(iter_rot(msl, 3, 1) == 7);
    assert(iter_rot(msl, 3, 2) == 2);
    assert(iter_rot(msl, 3, 3) == 1);
    assert(iter_rot(msl, 3, 4) == 6);
    assert(iter_rot(msl, 3, 5) == 3);
    assert(iter_rot(msl, 3, 6) == 5);
    assert(iter_rot(msl, 3, 7) == 4);
    assert(ori_src(msl, 3, 0) == 0);
    assert(ori_acc(msl, 3, 0) == 0);
    assert(ori_src(msl, 3, 1) == 3);
    assert(ori_acc(msl, 3, 1) == 4);
    assert(ori_src(msl, 3, 2) == 2);
    assert(ori_acc(msl, 3, 2) == 0);
    assert(ori_src(msl, 3, 3) == 5);
    assert(ori_acc(msl, 3, 3) == 0);
    assert(ori_src(msl, 3, 4) == 7);
    assert(ori_acc(msl, 3, 4) == 5);
    assert(ori_src(msl, 3, 5) == 6);
    assert(ori_acc(msl, 3, 5) == 5);
    assert(ori_src(msl, 3, 6) == 4);
    assert(ori_acc(msl, 3, 6) == 4);
    assert(ori_src(msl, 3, 7) == 1);
    assert(ori_acc(msl, 3, 7) == 0);
    assert(iter_rot(msl, 9, 0) == 0);
    assert(iter_rot(msl, 9, 1) == 3);
    assert(iter_rot(msl, 9, 2) == 2);
    assert(iter_rot(msl, 9, 3) == 5);
    assert(iter_rot(msl, 9, 4) == 7);
    assert(iter_rot(msl, 9, 5) == 6);
    assert(iter_rot(msl, 9, 6) == 4);
    assert(iter_rot(msl, 9, 7) == 1);
    assert(ori_src(msl, 9, 0) == 0);
    assert(ori_acc(msl, 9, 0) == 0);
    assert(ori_src(msl, 9, 1) == 7);
    assert(ori_acc(msl, 9, 1) == 14);
    assert(ori_src(msl, 9, 2) == 2);
    assert(ori_acc(msl, 9, 2) == 0);
    assert(ori_src(msl, 9, 3) == 1);
    assert(ori_acc(msl, 9, 3) == 6);
    assert(ori_src(msl, 9, 4) == 6);
    assert(ori_acc(msl, 9, 4) == 16);
    assert(ori_src(msl, 9, 5) == 3);
    assert(ori_acc(msl, 9, 5) == 4);
    assert(ori_src(msl, 9, 6) == 5);
    assert(ori_acc(msl, 9, 6) == 5);
    assert(ori_src(msl, 9, 7) == 4);
    assert(ori_acc(msl, 9, 7) == 15);
    assert(iter_rot(msl, 6, 0) == 0);
    assert(iter_rot(msl, 12, 0) == 0);
    assert(iter_rot(msl, 6, 1) == 1);
    assert(iter_rot(msl, 12, 1) == 1);
    assert(iter_rot(msl, 6, 2) == 2);
    assert(iter_rot(msl, 12, 2) == 2);
    assert(iter_rot(msl, 6, 3) == 3);
    assert(iter_rot(msl, 12, 3) == 3);
    assert(iter_rot(msl, 6, 4) == 4);
    assert(iter_rot(msl, 12, 4) == 4);
    assert(iter_rot(msl, 6, 5) == 5);
    assert(iter_rot(msl, 12, 5) == 5);
    assert(iter_rot(msl, 6, 6) == 6);
    assert(iter_rot(msl, 12, 6) == 6);
    assert(iter_rot(msl, 6, 7) == 7);
    assert(iter_rot(msl, 12, 7) == 7);
    assert(ori_src(msl, 6, 0) == 0);
    assert(ori_acc(msl, 6, 0) == 0);
    assert(ori_src(msl, 6, 1) == 1);
    assert(ori_acc(msl, 6, 1) == 4);
    assert(ori_src(msl, 6, 2) == 2);
    assert(ori_acc(msl, 6, 2) == 0);
    assert(ori_src(msl, 6, 3) == 3);
    assert(ori_acc(msl, 6, 3) == 4);
    assert(ori_src(msl, 6, 4) == 4);
    assert(ori_acc(msl, 6, 4) == 14);
    assert(ori_src(msl, 6, 5) == 5);
    assert(ori_acc(msl, 6, 5) == 4);
    assert(ori_src(msl, 6, 6) == 6);
    assert(ori_acc(msl, 6, 6) == 14);
    assert(ori_src(msl, 6, 7) == 7);
    assert(ori_acc(msl, 6, 7) == 14);
    assert(ori_src(msl, 12, 0) == 0);
    assert(ori_acc(msl, 12, 0) == 0);
    assert(ori_src(msl, 12, 1) == 1);
    assert(ori_acc(msl, 12, 1) == 6);
    assert(ori_src(msl, 12, 2) == 2);
    assert(ori_acc(msl, 12, 2) == 0);
    assert(ori_src(msl, 12, 3) == 3);
    assert(ori_acc(msl, 12, 3) == 6);
    assert(ori_src(msl, 12, 4) == 4);
    assert(ori_acc(msl, 12, 4) == 18);
    assert(ori_src(msl, 12, 5) == 5);
    assert(ori_acc(msl, 12, 5) == 8);
    assert(ori_src(msl, 12, 6) == 6);
    assert(ori_acc(msl, 12, 6) == 18);
    assert(ori_src(msl, 12, 7) == 7);
    assert(ori_acc(msl, 12, 7) == 16);
    assert forall|k: int| 0 <= k < 8 implies #[trigger] pos_net(twist_seq_for(7, 5))[k] == id_perm()[k] by {
        lemma_pos_run_pointwise(msl, id_perm(), 12, k);
        if k == 0 {
            assert(id_perm()[0] == 0u8);
            assert(pos_net(twist_seq_for(7, 5))[0] == 0u8);
        } else if k == 1 {
            assert(id_perm()[1] == 1u8);
            assert(pos_net(twist_seq_for(7, 5))[1] == 1u8);
        } else if k == 2 {
            assert(id_perm()[2] == 2u8);
            assert(pos_net(twist_seq_for(7, 5))[2] == 2u8);
        } else if k == 3 {
            assert(id_perm()[3] == 3u8);
            assert(pos_net(twist_seq_for(7, 5))[3] == 3u8);
        } else if k == 4 {
            assert(id_perm()[4] == 4u8);
            assert(pos_net(twist_seq_for(7, 5))[4] == 4u8);
        } else if k == 5 {
            assert(id_perm()[5] == 5u8);
            assert(pos_net(twist_seq_for(7, 5))[5] == 5u8);
        } else if k == 6 {
            assert(id_perm()[6] == 6u8);
            assert(pos_net(twist_seq_for(7, 5))[6] == 6u8);
        } else if k == 7 {
            assert(id_perm()[7] == 7u8);
            assert(pos_net(twist_seq_for(7, 5))[7] == 7u8);
        }
    }
    lemma_pos_run_pointwise(msl, id_perm(), 12, 0);
    assert(pos_net(twist_seq_for(7, 5)) =~= id_perm());
    assert forall|t: int| 0 <= t < 8 implies ori_src(twist_seq_for(7, 5), 12, t) == t && #[trigger] ori_acc(twist_seq_for(7, 5), 12, t) % 3 == twist_delta(7, 5, t) by {
        if t == 0 {
            assert(ori_acc(msl, 12, 0) % 3 == 0);
        } else if t == 1 {
            assert(ori_acc(msl, 12, 1) % 3 == 0);
        } else if t == 2 {
            assert(ori_acc(msl, 12, 2) % 3 == 0);
        } else if t == 3 {
            assert(ori_acc(msl, 12, 3) % 3 == 0);
        } else if t == 4 {
            assert(ori_acc(msl, 12, 4) % 3 == 0);
        } else if t == 5 {
            assert(ori_acc(msl, 12, 5) % 3 == 2);
        } else if t == 6 {
            assert(ori_acc(msl, 12, 6) % 3 == 0);
        } else if t == 7 {
            assert(ori_acc(msl, 12, 7) % 3 == 1);
        }
    }
}

#[verifier::rlimit(100)]
#[verifier::spinoff_prover]
proof fn twist_pair_7_6()
    ensures
        twist_pair_ok(7, 6),
{
    reveal_with_fuel(iter_rot, 16);
    reveal_with_fuel(ori_src, 16);
    reveal_with_fuel(ori_acc, 16);
    crate::positions::lemma_move_rot_table();
    crate::orientations::lemma_q_back_table();
    reveal(twist_seq_for);
    let msl: Seq<Move> = seq![Move::F1, Move::U3, Move::F1, Move::U3, Move::F1, Move::U3, Move::F3, Move::U1, Move::F3, Move::U1, Move::F3, Move::U1];
    assert(twist_seq_for(7, 6) =~= msl);
    assert(iter_rot(msl, 3, 0) == 0);
    assert(iter_rot(msl, 3, 1) == 1);
    assert(iter_rot(msl, 3, 2) == 3);
    assert(iter_rot(msl, 3, 3) == 6);
    assert(iter_rot(msl, 3, 4) == 7);
    assert(iter_rot(msl, 3, 5) == 4);
    assert(iter_rot(msl, 3, 6) == 5);
    assert(iter_rot(msl, 3, 7) == 2);
    assert(ori_src(msl, 3, 0) == 0);
    assert(ori_acc(msl, 3, 0) == 0);
    assert(ori_src(msl, 3, 1) == 1);
    assert(ori_acc(msl, 3, 1) == 0);
    assert(ori_src(msl, 3, 2) == 7);
    assert(ori_acc(msl, 3, 2) == 5);
    assert(ori_src(msl, 3, 3) == 2);
    assert(ori_acc(msl, 3, 3) == 5);
    assert(ori_src(msl, 3, 4) == 5);
    assert(ori_acc(msl, 3, 4) == 9);
    assert(ori_src(msl, 3, 5) == 6);
    assert(ori_acc(msl, 3, 5) == 3);
    assert(ori_src(msl, 3, 6) == 3);
    assert(ori_acc(msl, 3, 6) == 5);
    assert(ori_src(msl, 3, 7) == 4);
    assert(ori_acc(msl, 3, 7) == 3);
    assert(iter_rot(msl, 9, 0) == 0);
    assert(iter_rot(msl, 9, 1) == 1);
    assert(iter_rot(msl, 9, 2) == 7);
    assert(iter_rot(msl, 9, 3) == 2);
    assert(iter_rot(msl, 9, 4) == 5);
    assert(iter_rot(msl, 9, 5) == 6);
    assert(iter_rot(msl, 9, 6) == 3);
    assert(iter_rot(msl, 9, 7) == 4);
    assert(ori_src(msl, 9, 0) == 0);
    assert(ori_acc(msl, 9, 0) == 0);
    assert(ori_src(msl, 9, 1) == 1);
    assert(ori_acc(msl, 9, 1) == 0);
    assert(ori_src(msl, 9, 2) == 3);
    assert(ori_acc(msl, 9, 2) == 15);
    assert(ori_src(msl, 9, 3) == 6);
    assert(ori_acc(msl, 9, 3) == 17);
    assert(ori_src(msl, 9, 4) == 7);
    assert(ori_acc(msl, 9, 4) == 23);
    assert(ori_src(msl, 9, 5) == 4);
    assert(ori_acc(msl, 9, 5) == 19);
    assert(ori_src(msl, 9, 6) == 5);
    assert(ori_acc(msl, 9, 6) == 19);
    assert(ori_src(msl, 9, 7) == 2);
    assert(ori_acc(msl, 9, 7) == 21);
    assert(iter_rot(msl, 6, 0) == 0);
    assert(iter_rot(msl, 12, 0) == 0);
    assert(iter_rot(msl, 6, 1) == 1);
    assert(iter_rot(msl, 12, 1) == 1);
    assert(iter_rot(msl, 6, 2) == 2);
    assert(iter_rot(msl, 12, 2) == 2);
    assert(iter_rot(msl, 6, 3) == 3);
    assert(iter_rot(msl, 12, 3) == 3);
    assert(iter_rot(msl, 6, 4) == 4);
    assert(iter_rot(msl, 12, 4) == 4);
    assert(iter_rot(msl, 6, 5) == 5);
    assert(iter_rot(msl, 12, 5) == 5);
    assert(iter_rot(msl, 6, 6) == 6);
    assert(iter_rot(msl, 12, 6) == 6);
    assert(iter_rot(msl, 6, 7) == 7);
    assert(iter_rot(msl, 12, 7) == 7);
    assert(ori_src(msl, 6, 0) == 0);
    assert(ori_acc(msl, 6, 0) == 0);
    assert(ori_src(msl, 6, 1) == 1);
    assert(ori_acc(msl, 6, 1) == 0);
    assert(ori_src(msl, 6, 2) == 2);
    assert(ori_acc(msl, 6, 2) == 14);
    assert(ori_src(msl, 6, 3) == 3);
    assert(ori_acc(msl, 6, 3) == 14);
    assert(ori_src(msl, 6, 4) == 4);
    assert(ori_acc(msl, 6, 4) == 10);
    assert(ori_src(msl, 6, 5) == 5);
    assert(ori_acc(msl, 6, 5) == 10);
    assert(ori_src(msl, 6, 6) == 6);
    assert(ori_acc(msl, 6, 6) == 10);
    assert(ori_src(msl, 6, 7) == 7);
    assert(ori_acc(msl, 6, 7) == 14);
    assert(ori_src(msl, 12, 0) == 0);
    assert(ori_acc(msl, 12, 0) == 0);
    assert(ori_src(msl, 12, 1) == 1);
    assert(ori_acc(msl, 12, 1) == 0);
    assert(ori_src(msl, 12, 2) == 2);
    assert(ori_acc(msl, 12, 2) == 24);
    assert(ori_src(msl, 12, 3) == 3);
    assert(ori_acc(msl, 12, 3) == 24);
    assert(ori_src(msl, 12, 4) == 4);
    assert(ori_acc(msl, 12, 4) == 24);
    assert(ori_src(msl, 12, 5) == 5);
    assert(ori_acc(msl, 12, 5) == 24);
    assert(ori_src(msl, 12, 6) == 6);
    assert(ori_acc(msl, 12, 6) == 20);
    assert(ori_src(msl, 12, 7) == 7);
    assert(ori_acc(msl, 12, 7) == 28);
    assert forall|k: int| 0 <= k < 8 implies #[trigger] pos_net(twist_seq_for(7, 6))[k] == id_perm()[k] by {
        lemma_pos_run_pointwise(msl, id_perm(), 12, k);
        if k == 0 {
            assert(id_perm()[0] == 0u8);
            assert(pos_net(twist_seq_for(7, 6))[0] == 0u8);
        } else if k == 1 {
            assert(id_perm()[1] == 1u8);
            assert(pos_net(twist_seq_for(7, 6))[1] == 1u8);
        } else if k == 2 {
            assert(id_perm()[2] == 2u8);
            assert(pos_net(twist_seq_for(7, 6))[2] == 2u8);
        } else if k == 3 {
            assert(id_perm()[3] == 3u8);
            assert(pos_net(twist_seq_for(7, 6))[3] == 3u8);
        } else if k == 4 {
            assert(id_perm()[4] == 4u8);
            assert(pos_net(twist_seq_for(7, 6))[4] == 4u8);
        } else if k == 5 {
            assert(id_perm()[5] == 5u8);
            assert(pos_net(twist_seq_for(7, 6))[5] == 5u8);
        } else if k == 6 {
            assert(id_perm()[6] == 6u8);
            assert(pos_net(twist_seq_for(7, 6))[6] == 6u8);
        } else if k == 7 {
            assert(id_perm()[7] == 7u8);
            assert(pos_net(twist_seq_for(7, 6))[7] == 7u8);
        }
    }
    lemma_pos_run_pointwise(msl, id_perm(), 12, 0);
    assert(pos_net(twist_seq_for(7, 6)) =~= id_perm());
    assert forall|t: int| 0 <= t < 8 implies ori_src(twist_seq_for(7, 6), 12, t) == t && #[trigger] ori_acc(twist_seq_for(7, 6), 12, t) % 3 == twist_delta(7, 6, t) by {
        if t == 0 {
            assert(ori_acc(msl, 12, 0) % 3 == 0);
        } else if t == 1 {
            assert(ori_acc(msl, 12, 1) % 3 == 0);
        } else if t == 2 {
            assert(ori_acc(msl, 12, 2) % 3 == 0);
        } else if t == 3 {
            assert(ori_acc(msl, 12, 3) % 3 == 0);
        } else if t == 4 {
            assert(ori_acc(msl, 12, 4) % 3 == 0);
        } else if t == 5 {
            assert(ori_acc(msl, 12, 5) % 3 == 0);
        } else if t == 6 {
            assert(ori_acc(msl, 12, 6) % 3 == 2);
        } else if t == 7 {
            assert(ori_acc(msl, 12, 7) % 3 == 1);
        }
    }
}

/// For every pair of distinct corners, the twist macro selected by the
/// number of differing axis bits keeps every corner in its slot, twists
/// corner i forward once and corner j forward twice, and leaves every
/// other corner's twist unchanged.
pub proof fn lemma_twist_macro(i: int, j: int)
    requires
        0 <= i < 8,
        0 <= j < 8,
        i != j,
    ensures
        twist_pair_ok(i, j),
{
    if i == 0 && j == 1 {
        twist_pair_0_1();
    } else if i == 0 && j == 2 {
        twist_pair_0_2();
    } else if i == 0 && j == 3 {
        twist_pair_0_3();
    } else if i == 0 && j == 4 {
        twist_pair_0_4();
    } else if i == 0 && j == 5 {
        twist_pair_0_5();
    } else if i == 0 && j == 6 {
        twist_pair_0_6();
    } else if i == 0 && j == 7 {
        twist_pair_0_7();
    } else if i == 1 && j == 0 {
        twist_pair_1_0();
    } else if i == 1 && j == 2 {
        twist_pair_1_2();
    } else if i == 1 && j == 3 {
        twist_pair_1_3();
    } else if i == 1 && j == 4 {
        twist_pair_1_4();
    } else if i == 1 && j == 5 {
        twist_pair_1_5();
    } else if i == 1 && j == 6 {
        twist_pair_1_6();
    } else if i == 1 && j == 7 {
        twist_pair_1_7();
    } else if i == 2 && j == 0 {
        twist_pair_2_0();
    } else if i == 2 && j == 1 {
        twist_pair_2_1();
    } else if i == 2 && j == 3 {
        twist_pair_2_3();
    } else if i == 2 && j == 4 {
        twist_pair_2_4();
    } else if i == 2 && j == 5 {
        twist_pair_2_5();
    } else if i == 2 && j == 6 {
        twist_pair_2_6();
    } else if i == 2 && j == 7 {
        twist_pair_2_7();
    } else if i == 3 && j == 0 {
        twist_pair_3_0();
    } else if i == 3 && j == 1 {
        twist_pair_3_1();
    } else if i == 3 && j == 2 {
        twist_pair_3_2();
    } else if i == 3 && j == 4 {
        twist_pair_3_4();
    } else if i == 3 && j == 5 {
        twist_pair_3_5();
    } else if i == 3 && j == 6 {
        twist_pair_3_6();
    } else if i == 3 && j == 7 {
        twist_pair_3_7();
    } else if i == 4 && j == 0 {
        twist_pair_4_0();
    } else if i == 4 && j == 1 {
        twist_pair_4_1();
    } else if i == 4 && j == 2 {
        twist_pair_4_2();
    } else if i == 4 && j == 3 {
        twist_pair_4_3();
    } else if i == 4 && j == 5 {
        twist_pair_4_5();
    } else if i == 4 && j == 6 {
        twist_pair_4_6();
    } else if i == 4 && j == 7 {
        twist_pair_4_7();
    } else if i == 5 && j == 0 {
        twist_pair_5_0();
    } else if i == 5 && j == 1 {
        twist_pair_5_1();
    } else if i == 5 && j == 2 {
        twist_pair_5_2();
    } else if i == 5 && j == 3 {
        twist_pair_5_3();
    } else if i == 5 && j == 4 {
        twist_pair_5_4();
    } else if i == 5 && j == 6 {
        twist_pair_5_6();
    } else if i == 5 && j == 7 {
        twist_pair_5_7();
    } else if i == 6 && j == 0 {
        twist_pair_6_0();
    } else if i == 6 && j == 1 {
        twist_pair_6_1();
    } else if i == 6 && j == 2 {
        twist_pair_6_2();
    } else if i == 6 && j == 3 {
        twist_pair_6_3();
    } else if i == 6 && j == 4 {
        twist_pair_6_4();
    } else if i == 6 && j == 5 {
        twist_pair_6_5();
    } else if i == 6 && j == 7 {
        twist_pair_6_7();
    } else if i == 7 && j == 0 {
        twist_pair_7_0();
    } else if i == 7 && j == 1 {
        twist_pair_7_1();
    } else if i == 7 && j == 2 {
        twist_pair_7_2();
    } else if i == 7 && j == 3 {
        twist_pair_7_3();
    } else if i == 7 && j == 4 {
        twist_pair_7_4();
    } else if i == 7 && j == 5 {
        twist_pair_7_5();
    } else if i == 7 && j == 6 {
        twist_pair_7_6();
    } else {
        assert(false);
    }
}

} // verus!