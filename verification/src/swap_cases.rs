//! The fifty-six concrete instances of the transposition-macro law: for
//! each ordered pair of distinct corners, the selected macro, followed
//! corner by corner through its moves, performs exactly the transposition
//! of the pair on the position vector.

use vstd::prelude::*;
use crate::cube::Move;
use crate::permutations::id_perm;
use crate::positions::{
    iter_rot, lemma_move_rot_table, lemma_pos_run_pointwise, pos_net, pos_run, swap_pair_ok,
    swap_seq_for, transposed,
};

verus! {
proof fn swap_pair_0_1()
    ensures
        swap_pair_ok(0, 1),
{
    reveal_with_fuel(iter_rot, 15);
    lemma_move_rot_table();
    reveal(swap_seq_for);
    let msl: Seq<Move> = seq![Move::B3, Move::R3, Move::U3, Move::R1, Move::U1, Move::B1, Move::R3, Move::U3, Move::R1, Move::U1, Move::B3];
    assert(swap_seq_for(0, 1) =~= msl);
    assert(iter_rot(msl, 11, 0) == 1);
    assert(iter_rot(msl, 11, 1) == 0);
    assert(iter_rot(msl, 11, 2) == 2);
    assert(iter_rot(msl, 11, 3) == 3);
    assert(iter_rot(msl, 11, 4) == 4);
    assert(iter_rot(msl, 11, 5) == 5);
    assert(iter_rot(msl, 11, 6) == 6);
    assert(iter_rot(msl, 11, 7) == 7);
    assert forall|k: int| 0 <= k < 8 implies #[trigger] pos_net(swap_seq_for(0, 1))[k] == transposed(0, 1)[k] by {
        lemma_pos_run_pointwise(msl, id_perm(), 11, k);
        if k == 0 {
            assert(id_perm()[0] == 0u8);
            assert(pos_net(swap_seq_for(0, 1))[0] == 1u8);
        } else if k == 1 {
            assert(id_perm()[1] == 1u8);
            assert(pos_net(swap_seq_for(0, 1))[1] == 0u8);
        } else if k == 2 {
            assert(id_perm()[2] == 2u8);
            assert(pos_net(swap_seq_for(0, 1))[2] == 2u8);
        } else if k == 3 {
            assert(id_perm()[3] == 3u8);
            assert(pos_net(swap_seq_for(0, 1))[3] == 3u8);
        } else if k == 4 {
            assert(id_perm()[4] == 4u8);
            assert(pos_net(swap_seq_for(0, 1))[4] == 4u8);
        } else if k == 5 {
            assert(id_perm()[5] == 5u8);
            assert(pos_net(swap_seq_for(0, 1))[5] == 5u8);
        } else if k == 6 {
            assert(id_perm()[6] == 6u8);
            assert(pos_net(swap_seq_for(0, 1))[6] == 6u8);
        } else if k == 7 {
            assert(id_perm()[7] == 7u8);
            assert(pos_net(swap_seq_for(0, 1))[7] == 7u8);
        }
    }
    lemma_pos_run_pointwise(msl, id_perm(), 11, 0);
    assert(pos_net(swap_seq_for(0, 1)) =~= transposed(0, 1));
}

proof fn swap_pair_0_2()
    ensures
        swap_pair_ok(0, 2),
{
    reveal_with_fuel(iter_rot, 15);
    lemma_move_rot_table();
    reveal(swap_seq_for);
    let msl: Seq<Move> = seq![Move::L3, Move::U3, Move::F3, Move::U1, Move::F1, Move::L1, Move::U3, Move::F3, Move::U1, Move::F1, Move::L3];
    assert(swap_seq_for(0, 2) =~= msl);
    assert(iter_rot(msl, 11, 0) == 2);
    assert(iter_rot(msl, 11, 1) == 1);
    assert(iter_rot(msl, 11, 2) == 0);
    assert(iter_rot(msl, 11, 3) == 3);
    assert(iter_rot(msl, 11, 4) == 4);
    assert(iter_rot(msl, 11, 5) == 5);
    assert(iter_rot(msl, 11, 6) == 6);
    assert(iter_rot(msl, 11, 7) == 7);
    assert forall|k: int| 0 <= k < 8 implies #[trigger] pos_net(swap_seq_for(0, 2))[k] == transposed(0, 2)[k] by {
        lemma_pos_run_pointwise(msl, id_perm(), 11, k);
        if k == 0 {
            assert(id_perm()[0] == 0u8);
            assert(pos_net(swap_seq_for(0, 2))[0] == 2u8);
        } else if k == 1 {
            assert(id_perm()[1] == 1u8);
            assert(pos_net(swap_seq_for(0, 2))[1] == 1u8);
        } else if k == 2 {
            assert(id_perm()[2] == 2u8);
            assert(pos_net(swap_seq_for(0, 2))[2] == 0u8);
        } else if k == 3 {
            assert(id_perm()[3] == 3u8);
            assert(pos_net(swap_seq_for(0, 2))[3] == 3u8);
        } else if k == 4 {
            assert(id_perm()[4] == 4u8);
            assert(pos_net(swap_seq_for(0, 2))[4] == 4u8);
        } else if k == 5 {
            assert(id_perm()[5] == 5u8);
            assert(pos_net(swap_seq_for(0, 2))[5] == 5u8);
        } else if k == 6 {
            assert(id_perm()[6] == 6u8);
            assert(pos_net(swap_seq_for(0, 2))[6] == 6u8);
        } else if k == 7 {
            assert(id_perm()[7] == 7u8);
            assert(pos_net(swap_seq_for(0, 2))[7] == 7u8);
        }
    }
    lemma_pos_run_pointwise(msl, id_perm(), 11, 0);
    assert(pos_net(swap_seq_for(0, 2)) =~= transposed(0, 2));
}

proof fn swap_pair_0_3()
    ensures
        swap_pair_ok(0, 3),
{
    reveal_with_fuel(iter_rot, 15);
    lemma_move_rot_table();
    reveal(swap_seq_for);
    let msl: Seq<Move> = seq![Move::R3, Move::B3, Move::R3, Move::U3, Move::R1, Move::U1, Move::B1, Move::R3, Move::U3, Move::R1, Move::U1, Move::B3, Move::R1];
    assert(swap_seq_for(0, 3) =~= msl);
    assert(iter_rot(msl, 13, 0) == 3);
    assert(iter_rot(msl, 13, 1) == 1);
    assert(iter_rot(msl, 13, 2) == 2);
    assert(iter_rot(msl, 13, 3) == 0);
    assert(iter_rot(msl, 13, 4) == 4);
    assert(iter_rot(msl, 13, 5) == 5);
    assert(iter_rot(msl, 13, 6) == 6);
    assert(iter_rot(msl, 13, 7) == 7);
    assert forall|k: int| 0 <= k < 8 implies #[trigger] pos_net(swap_seq_for(0, 3))[k] == transposed(0, 3)[k] by {
        lemma_pos_run_pointwise(msl, id_perm(), 13, k);
        if k == 0 {
            assert(id_perm()[0] == 0u8);
            assert(pos_net(swap_seq_for(0, 3))[0] == 3u8);
        } else if k == 1 {
            assert(id_perm()[1] == 1u8);
            assert(pos_net(swap_seq_for(0, 3))[1] == 1u8);
        } else if k == 2 {
            assert(id_perm()[2] == 2u8);
            assert(pos_net(swap_seq_for(0, 3))[2] == 2u8);
        } else if k == 3 {
            assert(id_perm()[3] == 3u8);
            assert(pos_net(swap_seq_for(0, 3))[3] == 0u8);
        } else if k == 4 {
            assert(id_perm()[4] == 4u8);
            assert(pos_net(swap_seq_for(0, 3))[4] == 4u8);
        } else if k == 5 {
            assert(id_perm()[5] == 5u8);
            assert(pos_net(swap_seq_for(0, 3))[5] == 5u8);
        } else if k == 6 {
            assert(id_perm()[6] == 6u8);
            assert(pos_net(swap_seq_for(0, 3))[6] == 6u8);
        } else if k == 7 {
            assert(id_perm()[7] == 7u8);
            assert(pos_net(swap_seq_for(0, 3))[7] == 7u8);
        }
    }
    lemma_pos_run_pointwise(msl, id_perm(), 13, 0);
    assert(pos_net(swap_seq_for(0, 3)) =~= transposed(0, 3));
}

proof fn swap_pair_0_4()
    ensures
        swap_pair_ok(0, 4),
{
    reveal_with_fuel(iter_rot, 15);
    lemma_move_rot_table();
    reveal(swap_seq_for);
    let msl: Seq<Move> = seq![Move::D3, Move::F3, Move::R3, Move::F1, Move::R1, Move::D1, Move::F3, Move::R3, Move::F1, Move::R1, Move::D3];
    assert(swap_seq_for(0, 4) =~= msl);
    assert(iter_rot(msl, 11, 0) == 4);
    assert(iter_rot(msl, 11, 1) == 1);
    assert(iter_rot(msl, 11, 2) == 2);
    assert(iter_rot(msl, 11, 3) == 3);
    assert(iter_rot(msl, 11, 4) == 0);
    assert(iter_rot(msl, 11, 5) == 5);
    assert(iter_rot(msl, 11, 6) == 6);
    assert(iter_rot(msl, 11, 7) == 7);
    assert forall|k: int| 0 <= k < 8 implies #[trigger] pos_net(swap_seq_for(0, 4))[k] == transposed(0, 4)[k] by {
        lemma_pos_run_pointwise(msl, id_perm(), 11, k);
        if k == 0 {
            assert(id_perm()[0] == 0u8);
            assert(pos_net(swap_seq_for(0, 4))[0] == 4u8);
        } else if k == 1 {
            assert(id_perm()[1] == 1u8);
            assert(pos_net(swap_seq_for(0, 4))[1] == 1u8);
        } else if k == 2 {
            assert(id_perm()[2] == 2u8);
            assert(pos_net(swap_seq_for(0, 4))[2] == 2u8);
        } else if k == 3 {
            assert(id_perm()[3] == 3u8);
            assert(pos_net(swap_seq_for(0, 4))[3] == 3u8);
        } else if k == 4 {
            assert(id_perm()[4] == 4u8);
            assert(pos_net(swap_seq_for(0, 4))[4] == 0u8);
        } else if k == 5 {
            assert(id_perm()[5] == 5u8);
            assert(pos_net(swap_seq_for(0, 4))[5] == 5u8);
        } else if k == 6 {
            assert(id_perm()[6] == 6u8);
            assert(pos_net(swap_seq_for(0, 4))[6] == 6u8);
        } else if k == 7 {
            assert(id_perm()[7] == 7u8);
            assert(pos_net(swap_seq_for(0, 4))[7] == 7u8);
        }
    }
    lemma_pos_run_pointwise(msl, id_perm(), 11, 0);
    assert(pos_net(swap_seq_for(0, 4)) =~= transposed(0, 4));
}

proof fn swap_pair_0_5()
    ensures
        swap_pair_ok(0, 5),
{
    reveal_with_fuel(iter_rot, 15);
    lemma_move_rot_table();
    reveal(swap_seq_for);
    let msl: Seq<Move> = seq![Move::F3, Move::D3, Move::F3, Move::R3, Move::F1, Move::R1, Move::D1, Move::F3, Move::R3, Move::F1, Move::R1, Move::D3, Move::F1];
    assert(swap_seq_for(0, 5) =~= msl);
    assert(iter_rot(msl, 13, 0) == 5);
    assert(iter_rot(msl, 13, 1) == 1);
    assert(iter_rot(msl, 13, 2) == 2);
    assert(iter_rot(msl, 13, 3) == 3);
    assert(iter_rot(msl, 13, 4) == 4);
    assert(iter_rot(msl, 13, 5) == 0);
    assert(iter_rot(msl, 13, 6) == 6);
    assert(iter_rot(msl, 13, 7) == 7);
    assert forall|k: int| 0 <= k < 8 implies #[trigger] pos_net(swap_seq_for(0, 5))[k] == transposed(0, 5)[k] by {
        lemma_pos_run_pointwise(msl, id_perm(), 13, k);
        if k == 0 {
            assert(id_perm()[0] == 0u8);
            assert(pos_net(swap_seq_for(0, 5))[0] == 5u8);
        } else if k == 1 {
            assert(id_perm()[1] == 1u8);
            assert(pos_net(swap_seq_for(0, 5))[1] == 1u8);
        } else if k == 2 {
            assert(id_perm()[2] == 2u8);
            assert(pos_net(swap_seq_for(0, 5))[2] == 2u8);
        } else if k == 3 {
            assert(id_perm()[3] == 3u8);
            assert(pos_net(swap_seq_for(0, 5))[3] == 3u8);
        } else if k == 4 {
            assert(id_perm()[4] == 4u8);
            assert(pos_net(swap_seq_for(0, 5))[4] == 4u8);
        } else if k == 5 {
            assert(id_perm()[5] == 5u8);
            assert(pos_net(swap_seq_for(0, 5))[5] == 0u8);
        } else if k == 6 {
            assert(id_perm()[6] == 6u8);
            assert(pos_net(swap_seq_for(0, 5))[6] == 6u8);
        } else if k == 7 {
            assert(id_perm()[7] == 7u8);
            assert(pos_net(swap_seq_for(0, 5))[7] == 7u8);
        }
    }
    lemma_pos_run_pointwise(msl, id_perm(), 13, 0);
    assert(pos_net(swap_seq_for(0, 5)) =~= transposed(0, 5));
}

proof fn swap_pair_0_6()
    ensures
        swap_pair_ok(0, 6),
{
    reveal_with_fuel(iter_rot, 15);
    lemma_move_rot_table();
    reveal(swap_seq_for);
    let msl: Seq<Move> = seq![Move::U3, Move::L3, Move::U3, Move::F3, Move::U1, Move::F1, Move::L1, Move::U3, Move::F3, Move::U1, Move::F1, Move::L3, Move::U1];
    assert(swap_seq_for(0, 6) =~= msl);
    assert(iter_rot(msl, 13, 0) == 6);
    assert(iter_rot(msl, 13, 1) == 1);
    assert(iter_rot(msl, 13, 2) == 2);
    assert(iter_rot(msl, 13, 3) == 3);
    assert(iter_rot(msl, 13, 4) == 4);
    assert(iter_rot(msl, 13, 5) == 5);
    assert(iter_rot(msl, 13, 6) == 0);
    assert(iter_rot(msl, 13, 7) == 7);
    assert forall|k: int| 0 <= k < 8 implies #[trigger] pos_net(swap_seq_for(0, 6))[k] == transposed(0, 6)[k] by {
        lemma_pos_run_pointwise(msl, id_perm(), 13, k);
        if k == 0 {
            assert(id_perm()[0] == 0u8);
            assert(pos_net(swap_seq_for(0, 6))[0] == 6u8);
        } else if k == 1 {
            assert(id_perm()[1] == 1u8);
            assert(pos_net(swap_seq_for(0, 6))[1] == 1u8);
        } else if k == 2 {
            assert(id_perm()[2] == 2u8);
            assert(pos_net(swap_seq_for(0, 6))[2] == 2u8);
        } else if k == 3 {
            assert(id_perm()[3] == 3u8);
            assert(pos_net(swap_seq_for(0, 6))[3] == 3u8);
        } else if k == 4 {
            assert(id_perm()[4] == 4u8);
            assert(pos_net(swap_seq_for(0, 6))[4] == 4u8);
        } else if k == 5 {
            assert(id_perm()[5] == 5u8);
            assert(pos_net(swap_seq_for(0, 6))[5] == 5u8);
        } else if k == 6 {
            assert(id_perm()[6] == 6u8);
            assert(pos_net(swap_seq_for(0, 6))[6] == 0u8);
        } else if k == 7 {
            assert(id_perm()[7] == 7u8);
            assert(pos_net(swap_seq_for(0, 6))[7] == 7u8);
        }
    }
    lemma_pos_run_pointwise(msl, id_perm(), 13, 0);
    assert(pos_net(swap_seq_for(0, 6)) =~= transposed(0, 6));
}

proof fn swap_pair_0_7()
    ensures
        swap_pair_ok(0, 7),
{
    reveal_with_fuel(iter_rot, 15);
    lemma_move_rot_table();
    reveal(swap_seq_for);
    let msl: Seq<Move> = seq![Move::L2, Move::F3, Move::R3, Move::D3, Move::R1, Move::D1, Move::F1, Move::R3, Move::D3, Move::R1, Move::D1, Move::F3, Move::L2];
    assert(swap_seq_for(0, 7) =~= msl);
    assert(iter_rot(msl, 13, 0) == 7);
    assert(iter_rot(msl, 13, 1) == 1);
    assert(iter_rot(msl, 13, 2) == 2);
    assert(iter_rot(msl, 13, 3) == 3);
    assert(iter_rot(msl, 13, 4) == 4);
    assert(iter_rot(msl, 13, 5) == 5);
    assert(iter_rot(msl, 13, 6) == 6);
    assert(iter_rot(msl, 13, 7) == 0);
    assert forall|k: int| 0 <= k < 8 implies #[trigger] pos_net(swap_seq_for(0, 7))[k] == transposed(0, 7)[k] by {
        lemma_pos_run_pointwise(msl, id_perm(), 13, k);
        if k == 0 {
            assert(id_perm()[0] == 0u8);
            assert(pos_net(swap_seq_for(0, 7))[0] == 7u8);
        } else if k == 1 {
            assert(id_perm()[1] == 1u8);
            assert(pos_net(swap_seq_for(0, 7))[1] == 1u8);
        } else if k == 2 {
            assert(id_perm()[2] == 2u8);
            assert(pos_net(swap_seq_for(0, 7))[2] == 2u8);
        } else if k == 3 {
            assert(id_perm()[3] == 3u8);
            assert(pos_net(swap_seq_for(0, 7))[3] == 3u8);
        } else if k == 4 {
            assert(id_perm()[4] == 4u8);
            assert(pos_net(swap_seq_for(0, 7))[4] == 4u8);
        } else if k == 5 {
            assert(id_perm()[5] == 5u8);
            assert(pos_net(swap_seq_for(0, 7))[5] == 5u8);
        } else if k == 6 {
            assert(id_perm()[6] == 6u8);
            assert(pos_net(swap_seq_for(0, 7))[6] == 6u8);
        } else if k == 7 {
            assert(id_perm()[7] == 7u8);
            assert(pos_net(swap_seq_for(0, 7))[7] == 0u8);
        }
    }
    lemma_pos_run_pointwise(msl, id_perm(), 13, 0);
    assert(pos_net(swap_seq_for(0, 7)) =~= transposed(0, 7));
}

proof fn swap_pair_1_0()
    ensures
        swap_pair_ok(1, 0),
{
    reveal_with_fuel(iter_rot, 15);
    lemma_move_rot_table();
    reveal(swap_seq_for);
    let msl: Seq<Move> = seq![Move::B3, Move::R3, Move::U3, Move::R1, Move::U1, Move::B1, Move::R3, Move::U3, Move::R1, Move::U1, Move::B3];
    assert(swap_seq_for(1, 0) =~= msl);
    assert(iter_rot(msl, 11, 0) == 1);
    assert(iter_rot(msl, 11, 1) == 0);
    assert(iter_rot(msl, 11, 2) == 2);
    assert(iter_rot(msl, 11, 3) == 3);
    assert(iter_rot(msl, 11, 4) == 4);
    assert(iter_rot(msl, 11, 5) == 5);
    assert(iter_rot(msl, 11, 6) == 6);
    assert(iter_rot(msl, 11, 7) == 7);
    assert forall|k: int| 0 <= k < 8 implies #[trigger] pos_net(swap_seq_for(1, 0))[k] == transposed(1, 0)[k] by {
        lemma_pos_run_pointwise(msl, id_perm(), 11, k);
        if k == 0 {
            assert(id_perm()[0] == 0u8);
            assert(pos_net(swap_seq_for(1, 0))[0] == 1u8);
        } else if k == 1 {
            assert(id_perm()[1] == 1u8);
            assert(pos_net(swap_seq_for(1, 0))[1] == 0u8);
        } else if k == 2 {
            assert(id_perm()[2] == 2u8);
            assert(pos_net(swap_seq_for(1, 0))[2] == 2u8);
        } else if k == 3 {
            assert(id_perm()[3] == 3u8);
            assert(pos_net(swap_seq_for(1, 0))[3] == 3u8);
        } else if k == 4 {
            assert(id_perm()[4] == 4u8);
            assert(pos_net(swap_seq_for(1, 0))[4] == 4u8);
        } else if k == 5 {
            assert(id_perm()[5] == 5u8);
            assert(pos_net(swap_seq_for(1, 0))[5] == 5u8);
        } else if k == 6 {
            assert(id_perm()[6] == 6u8);
            assert(pos_net(swap_seq_for(1, 0))[6] == 6u8);
        } else if k == 7 {
            assert(id_perm()[7] == 7u8);
            assert(pos_net(swap_seq_for(1, 0))[7] == 7u8);
        }
    }
    lemma_pos_run_pointwise(msl, id_perm(), 11, 0);
    assert(pos_net(swap_seq_for(1, 0)) =~= transposed(1, 0));
}

proof fn swap_pair_1_2()
    ensures
        swap_pair_ok(1, 2),
{
    reveal_with_fuel(iter_rot, 15);
    lemma_move_rot_table();
    reveal(swap_seq_for);
    let msl: Seq<Move> = seq![Move::L1, Move::B1, Move::L1, Move::U1, Move::L3, Move::U3, Move::B3, Move::L1, Move::U1, Move::L3, Move::U3, Move::B1, Move::L3];
    assert(swap_seq_for(1, 2) =~= msl);
    assert(iter_rot(msl, 13, 0) == 0);
    assert(iter_rot(msl, 13, 1) == 2);
    assert(iter_rot(msl, 13, 2) == 1);
    assert(iter_rot(msl, 13, 3) == 3);
    assert(iter_rot(msl, 13, 4) == 4);
    assert(iter_rot(msl, 13, 5) == 5);
    assert(iter_rot(msl, 13, 6) == 6);
    assert(iter_rot(msl, 13, 7) == 7);
    assert forall|k: int| 0 <= k < 8 implies #[trigger] pos_net(swap_seq_for(1, 2))[k] == transposed(1, 2)[k] by {
        lemma_pos_run_pointwise(msl, id_perm(), 13, k);
        if k == 0 {
            assert(id_perm()[0] == 0u8);
            assert(pos_net(swap_seq_for(1, 2))[0] == 0u8);
        } else if k == 1 {
            assert(id_perm()[1] == 1u8);
            assert(pos_net(swap_seq_for(1, 2))[1] == 2u8);
        } else if k == 2 {
            assert(id_perm()[2] == 2u8);
            assert(pos_net(swap_seq_for(1, 2))[2] == 1u8);
        } else if k == 3 {
            assert(id_perm()[3] == 3u8);
            assert(pos_net(swap_seq_for(1, 2))[3] == 3u8);
        } else if k == 4 {
            assert(id_perm()[4] == 4u8);
            assert(pos_net(swap_seq_for(1, 2))[4] == 4u8);
        } else if k == 5 {
            assert(id_perm()[5] == 5u8);
            assert(pos_net(swap_seq_for(1, 2))[5] == 5u8);
        } else if k == 6 {
            assert(id_perm()[6] == 6u8);
            assert(pos_net(swap_seq_for(1, 2))[6] == 6u8);
        } else if k == 7 {
            assert(id_perm()[7] == 7u8);
            assert(pos_net(swap_seq_for(1, 2))[7] == 7u8);
        }
    }
    lemma_pos_run_pointwise(msl, id_perm(), 13, 0);
    assert(pos_net(swap_seq_for(1, 2)) =~= transposed(1, 2));
}

proof fn swap_pair_1_3()
    ensures
        swap_pair_ok(1, 3),
{
    reveal_with_fuel(iter_rot, 15);
    lemma_move_rot_table();
    reveal(swap_seq_for);
    let msl: Seq<Move> = seq![Move::R1, Move::U1, Move::F1, Move::U3, Move::F3, Move::R3, Move::U1, Move::F1, Move::U3, Move::F3, Move::R1];
    assert(swap_seq_for(1, 3) =~= msl);
    assert(iter_rot(msl, 11, 0) == 0);
    assert(iter_rot(msl, 11, 1) == 3);
    assert(iter_rot(msl, 11, 2) == 2);
    assert(iter_rot(msl, 11, 3) == 1);
    assert(iter_rot(msl, 11, 4) == 4);
    assert(iter_rot(msl, 11, 5) == 5);
    assert(iter_rot(msl, 11, 6) == 6);
    assert(iter_rot(msl, 11, 7) == 7);
    assert forall|k: int| 0 <= k < 8 implies #[trigger] pos_net(swap_seq_for(1, 3))[k] == transposed(1, 3)[k] by {
        lemma_pos_run_pointwise(msl, id_perm(), 11, k);
        if k == 0 {
            assert(id_perm()[0] == 0u8);
            assert(pos_net(swap_seq_for(1, 3))[0] == 0u8);
        } else if k == 1 {
            assert(id_perm()[1] == 1u8);
            assert(pos_net(swap_seq_for(1, 3))[1] == 3u8);
        } else if k == 2 {
            assert(id_perm()[2] == 2u8);
            assert(pos_net(swap_seq_for(1, 3))[2] == 2u8);
        } else if k == 3 {
            assert(id_perm()[3] == 3u8);
            assert(pos_net(swap_seq_for(1, 3))[3] == 1u8);
        } else if k == 4 {
            assert(id_perm()[4] == 4u8);
            assert(pos_net(swap_seq_for(1, 3))[4] == 4u8);
        } else if k == 5 {
            assert(id_perm()[5] == 5u8);
            assert(pos_net(swap_seq_for(1, 3))[5] == 5u8);
        } else if k == 6 {
            assert(id_perm()[6] == 6u8);
            assert(pos_net(swap_seq_for(1, 3))[6] == 6u8);
        } else if k == 7 {
            assert(id_perm()[7] == 7u8);
            assert(pos_net(swap_seq_for(1, 3))[7] == 7u8);
        }
    }
    lemma_pos_run_pointwise(msl, id_perm(), 11, 0);
    assert(pos_net(swap_seq_for(1, 3)) =~= transposed(1, 3));
}

proof fn swap_pair_1_4()
    ensures
        swap_pair_ok(1, 4),
{
    reveal_with_fuel(iter_rot, 15);
    lemma_move_rot_table();
    reveal(swap_seq_for);
    let msl: Seq<Move> = seq![Move::F1, Move::D1, Move::F1, Move::L1, Move::F3, Move::L3, Move::D3, Move::F1, Move::L1, Move::F3, Move::L3, Move::D1, Move::F3];
    assert(swap_seq_for(1, 4) =~= msl);
    assert(iter_rot(msl, 13, 0) == 0);
    assert(iter_rot(msl, 13, 1) == 4);
    assert(iter_rot(msl, 13, 2) == 2);
    assert(iter_rot(msl, 13, 3) == 3);
    assert(iter_rot(msl, 13, 4) == 1);
    assert(iter_rot(msl, 13, 5) == 5);
    assert(iter_rot(msl, 13, 6) == 6);
    assert(iter_rot(msl, 13, 7) == 7);
    assert forall|k: int| 0 <= k < 8 implies #[trigger] pos_net(swap_seq_for(1, 4))[k] == transposed(1, 4)[k] by {
        lemma_pos_run_pointwise(msl, id_perm(), 13, k);
        if k == 0 {
            assert(id_perm()[0] == 0u8);
            assert(pos_net(swap_seq_for(1, 4))[0] == 0u8);
        } else if k == 1 {
            assert(id_perm()[1] == 1u8);
            assert(pos_net(swap_seq_for(1, 4))[1] == 4u8);
        } else if k == 2 {
            assert(id_perm()[2] == 2u8);
            assert(pos_net(swap_seq_for(1, 4))[2] == 2u8);
        } else if k == 3 {
            assert(id_perm()[3] == 3u8);
            assert(pos_net(swap_seq_for(1, 4))[3] == 3u8);
        } else if k == 4 {
            assert(id_perm()[4] == 4u8);
            assert(pos_net(swap_seq_for(1, 4))[4] == 1u8);
        } else if k == 5 {
            assert(id_perm()[5] == 5u8);
            assert(pos_net(swap_seq_for(1, 4))[5] == 5u8);
        } else if k == 6 {
            assert(id_perm()[6] == 6u8);
            assert(pos_net(swap_seq_for(1, 4))[6] == 6u8);
        } else if k == 7 {
            assert(id_perm()[7] == 7u8);
            assert(pos_net(swap_seq_for(1, 4))[7] == 7u8);
        }
    }
    lemma_pos_run_pointwise(msl, id_perm(), 13, 0);
    assert(pos_net(swap_seq_for(1, 4)) =~= transposed(1, 4));
}

proof fn swap_pair_1_5()
    ensures
        swap_pair_ok(1, 5),
{
    reveal_with_fuel(iter_rot, 15);
    lemma_move_rot_table();
    reveal(swap_seq_for);
    let msl: Seq<Move> = seq![Move::D1, Move::F1, Move::L1, Move::F3, Move::L3, Move::D3, Move::F1, Move::L1, Move::F3, Move::L3, Move::D1];
    assert(swap_seq_for(1, 5) =~= msl);
    assert(iter_rot(msl, 11, 0) == 0);
    assert(iter_rot(msl, 11, 1) == 5);
    assert(iter_rot(msl, 11, 2) == 2);
    assert(iter_rot(msl, 11, 3) == 3);
    assert(iter_rot(msl, 11, 4) == 4);
    assert(iter_rot(msl, 11, 5) == 1);
    assert(iter_rot(msl, 11, 6) == 6);
    assert(iter_rot(msl, 11, 7) == 7);
    assert forall|k: int| 0 <= k < 8 implies #[trigger] pos_net(swap_seq_for(1, 5))[k] == transposed(1, 5)[k] by {
        lemma_pos_run_pointwise(msl, id_perm(), 11, k);
        if k == 0 {
            assert(id_perm()[0] == 0u8);
            assert(pos_net(swap_seq_for(1, 5))[0] == 0u8);
        } else if k == 1 {
            assert(id_perm()[1] == 1u8);
            assert(pos_net(swap_seq_for(1, 5))[1] == 5u8);
        } else if k == 2 {
            assert(id_perm()[2] == 2u8);
            assert(pos_net(swap_seq_for(1, 5))[2] == 2u8);
        } else if k == 3 {
            assert(id_perm()[3] == 3u8);
            assert(pos_net(swap_seq_for(1, 5))[3] == 3u8);
        } else if k == 4 {
            assert(id_perm()[4] == 4u8);
            assert(pos_net(swap_seq_for(1, 5))[4] == 4u8);
        } else if k == 5 {
            assert(id_perm()[5] == 5u8);
            assert(pos_net(swap_seq_for(1, 5))[5] == 1u8);
        } else if k == 6 {
            assert(id_perm()[6] == 6u8);
            assert(pos_net(swap_seq_for(1, 5))[6] == 6u8);
        } else if k == 7 {
            assert(id_perm()[7] == 7u8);
            assert(pos_net(swap_seq_for(1, 5))[7] == 7u8);
        }
    }
    lemma_pos_run_pointwise(msl, id_perm(), 11, 0);
    assert(pos_net(swap_seq_for(1, 5)) =~= transposed(1, 5));
}

proof fn swap_pair_1_6()
    ensures
        swap_pair_ok(1, 6),
{
    reveal_with_fuel(iter_rot, 15);
    lemma_move_rot_table();
    reveal(swap_seq_for);
    let msl: Seq<Move> = seq![Move::R2, Move::F1, Move::L1, Move::D1, Move::L3, Move::D3, Move::F3, Move::L1, Move::D1, Move::L3, Move::D3, Move::F1, Move::R2];
    assert(swap_seq_for(1, 6) =~= msl);
    assert(iter_rot(msl, 13, 0) == 0);
    assert(iter_rot(msl, 13, 1) == 6);
    assert(iter_rot(msl, 13, 2) == 2);
    assert(iter_rot(msl, 13, 3) == 3);
    assert(iter_rot(msl, 13, 4) == 4);
    assert(iter_rot(msl, 13, 5) == 5);
    assert(iter_rot(msl, 13, 6) == 1);
    assert(iter_rot(msl, 13, 7) == 7);
    assert forall|k: int| 0 <= k < 8 implies #[trigger] pos_net(swap_seq_for(1, 6))[k] == transposed(1, 6)[k] by {
        lemma_pos_run_pointwise(msl, id_perm(), 13, k);
        if k == 0 {
            assert(id_perm()[0] == 0u8);
            assert(pos_net(swap_seq_for(1, 6))[0] == 0u8);
        } else if k == 1 {
            assert(id_perm()[1] == 1u8);
            assert(pos_net(swap_seq_for(1, 6))[1] == 6u8);
        } else if k == 2 {
            assert(id_perm()[2] == 2u8);
            assert(pos_net(swap_seq_for(1, 6))[2] == 2u8);
        } else if k == 3 {
            assert(id_perm()[3] == 3u8);
            assert(pos_net(swap_seq_for(1, 6))[3] == 3u8);
        } else if k == 4 {
            assert(id_perm()[4] == 4u8);
            assert(pos_net(swap_seq_for(1, 6))[4] == 4u8);
        } else if k == 5 {
            assert(id_perm()[5] == 5u8);
            assert(pos_net(swap_seq_for(1, 6))[5] == 5u8);
        } else if k == 6 {
            assert(id_perm()[6] == 6u8);
            assert(pos_net(swap_seq_for(1, 6))[6] == 1u8);
        } else if k == 7 {
            assert(id_perm()[7] == 7u8);
            assert(pos_net(swap_seq_for(1, 6))[7] == 7u8);
        }
    }
    lemma_pos_run_pointwise(msl, id_perm(), 13, 0);
    assert(pos_net(swap_seq_for(1, 6)) =~= transposed(1, 6));
}

proof fn swap_pair_1_7()
    ensures
        swap_pair_ok(1, 7),
{
    reveal_with_fuel(iter_rot, 15);
    lemma_move_rot_table();
    reveal(swap_seq_for);
    let msl: Seq<Move> = seq![Move::U1, Move::R1, Move::U1, Move::F1, Move::U3, Move::F3, Move::R3, Move::U1, Move::F1, Move::U3, Move::F3, Move::R1, Move::U3];
    assert(swap_seq_for(1, 7) =~= msl);
    assert(iter_rot(msl, 13, 0) == 0);
    assert(iter_rot(msl, 13, 1) == 7);
    assert(iter_rot(msl, 13, 2) == 2);
    assert(iter_rot(msl, 13, 3) == 3);
    assert(iter_rot(msl, 13, 4) == 4);
    assert(iter_rot(msl, 13, 5) == 5);
    assert(iter_rot(msl, 13, 6) == 6);
    assert(iter_rot(msl, 13, 7) == 1);
    assert forall|k: int| 0 <= k < 8 implies #[trigger] pos_net(swap_seq_for(1, 7))[k] == transposed(1, 7)[k] by {
        lemma_pos_run_pointwise(msl, id_perm(), 13, k);
        if k == 0 {
            assert(id_perm()[0] == 0u8);
            assert(pos_net(swap_seq_for(1, 7))[0] == 0u8);
        } else if k == 1 {
            assert(id_perm()[1] == 1u8);
            assert(pos_net(swap_seq_for(1, 7))[1] == 7u8);
        } else if k == 2 {
            assert(id_perm()[2] == 2u8);
            assert(pos_net(swap_seq_for(1, 7))[2] == 2u8);
        } else if k == 3 {
            assert(id_perm()[3] == 3u8);
            assert(pos_net(swap_seq_for(1, 7))[3] == 3u8);
        } else if k == 4 {
            assert(id_perm()[4] == 4u8);
            assert(pos_net(swap_seq_for(1, 7))[4] == 4u8);
        } else if k == 5 {
            assert(id_perm()[5] == 5u8);
            assert(pos_net(swap_seq_for(1, 7))[5] == 5u8);
        } else if k == 6 {
            assert(id_perm()[6] == 6u8);
            assert(pos_net(swap_seq_for(1, 7))[6] == 6u8);
        } else if k == 7 {
            assert(id_perm()[7] == 7u8);
            assert(pos_net(swap_seq_for(1, 7))[7] == 1u8);
        }
    }
    lemma_pos_run_pointwise(msl, id_perm(), 13, 0);
    assert(pos_net(swap_seq_for(1, 7)) =~= transposed(1, 7));
}

proof fn swap_pair_2_0()
    ensures
        swap_pair_ok(2, 0),
{
    reveal_with_fuel(iter_rot, 15);
    lemma_move_rot_table();
    reveal(swap_seq_for);
    let msl: Seq<Move> = seq![Move::L3, Move::U3, Move::F3, Move::U1, Move::F1, Move::L1, Move::U3, Move::F3, Move::U1, Move::F1, Move::L3];
    assert(swap_seq_for(2, 0) =~= msl);
    assert(iter_rot(msl, 11, 0) == 2);
    assert(iter_rot(msl, 11, 1) == 1);
    assert(iter_rot(msl, 11, 2) == 0);
    assert(iter_rot(msl, 11, 3) == 3);
    assert(iter_rot(msl, 11, 4) == 4);
    assert(iter_rot(msl, 11, 5) == 5);
    assert(iter_rot(msl, 11, 6) == 6);
    assert(iter_rot(msl, 11, 7) == 7);
    assert forall|k: int| 0 <= k < 8 implies #[trigger] pos_net(swap_seq_for(2, 0))[k] == transposed(2, 0)[k] by {
        lemma_pos_run_pointwise(msl, id_perm(), 11, k);
        if k == 0 {
            assert(id_perm()[0] == 0u8);
            assert(pos_net(swap_seq_for(2, 0))[0] == 2u8);
        } else if k == 1 {
            assert(id_perm()[1] == 1u8);
            assert(pos_net(swap_seq_for(2, 0))[1] == 1u8);
        } else if k == 2 {
            assert(id_perm()[2] == 2u8);
            assert(pos_net(swap_seq_for(2, 0))[2] == 0u8);
        } else if k == 3 {
            assert(id_perm()[3] == 3u8);
            assert(pos_net(swap_seq_for(2, 0))[3] == 3u8);
        } else if k == 4 {
            assert(id_perm()[4] == 4u8);
            assert(pos_net(swap_seq_for(2, 0))[4] == 4u8);
        } else if k == 5 {
            assert(id_perm()[5] == 5u8);
            assert(pos_net(swap_seq_for(2, 0))[5] == 5u8);
        } else if k == 6 {
            assert(id_perm()[6] == 6u8);
            assert(pos_net(swap_seq_for(2, 0))[6] == 6u8);
        } else if k == 7 {
            assert(id_perm()[7] == 7u8);
            assert(pos_net(swap_seq_for(2, 0))[7] == 7u8);
        }
    }
    lemma_pos_run_pointwise(msl, id_perm(), 11, 0);
    assert(pos_net(swap_seq_for(2, 0)) =~= transposed(2, 0));
}

proof fn swap_pair_2_1()
    ensures
        swap_pair_ok(2, 1),
{
    reveal_with_fuel(iter_rot, 15);
    lemma_move_rot_table();
    reveal(swap_seq_for);
    let msl: Seq<Move> = seq![Move::R1, Move::B1, Move::R1, Move::D1, Move::R3, Move::D3, Move::B3, Move::R1, Move::D1, Move::R3, Move::D3, Move::B1, Move::R3];
    assert(swap_seq_for(2, 1) =~= msl);
    assert(iter_rot(msl, 13, 0) == 0);
    assert(iter_rot(msl, 13, 1) == 2);
    assert(iter_rot(msl, 13, 2) == 1);
    assert(iter_rot(msl, 13, 3) == 3);
    assert(iter_rot(msl, 13, 4) == 4);
    assert(iter_rot(msl, 13, 5) == 5);
    assert(iter_rot(msl, 13, 6) == 6);
    assert(iter_rot(msl, 13, 7) == 7);
    assert forall|k: int| 0 <= k < 8 implies #[trigger] pos_net(swap_seq_for(2, 1))[k] == transposed(2, 1)[k] by {
        lemma_pos_run_pointwise(msl, id_perm(), 13, k);
        if k == 0 {
            assert(id_perm()[0] == 0u8);
            assert(pos_net(swap_seq_for(2, 1))[0] == 0u8);
        } else if k == 1 {
            assert(id_perm()[1] == 1u8);
            assert(pos_net(swap_seq_for(2, 1))[1] == 2u8);
        } else if k == 2 {
            assert(id_perm()[2] == 2u8);
            assert(pos_net(swap_seq_for(2, 1))[2] == 1u8);
        } else if k == 3 {
            assert(id_perm()[3] == 3u8);
            assert(pos_net(swap_seq_for(2, 1))[3] == 3u8);
        } else if k == 4 {
            assert(id_perm()[4] == 4u8);
            assert(pos_net(swap_seq_for(2, 1))[4] == 4u8);
        } else if k == 5 {
            assert(id_perm()[5] == 5u8);
            assert(pos_net(swap_seq_for(2, 1))[5] == 5u8);
        } else if k == 6 {
            assert(id_perm()[6] == 6u8);
            assert(pos_net(swap_seq_for(2, 1))[6] == 6u8);
        } else if k == 7 {
            assert(id_perm()[7] == 7u8);
            assert(pos_net(swap_seq_for(2, 1))[7] == 7u8);
        }
    }
    lemma_pos_run_pointwise(msl, id_perm(), 13, 0);
    assert(pos_net(swap_seq_for(2, 1)) =~= transposed(2, 1));
}

proof fn swap_pair_2_3()
    ensures
        swap_pair_ok(2, 3),
{
    reveal_with_fuel(iter_rot, 15);
    lemma_move_rot_table();
    reveal(swap_seq_for);
    let msl: Seq<Move> = seq![Move::B1, Move::R1, Move::D1, Move::R3, Move::D3, Move::B3, Move::R1, Move::D1, Move::R3, Move::D3, Move::B1];
    assert(swap_seq_for(2, 3) =~= msl);
    assert(iter_rot(msl, 11, 0) == 0);
    assert(iter_rot(msl, 11, 1) == 1);
    assert(iter_rot(msl, 11, 2) == 3);
    assert(iter_rot(msl, 11, 3) == 2);
    assert(iter_rot(msl, 11, 4) == 4);
    assert(iter_rot(msl, 11, 5) == 5);
    assert(iter_rot(msl, 11, 6) == 6);
    assert(iter_rot(msl, 11, 7) == 7);
    assert forall|k: int| 0 <= k < 8 implies #[trigger] pos_net(swap_seq_for(2, 3))[k] == transposed(2, 3)[k] by {
        lemma_pos_run_pointwise(msl, id_perm(), 11, k);
        if k == 0 {
            assert(id_perm()[0] == 0u8);
            assert(pos_net(swap_seq_for(2, 3))[0] == 0u8);
        } else if k == 1 {
            assert(id_perm()[1] == 1u8);
            assert(pos_net(swap_seq_for(2, 3))[1] == 1u8);
        } else if k == 2 {
            assert(id_perm()[2] == 2u8);
            assert(pos_net(swap_seq_for(2, 3))[2] == 3u8);
        } else if k == 3 {
            assert(id_perm()[3] == 3u8);
            assert(pos_net(swap_seq_for(2, 3))[3] == 2u8);
        } else if k == 4 {
            assert(id_perm()[4] == 4u8);
            assert(pos_net(swap_seq_for(2, 3))[4] == 4u8);
        } else if k == 5 {
            assert(id_perm()[5] == 5u8);
            assert(pos_net(swap_seq_for(2, 3))[5] == 5u8);
        } else if k == 6 {
            assert(id_perm()[6] == 6u8);
            assert(pos_net(swap_seq_for(2, 3))[6] == 6u8);
        } else if k == 7 {
            assert(id_perm()[7] == 7u8);
            assert(pos_net(swap_seq_for(2, 3))[7] == 7u8);
        }
    }
    lemma_pos_run_pointwise(msl, id_perm(), 11, 0);
    assert(pos_net(swap_seq_for(2, 3)) =~= transposed(2, 3));
}

proof fn swap_pair_2_4()
    ensures
        swap_pair_ok(2, 4),
{
    reveal_with_fuel(iter_rot, 15);
    lemma_move_rot_table();
    reveal(swap_seq_for);
    let msl: Seq<Move> = seq![Move::D1, Move::L1, Move::D1, Move::F1, Move::D3, Move::F3, Move::L3, Move::D1, Move::F1, Move::D3, Move::F3, Move::L1, Move::D3];
    assert(swap_seq_for(2, 4) =~= msl);
    assert(iter_rot(msl, 13, 0) == 0);
    assert(iter_rot(msl, 13, 1) == 1);
    assert(iter_rot(msl, 13, 2) == 4);
    assert(iter_rot(msl, 13, 3) == 3);
    assert(iter_rot(msl, 13, 4) == 2);
    assert(iter_rot(msl, 13, 5) == 5);
    assert(iter_rot(msl, 13, 6) == 6);
    assert(iter_rot(msl, 13, 7) == 7);
    assert forall|k: int| 0 <= k < 8 implies #[trigger] pos_net(swap_seq_for(2, 4))[k] == transposed(2, 4)[k] by {
        lemma_pos_run_pointwise(msl, id_perm(), 13, k);
        if k == 0 {
            assert(id_perm()[0] == 0u8);
            assert(pos_net(swap_seq_for(2, 4))[0] == 0u8);
        } else if k == 1 {
            assert(id_perm()[1] == 1u8);
            assert(pos_net(swap_seq_for(2, 4))[1] == 1u8);
        } else if k == 2 {
            assert(id_perm()[2] == 2u8);
            assert(pos_net(swap_seq_for(2, 4))[2] == 4u8);
        } else if k == 3 {
            assert(id_perm()[3] == 3u8);
            assert(pos_net(swap_seq_for(2, 4))[3] == 3u8);
        } else if k == 4 {
            assert(id_perm()[4] == 4u8);
            assert(pos_net(swap_seq_for(2, 4))[4] == 2u8);
        } else if k == 5 {
            assert(id_perm()[5] == 5u8);
            assert(pos_net(swap_seq_for(2, 4))[5] == 5u8);
        } else if k == 6 {
            assert(id_perm()[6] == 6u8);
            assert(pos_net(swap_seq_for(2, 4))[6] == 6u8);
        } else if k == 7 {
            assert(id_perm()[7] == 7u8);
            assert(pos_net(swap_seq_for(2, 4))[7] == 7u8);
        }
    }
    lemma_pos_run_pointwise(msl, id_perm(), 13, 0);
    assert(pos_net(swap_seq_for(2, 4)) =~= transposed(2, 4));
}

proof fn swap_pair_2_5()
    ensures
        swap_pair_ok(2, 5),
{
    reveal_with_fuel(iter_rot, 15);
    lemma_move_rot_table();
    reveal(swap_seq_for);
    let msl: Seq<Move> = seq![Move::L2, Move::F1, Move::R1, Move::U1, Move::R3, Move::U3, Move::F3, Move::R1, Move::U1, Move::R3, Move::U3, Move::F1, Move::L2];
    assert(swap_seq_for(2, 5) =~= msl);
    assert(iter_rot(msl, 13, 0) == 0);
    assert(iter_rot(msl, 13, 1) == 1);
    assert(iter_rot(msl, 13, 2) == 5);
    assert(iter_rot(msl, 13, 3) == 3);
    assert(iter_rot(msl, 13, 4) == 4);
    assert(iter_rot(msl, 13, 5) == 2);
    assert(iter_rot(msl, 13, 6) == 6);
    assert(iter_rot(msl, 13, 7) == 7);
    assert forall|k: int| 0 <= k < 8 implies #[trigger] pos_net(swap_seq_for(2, 5))[k] == transposed(2, 5)[k] by {
        lemma_pos_run_pointwise(msl, id_perm(), 13, k);
        if k == 0 {
            assert(id_perm()[0] == 0u8);
            assert(pos_net(swap_seq_for(2, 5))[0] == 0u8);
        } else if k == 1 {
            assert(id_perm()[1] == 1u8);
            assert(pos_net(swap_seq_for(2, 5))[1] == 1u8);
        } else if k == 2 {
            assert(id_perm()[2] == 2u8);
            assert(pos_net(swap_seq_for(2, 5))[2] == 5u8);
        } else if k == 3 {
            assert(id_perm()[3] == 3u8);
            assert(pos_net(swap_seq_for(2, 5))[3] == 3u8);
        } else if k == 4 {
            assert(id_perm()[4] == 4u8);
            assert(pos_net(swap_seq_for(2, 5))[4] == 4u8);
        } else if k == 5 {
            assert(id_perm()[5] == 5u8);
            assert(pos_net(swap_seq_for(2, 5))[5] == 2u8);
        } else if k == 6 {
            assert(id_perm()[6] == 6u8);
            assert(pos_net(swap_seq_for(2, 5))[6] == 6u8);
        } else if k == 7 {
            assert(id_perm()[7] == 7u8);
            assert(pos_net(swap_seq_for(2, 5))[7] == 7u8);
        }
    }
    lemma_pos_run_pointwise(msl, id_perm(), 13, 0);
    assert(pos_net(swap_seq_for(2, 5)) =~= transposed(2, 5));
}

proof fn swap_pair_2_6()
    ensures
        swap_pair_ok(2, 6),
{
    reveal_with_fuel(iter_rot, 15);
    lemma_move_rot_table();
    reveal(swap_seq_for);
    let msl: Seq<Move> = seq![Move::U1, Move::F1, Move::R1, Move::F3, Move::R3, Move::U3, Move::F1, Move::R1, Move::F3, Move::R3, Move::U1];
    assert(swap_seq_for(2, 6) =~= msl);
    assert(iter_rot(msl, 11, 0) == 0);
    assert(iter_rot(msl, 11, 1) == 1);
    assert(iter_rot(msl, 11, 2) == 6);
    assert(iter_rot(msl, 11, 3) == 3);
    assert(iter_rot(msl, 11, 4) == 4);
    assert(iter_rot(msl, 11, 5) == 5);
    assert(iter_rot(msl, 11, 6) == 2);
    assert(iter_rot(msl, 11, 7) == 7);
    assert forall|k: int| 0 <= k < 8 implies #[trigger] pos_net(swap_seq_for(2, 6))[k] == transposed(2, 6)[k] by {
        lemma_pos_run_pointwise(msl, id_perm(), 11, k);
        if k == 0 {
            assert(id_perm()[0] == 0u8);
            assert(pos_net(swap_seq_for(2, 6))[0] == 0u8);
        } else if k == 1 {
            assert(id_perm()[1] == 1u8);
            assert(pos_net(swap_seq_for(2, 6))[1] == 1u8);
        } else if k == 2 {
            assert(id_perm()[2] == 2u8);
            assert(pos_net(swap_seq_for(2, 6))[2] == 6u8);
        } else if k == 3 {
            assert(id_perm()[3] == 3u8);
            assert(pos_net(swap_seq_for(2, 6))[3] == 3u8);
        } else if k == 4 {
            assert(id_perm()[4] == 4u8);
            assert(pos_net(swap_seq_for(2, 6))[4] == 4u8);
        } else if k == 5 {
            assert(id_perm()[5] == 5u8);
            assert(pos_net(swap_seq_for(2, 6))[5] == 5u8);
        } else if k == 6 {
            assert(id_perm()[6] == 6u8);
            assert(pos_net(swap_seq_for(2, 6))[6] == 2u8);
        } else if k == 7 {
            assert(id_perm()[7] == 7u8);
            assert(pos_net(swap_seq_for(2, 6))[7] == 7u8);
        }
    }
    lemma_pos_run_pointwise(msl, id_perm(), 11, 0);
    assert(pos_net(swap_seq_for(2, 6)) =~= transposed(2, 6));
}

proof fn swap_pair_2_7()
    ensures
        swap_pair_ok(2, 7),
{
    reveal_with_fuel(iter_rot, 15);
    lemma_move_rot_table();
    reveal(swap_seq_for);
    let msl: Seq<Move> = seq![Move::F1, Move::U1, Move::F1, Move::R1, Move::F3, Move::R3, Move::U3, Move::F1, Move::R1, Move::F3, Move::R3, Move::U1, Move::F3];
    assert(swap_seq_for(2, 7) =~= msl);
    assert(iter_rot(msl, 13, 0) == 0);
    assert(iter_rot(msl, 13, 1) == 1);
    assert(iter_rot(msl, 13, 2) == 7);
    assert(iter_rot(msl, 13, 3) == 3);
    assert(iter_rot(msl, 13, 4) == 4);
    assert(iter_rot(msl, 13, 5) == 5);
    assert(iter_rot(msl, 13, 6) == 6);
    assert(iter_rot(msl, 13, 7) == 2);
    assert forall|k: int| 0 <= k < 8 implies #[trigger] pos_net(swap_seq_for(2, 7))[k] == transposed(2, 7)[k] by {
        lemma_pos_run_pointwise(msl, id_perm(), 13, k);
        if k == 0 {
            assert(id_perm()[0] == 0u8);
            assert(pos_net(swap_seq_for(2, 7))[0] == 0u8);
        } else if k == 1 {
            assert(id_perm()[1] == 1u8);
            assert(pos_net(swap_seq_for(2, 7))[1] == 1u8);
        } else if k == 2 {
            assert(id_perm()[2] == 2u8);
            assert(pos_net(swap_seq_for(2, 7))[2] == 7u8);
        } else if k == 3 {
            assert(id_perm()[3] == 3u8);
            assert(pos_net(swap_seq_for(2, 7))[3] == 3u8);
        } else if k == 4 {
            assert(id_perm()[4] == 4u8);
            assert(pos_net(swap_seq_for(2, 7))[4] == 4u8);
        } else if k == 5 {
            assert(id_perm()[5] == 5u8);
            assert(pos_net(swap_seq_for(2, 7))[5] == 5u8);
        } else if k == 6 {
            assert(id_perm()[6] == 6u8);
            assert(pos_net(swap_seq_for(2, 7))[6] == 6u8);
        } else if k == 7 {
            assert(id_perm()[7] == 7u8);
            assert(pos_net(swap_seq_for(2, 7))[7] == 2u8);
        }
    }
    lemma_pos_run_pointwise(msl, id_perm(), 13, 0);
    assert(pos_net(swap_seq_for(2, 7)) =~= transposed(2, 7));
}

proof fn swap_pair_3_0()
    ensures
        swap_pair_ok(3, 0),
{
    reveal_with_fuel(iter_rot, 15);
    lemma_move_rot_table();
    reveal(swap_seq_for);
    let msl: Seq<Move> = seq![Move::L3, Move::B3, Move::L3, Move::D3, Move::L1, Move::D1, Move::B1, Move::L3, Move::D3, Move::L1, Move::D1, Move::B3, Move::L1];
    assert(swap_seq_for(3, 0) =~= msl);
    assert(iter_rot(msl, 13, 0) == 3);
    assert(iter_rot(msl, 13, 1) == 1);
    assert(iter_rot(msl, 13, 2) == 2);
    assert(iter_rot(msl, 13, 3) == 0);
    assert(iter_rot(msl, 13, 4) == 4);
    assert(iter_rot(msl, 13, 5) == 5);
    assert(iter_rot(msl, 13, 6) == 6);
    assert(iter_rot(msl, 13, 7) == 7);
    assert forall|k: int| 0 <= k < 8 implies #[trigger] pos_net(swap_seq_for(3, 0))[k] == transposed(3, 0)[k] by {
        lemma_pos_run_pointwise(msl, id_perm(), 13, k);
        if k == 0 {
            assert(id_perm()[0] == 0u8);
            assert(pos_net(swap_seq_for(3, 0))[0] == 3u8);
        } else if k == 1 {
            assert(id_perm()[1] == 1u8);
            assert(pos_net(swap_seq_for(3, 0))[1] == 1u8);
        } else if k == 2 {
            assert(id_perm()[2] == 2u8);
            assert(pos_net(swap_seq_for(3, 0))[2] == 2u8);
        } else if k == 3 {
            assert(id_perm()[3] == 3u8);
            assert(pos_net(swap_seq_for(3, 0))[3] == 0u8);
        } else if k == 4 {
            assert(id_perm()[4] == 4u8);
            assert(pos_net(swap_seq_for(3, 0))[4] == 4u8);
        } else if k == 5 {
            assert(id_perm()[5] == 5u8);
            assert(pos_net(swap_seq_for(3, 0))[5] == 5u8);
        } else if k == 6 {
            assert(id_perm()[6] == 6u8);
            assert(pos_net(swap_seq_for(3, 0))[6] == 6u8);
        } else if k == 7 {
            assert(id_perm()[7] == 7u8);
            assert(pos_net(swap_seq_for(3, 0))[7] == 7u8);
        }
    }
    lemma_pos_run_pointwise(msl, id_perm(), 13, 0);
    assert(pos_net(swap_seq_for(3, 0)) =~= transposed(3, 0));
}

proof fn swap_pair_3_1()
    ensures
        swap_pair_ok(3, 1),
{
    reveal_with_fuel(iter_rot, 15);
    lemma_move_rot_table();
    reveal(swap_seq_for);
    let msl: Seq<Move> = seq![Move::R1, Move::U1, Move::F1, Move::U3, Move::F3, Move::R3, Move::U1, Move::F1, Move::U3, Move::F3, Move::R1];
    assert(swap_seq_for(3, 1) =~= msl);
    assert(iter_rot(msl, 11, 0) == 0);
    assert(iter_rot(msl, 11, 1) == 3);
    assert(iter_rot(msl, 11, 2) == 2);
    assert(iter_rot(msl, 11, 3) == 1);
    assert(iter_rot(msl, 11, 4) == 4);
    assert(iter_rot(msl, 11, 5) == 5);
    assert(iter_rot(msl, 11, 6) == 6);
    assert(iter_rot(msl, 11, 7) == 7);
    assert forall|k: int| 0 <= k < 8 implies #[trigger] pos_net(swap_seq_for(3, 1))[k] == transposed(3, 1)[k] by {
        lemma_pos_run_pointwise(msl, id_perm(), 11, k);
        if k == 0 {
            assert(id_perm()[0] == 0u8);
            assert(pos_net(swap_seq_for(3, 1))[0] == 0u8);
        } else if k == 1 {
            assert(id_perm()[1] == 1u8);
            assert(pos_net(swap_seq_for(3, 1))[1] == 3u8);
        } else if k == 2 {
            assert(id_perm()[2] == 2u8);
            assert(pos_net(swap_seq_for(3, 1))[2] == 2u8);
        } else if k == 3 {
            assert(id_perm()[3] == 3u8);
            assert(pos_net(swap_seq_for(3, 1))[3] == 1u8);
        } else if k == 4 {
            assert(id_perm()[4] == 4u8);
            assert(pos_net(swap_seq_for(3, 1))[4] == 4u8);
        } else if k == 5 {
            assert(id_perm()[5] == 5u8);
            assert(pos_net(swap_seq_for(3, 1))[5] == 5u8);
        } else if k == 6 {
            assert(id_perm()[6] == 6u8);
            assert(pos_net(swap_seq_for(3, 1))[6] == 6u8);
        } else if k == 7 {
            assert(id_perm()[7] == 7u8);
            assert(pos_net(swap_seq_for(3, 1))[7] == 7u8);
        }
    }
    lemma_pos_run_pointwise(msl, id_perm(), 11, 0);
    assert(pos_net(swap_seq_for(3, 1)) =~= transposed(3, 1));
}

proof fn swap_pair_3_2()
    ensures
        swap_pair_ok(3, 2),
{
    reveal_with_fuel(iter_rot, 15);
    lemma_move_rot_table();
    reveal(swap_seq_for);
    let msl: Seq<Move> = seq![Move::B1, Move::R1, Move::D1, Move::R3, Move::D3, Move::B3, Move::R1, Move::D1, Move::R3, Move::D3, Move::B1];
    assert(swap_seq_for(3, 2) =~= msl);
    assert(iter_rot(msl, 11, 0) == 0);
    assert(iter_rot(msl, 11, 1) == 1);
    assert(iter_rot(msl, 11, 2) == 3);
    assert(iter_rot(msl, 11, 3) == 2);
    assert(iter_rot(msl, 11, 4) == 4);
    assert(iter_rot(msl, 11, 5) == 5);
    assert(iter_rot(msl, 11, 6) == 6);
    assert(iter_rot(msl, 11, 7) == 7);
    assert forall|k: int| 0 <= k < 8 implies #[trigger] pos_net(swap_seq_for(3, 2))[k] == transposed(3, 2)[k] by {
        lemma_pos_run_pointwise(msl, id_perm(), 11, k);
        if k == 0 {
            assert(id_perm()[0] == 0u8);
            assert(pos_net(swap_seq_for(3, 2))[0] == 0u8);
        } else if k == 1 {
            assert(id_perm()[1] == 1u8);
            assert(pos_net(swap_seq_for(3, 2))[1] == 1u8);
        } else if k == 2 {
            assert(id_perm()[2] == 2u8);
            assert(pos_net(swap_seq_for(3, 2))[2] == 3u8);
        } else if k == 3 {
            assert(id_perm()[3] == 3u8);
            assert(pos_net(swap_seq_for(3, 2))[3] == 2u8);
        } else if k == 4 {
            assert(id_perm()[4] == 4u8);
            assert(pos_net(swap_seq_for(3, 2))[4] == 4u8);
        } else if k == 5 {
            assert(id_perm()[5] == 5u8);
            assert(pos_net(swap_seq_for(3, 2))[5] == 5u8);
        } else if k == 6 {
            assert(id_perm()[6] == 6u8);
            assert(pos_net(swap_seq_for(3, 2))[6] == 6u8);
        } else if k == 7 {
            assert(id_perm()[7] == 7u8);
            assert(pos_net(swap_seq_for(3, 2))[7] == 7u8);
        }
    }
    lemma_pos_run_pointwise(msl, id_perm(), 11, 0);
    assert(pos_net(swap_seq_for(3, 2)) =~= transposed(3, 2));
}

proof fn swap_pair_3_4()
    ensures
        swap_pair_ok(3, 4),
{
    reveal_with_fuel(iter_rot, 15);
    lemma_move_rot_table();
    reveal(swap_seq_for);
    let msl: Seq<Move> = seq![Move::R2, Move::F3, Move::L3, Move::U3, Move::L1, Move::U1, Move::F1, Move::L3, Move::U3, Move::L1, Move::U1, Move::F3, Move::R2];
    assert(swap_seq_for(3, 4) =~= msl);
    assert(iter_rot(msl, 13, 0) == 0);
    assert(iter_rot(msl, 13, 1) == 1);
    assert(iter_rot(msl, 13, 2) == 2);
    assert(iter_rot(msl, 13, 3) == 4);
    assert(iter_rot(msl, 13, 4) == 3);
    assert(iter_rot(msl, 13, 5) == 5);
    assert(iter_rot(msl, 13, 6) == 6);
    assert(iter_rot(msl, 13, 7) == 7);
    assert forall|k: int| 0 <= k < 8 implies #[trigger] pos_net(swap_seq_for(3, 4))[k] == transposed(3, 4)[k] by {
        lemma_pos_run_pointwise(msl, id_perm(), 13, k);
        if k == 0 {
            assert(id_perm()[0] == 0u8);
            assert(pos_net(swap_seq_for(3, 4))[0] == 0u8);
        } else if k == 1 {
            assert(id_perm()[1] == 1u8);
            assert(pos_net(swap_seq_for(3, 4))[1] == 1u8);
        } else if k == 2 {
            assert(id_perm()[2] == 2u8);
            assert(pos_net(swap_seq_for(3, 4))[2] == 2u8);
        } else if k == 3 {
            assert(id_perm()[3] == 3u8);
            assert(pos_net(swap_seq_for(3, 4))[3] == 4u8);
        } else if k == 4 {
            assert(id_perm()[4] == 4u8);
            assert(pos_net(swap_seq_for(3, 4))[4] == 3u8);
        } else if k == 5 {
            assert(id_perm()[5] == 5u8);
            assert(pos_net(swap_seq_for(3, 4))[5] == 5u8);
        } else if k == 6 {
            assert(id_perm()[6] == 6u8);
            assert(pos_net(swap_seq_for(3, 4))[6] == 6u8);
        } else if k == 7 {
            assert(id_perm()[7] == 7u8);
            assert(pos_net(swap_seq_for(3, 4))[7] == 7u8);
        }
    }
    lemma_pos_run_pointwise(msl, id_perm(), 13, 0);
    assert(pos_net(swap_seq_for(3, 4)) =~= transposed(3, 4));
}

proof fn swap_pair_3_5()
    ensures
        swap_pair_ok(3, 5),
{
    reveal_with_fuel(iter_rot, 15);
    lemma_move_rot_table();
    reveal(swap_seq_for);
    let msl: Seq<Move> = seq![Move::D3, Move::R3, Move::D3, Move::F3, Move::D1, Move::F1, Move::R1, Move::D3, Move::F3, Move::D1, Move::F1, Move::R3, Move::D1];
    assert(swap_seq_for(3, 5) =~= msl);
    assert(iter_rot(msl, 13, 0) == 0);
    assert(iter_rot(msl, 13, 1) == 1);
    assert(iter_rot(msl, 13, 2) == 2);
    assert(iter_rot(msl, 13, 3) == 5);
    assert(iter_rot(msl, 13, 4) == 4);
    assert(iter_rot(msl, 13, 5) == 3);
    assert(iter_rot(msl, 13, 6) == 6);
    assert(iter_rot(msl, 13, 7) == 7);
    assert forall|k: int| 0 <= k < 8 implies #[trigger] pos_net(swap_seq_for(3, 5))[k] == transposed(3, 5)[k] by {
        lemma_pos_run_pointwise(msl, id_perm(), 13, k);
        if k == 0 {
            assert(id_perm()[0] == 0u8);
            assert(pos_net(swap_seq_for(3, 5))[0] == 0u8);
        } else if k == 1 {
            assert(id_perm()[1] == 1u8);
            assert(pos_net(swap_seq_for(3, 5))[1] == 1u8);
        } else if k == 2 {
            assert(id_perm()[2] == 2u8);
            assert(pos_net(swap_seq_for(3, 5))[2] == 2u8);
        } else if k == 3 {
            assert(id_perm()[3] == 3u8);
            assert(pos_net(swap_seq_for(3, 5))[3] == 5u8);
        } else if k == 4 {
            assert(id_perm()[4] == 4u8);
            assert(pos_net(swap_seq_for(3, 5))[4] == 4u8);
        } else if k == 5 {
            assert(id_perm()[5] == 5u8);
            assert(pos_net(swap_seq_for(3, 5))[5] == 3u8);
        } else if k == 6 {
            assert(id_perm()[6] == 6u8);
            assert(pos_net(swap_seq_for(3, 5))[6] == 6u8);
        } else if k == 7 {
            assert(id_perm()[7] == 7u8);
            assert(pos_net(swap_seq_for(3, 5))[7] == 7u8);
        }
    }
    lemma_pos_run_pointwise(msl, id_perm(), 13, 0);
    assert(pos_net(swap_seq_for(3, 5)) =~= transposed(3, 5));
}

proof fn swap_pair_3_6()
    ensures
        swap_pair_ok(3, 6),
{
    reveal_with_fuel(iter_rot, 15);
    lemma_move_rot_table();
    reveal(swap_seq_for);
    let msl: Seq<Move> = seq![Move::F3, Move::U3, Move::F3, Move::L3, Move::F1, Move::L1, Move::U1, Move::F3, Move::L3, Move::F1, Move::L1, Move::U3, Move::F1];
    assert(swap_seq_for(3, 6) =~= msl);
    assert(iter_rot(msl, 13, 0) == 0);
    assert(iter_rot(msl, 13, 1) == 1);
    assert(iter_rot(msl, 13, 2) == 2);
    assert(iter_rot(msl, 13, 3) == 6);
    assert(iter_rot(msl, 13, 4) == 4);
    assert(iter_rot(msl, 13, 5) == 5);
    assert(iter_rot(msl, 13, 6) == 3);
    assert(iter_rot(msl, 13, 7) == 7);
    assert forall|k: int| 0 <= k < 8 implies #[trigger] pos_net(swap_seq_for(3, 6))[k] == transposed(3, 6)[k] by {
        lemma_pos_run_pointwise(msl, id_perm(), 13, k);
        if k == 0 {
            assert(id_perm()[0] == 0u8);
            assert(pos_net(swap_seq_for(3, 6))[0] == 0u8);
        } else if k == 1 {
            assert(id_perm()[1] == 1u8);
            assert(pos_net(swap_seq_for(3, 6))[1] == 1u8);
        } else if k == 2 {
            assert(id_perm()[2] == 2u8);
            assert(pos_net(swap_seq_for(3, 6))[2] == 2u8);
        } else if k == 3 {
            assert(id_perm()[3] == 3u8);
            assert(pos_net(swap_seq_for(3, 6))[3] == 6u8);
        } else if k == 4 {
            assert(id_perm()[4] == 4u8);
            assert(pos_net(swap_seq_for(3, 6))[4] == 4u8);
        } else if k == 5 {
            assert(id_perm()[5] == 5u8);
            assert(pos_net(swap_seq_for(3, 6))[5] == 5u8);
        } else if k == 6 {
            assert(id_perm()[6] == 6u8);
            assert(pos_net(swap_seq_for(3, 6))[6] == 3u8);
        } else if k == 7 {
            assert(id_perm()[7] == 7u8);
            assert(pos_net(swap_seq_for(3, 6))[7] == 7u8);
        }
    }
    lemma_pos_run_pointwise(msl, id_perm(), 13, 0);
    assert(pos_net(swap_seq_for(3, 6)) =~= transposed(3, 6));
}

proof fn swap_pair_3_7()
    ensures
        swap_pair_ok(3, 7),
{
    reveal_with_fuel(iter_rot, 15);
    lemma_move_rot_table();
    reveal(swap_seq_for);
    let msl: Seq<Move> = seq![Move::U3, Move::F3, Move::L3, Move::F1, Move::L1, Move::U1, Move::F3, Move::L3, Move::F1, Move::L1, Move::U3];
    assert(swap_seq_for(3, 7) =~= msl);
    assert(iter_rot(msl, 11, 0) == 0);
    assert(iter_rot(msl, 11, 1) == 1);
    assert(iter_rot(msl, 11, 2) == 2);
    assert(iter_rot(msl, 11, 3) == 7);
    assert(iter_rot(msl, 11, 4) == 4);
    assert(iter_rot(msl, 11, 5) == 5);
    assert(iter_rot(msl, 11, 6) == 6);
    assert(iter_rot(msl, 11, 7) == 3);
    assert forall|k: int| 0 <= k < 8 implies #[trigger] pos_net(swap_seq_for(3, 7))[k] == transposed(3, 7)[k] by {
        lemma_pos_run_pointwise(msl, id_perm(), 11, k);
        if k == 0 {
            assert(id_perm()[0] == 0u8);
            assert(pos_net(swap_seq_for(3, 7))[0] == 0u8);
        } else if k == 1 {
            assert(id_perm()[1] == 1u8);
            assert(pos_net(swap_seq_for(3, 7))[1] == 1u8);
        } else if k == 2 {
            assert(id_perm()[2] == 2u8);
            assert(pos_net(swap_seq_for(3, 7))[2] == 2u8);
        } else if k == 3 {
            assert(id_perm()[3] == 3u8);
            assert(pos_net(swap_seq_for(3, 7))[3] == 7u8);
        } else if k == 4 {
            assert(id_perm()[4] == 4u8);
            assert(pos_net(swap_seq_for(3, 7))[4] == 4u8);
        } else if k == 5 {
            assert(id_perm()[5] == 5u8);
            assert(pos_net(swap_seq_for(3, 7))[5] == 5u8);
        } else if k == 6 {
            assert(id_perm()[6] == 6u8);
            assert(pos_net(swap_seq_for(3, 7))[6] == 6u8);
        } else if k == 7 {
            assert(id_perm()[7] == 7u8);
            assert(pos_net(swap_seq_for(3, 7))[7] == 3u8);
        }
    }
    lemma_pos_run_pointwise(msl, id_perm(), 11, 0);
    assert(pos_net(swap_seq_for(3, 7)) =~= transposed(3, 7));
}

proof fn swap_pair_4_0()
    ensures
        swap_pair_ok(4, 0),
{
    reveal_with_fuel(iter_rot, 15);
    lemma_move_rot_table();
    reveal(swap_seq_for);
    let msl: Seq<Move> = seq![Move::D3, Move::F3, Move::R3, Move::F1, Move::R1, Move::D1, Move::F3, Move::R3, Move::F1, Move::R1, Move::D3];
    assert(swap_seq_for(4, 0) =~= msl);
    assert(iter_rot(msl, 11, 0) == 4);
    assert(iter_rot(msl, 11, 1) == 1);
    assert(iter_rot(msl, 11, 2) == 2);
    assert(iter_rot(msl, 11, 3) == 3);
    assert(iter_rot(msl, 11, 4) == 0);
    assert(iter_rot(msl, 11, 5) == 5);
    assert(iter_rot(msl, 11, 6) == 6);
    assert(iter_rot(msl, 11, 7) == 7);
    assert forall|k: int| 0 <= k < 8 implies #[trigger] pos_net(swap_seq_for(4, 0))[k] == transposed(4, 0)[k] by {
        lemma_pos_run_pointwise(msl, id_perm(), 11, k);
        if k == 0 {
            assert(id_perm()[0] == 0u8);
            assert(pos_net(swap_seq_for(4, 0))[0] == 4u8);
        } else if k == 1 {
            assert(id_perm()[1] == 1u8);
            assert(pos_net(swap_seq_for(4, 0))[1] == 1u8);
        } else if k == 2 {
            assert(id_perm()[2] == 2u8);
            assert(pos_net(swap_seq_for(4, 0))[2] == 2u8);
        } else if k == 3 {
            assert(id_perm()[3] == 3u8);
            assert(pos_net(swap_seq_for(4, 0))[3] == 3u8);
        } else if k == 4 {
            assert(id_perm()[4] == 4u8);
            assert(pos_net(swap_seq_for(4, 0))[4] == 0u8);
        } else if k == 5 {
            assert(id_perm()[5] == 5u8);
            assert(pos_net(swap_seq_for(4, 0))[5] == 5u8);
        } else if k == 6 {
            assert(id_perm()[6] == 6u8);
            assert(pos_net(swap_seq_for(4, 0))[6] == 6u8);
        } else if k == 7 {
            assert(id_perm()[7] == 7u8);
            assert(pos_net(swap_seq_for(4, 0))[7] == 7u8);
        }
    }
    lemma_pos_run_pointwise(msl, id_perm(), 11, 0);
    assert(pos_net(swap_seq_for(4, 0)) =~= transposed(4, 0));
}

proof fn swap_pair_4_1()
    ensures
        swap_pair_ok(4, 1),
{
    reveal_with_fuel(iter_rot, 15);
    lemma_move_rot_table();
    reveal(swap_seq_for);
    let msl: Seq<Move> = seq![Move::B1, Move::D1, Move::B1, Move::R1, Move::B3, Move::R3, Move::D3, Move::B1, Move::R1, Move::B3, Move::R3, Move::D1, Move::B3];
    assert(swap_seq_for(4, 1) =~= msl);
    assert(iter_rot(msl, 13, 0) == 0);
    assert(iter_rot(msl, 13, 1) == 4);
    assert(iter_rot(msl, 13, 2) == 2);
    assert(iter_rot(msl, 13, 3) == 3);
    assert(iter_rot(msl, 13, 4) == 1);
    assert(iter_rot(msl, 13, 5) == 5);
    assert(iter_rot(msl, 13, 6) == 6);
    assert(iter_rot(msl, 13, 7) == 7);
    assert forall|k: int| 0 <= k < 8 implies #[trigger] pos_net(swap_seq_for(4, 1))[k] == transposed(4, 1)[k] by {
        lemma_pos_run_pointwise(msl, id_perm(), 13, k);
        if k == 0 {
            assert(id_perm()[0] == 0u8);
            assert(pos_net(swap_seq_for(4, 1))[0] == 0u8);
        } else if k == 1 {
            assert(id_perm()[1] == 1u8);
            assert(pos_net(swap_seq_for(4, 1))[1] == 4u8);
        } else if k == 2 {
            assert(id_perm()[2] == 2u8);
            assert(pos_net(swap_seq_for(4, 1))[2] == 2u8);
        } else if k == 3 {
            assert(id_perm()[3] == 3u8);
            assert(pos_net(swap_seq_for(4, 1))[3] == 3u8);
        } else if k == 4 {
            assert(id_perm()[4] == 4u8);
            assert(pos_net(swap_seq_for(4, 1))[4] == 1u8);
        } else if k == 5 {
            assert(id_perm()[5] == 5u8);
            assert(pos_net(swap_seq_for(4, 1))[5] == 5u8);
        } else if k == 6 {
            assert(id_perm()[6] == 6u8);
            assert(pos_net(swap_seq_for(4, 1))[6] == 6u8);
        } else if k == 7 {
            assert(id_perm()[7] == 7u8);
            assert(pos_net(swap_seq_for(4, 1))[7] == 7u8);
        }
    }
    lemma_pos_run_pointwise(msl, id_perm(), 13, 0);
    assert(pos_net(swap_seq_for(4, 1)) =~= transposed(4, 1));
}

proof fn swap_pair_4_2()
    ensures
        swap_pair_ok(4, 2),
{
    reveal_with_fuel(iter_rot, 15);
    lemma_move_rot_table();
    reveal(swap_seq_for);
    let msl: Seq<Move> = seq![Move::U1, Move::L1, Move::U1, Move::B1, Move::U3, Move::B3, Move::L3, Move::U1, Move::B1, Move::U3, Move::B3, Move::L1, Move::U3];
    assert(swap_seq_for(4, 2) =~= msl);
    assert(iter_rot(msl, 13, 0) == 0);
    assert(iter_rot(msl, 13, 1) == 1);
    assert(iter_rot(msl, 13, 2) == 4);
    assert(iter_rot(msl, 13, 3) == 3);
    assert(iter_rot(msl, 13, 4) == 2);
    assert(iter_rot(msl, 13, 5) == 5);
    assert(iter_rot(msl, 13, 6) == 6);
    assert(iter_rot(msl, 13, 7) == 7);
    assert forall|k: int| 0 <= k < 8 implies #[trigger] pos_net(swap_seq_for(4, 2))[k] == transposed(4, 2)[k] by {
        lemma_pos_run_pointwise(msl, id_perm(), 13, k);
        if k == 0 {
            assert(id_perm()[0] == 0u8);
            assert(pos_net(swap_seq_for(4, 2))[0] == 0u8);
        } else if k == 1 {
            assert(id_perm()[1] == 1u8);
            assert(pos_net(swap_seq_for(4, 2))[1] == 1u8);
        } else if k == 2 {
            assert(id_perm()[2] == 2u8);
            assert(pos_net(swap_seq_for(4, 2))[2] == 4u8);
        } else if k == 3 {
            assert(id_perm()[3] == 3u8);
            assert(pos_net(swap_seq_for(4, 2))[3] == 3u8);
        } else if k == 4 {
            assert(id_perm()[4] == 4u8);
            assert(pos_net(swap_seq_for(4, 2))[4] == 2u8);
        } else if k == 5 {
            assert(id_perm()[5] == 5u8);
            assert(pos_net(swap_seq_for(4, 2))[5] == 5u8);
        } else if k == 6 {
            assert(id_perm()[6] == 6u8);
            assert(pos_net(swap_seq_for(4, 2))[6] == 6u8);
        } else if k == 7 {
            assert(id_perm()[7] == 7u8);
            assert(pos_net(swap_seq_for(4, 2))[7] == 7u8);
        }
    }
    lemma_pos_run_pointwise(msl, id_perm(), 13, 0);
    assert(pos_net(swap_seq_for(4, 2)) =~= transposed(4, 2));
}

proof fn swap_pair_4_3()
    ensures
        swap_pair_ok(4, 3),
{
    reveal_with_fuel(iter_rot, 15);
    lemma_move_rot_table();
    reveal(swap_seq_for);
    let msl: Seq<Move> = seq![Move::L2, Move::B1, Move::R1, Move::D1, Move::R3, Move::D3, Move::B3, Move::R1, Move::D1, Move::R3, Move::D3, Move::B1, Move::L2];
    assert(swap_seq_for(4, 3) =~= msl);
    assert(iter_rot(msl, 13, 0) == 0);
    assert(iter_rot(msl, 13, 1) == 1);
    assert(iter_rot(msl, 13, 2) == 2);
    assert(iter_rot(msl, 13, 3) == 4);
    assert(iter_rot(msl, 13, 4) == 3);
    assert(iter_rot(msl, 13, 5) == 5);
    assert(iter_rot(msl, 13, 6) == 6);
    assert(iter_rot(msl, 13, 7) == 7);
    assert forall|k: int| 0 <= k < 8 implies #[trigger] pos_net(swap_seq_for(4, 3))[k] == transposed(4, 3)[k] by {
        lemma_pos_run_pointwise(msl, id_perm(), 13, k);
        if k == 0 {
            assert(id_perm()[0] == 0u8);
            assert(pos_net(swap_seq_for(4, 3))[0] == 0u8);
        } else if k == 1 {
            assert(id_perm()[1] == 1u8);
            assert(pos_net(swap_seq_for(4, 3))[1] == 1u8);
        } else if k == 2 {
            assert(id_perm()[2] == 2u8);
            assert(pos_net(swap_seq_for(4, 3))[2] == 2u8);
        } else if k == 3 {
            assert(id_perm()[3] == 3u8);
            assert(pos_net(swap_seq_for(4, 3))[3] == 4u8);
        } else if k == 4 {
            assert(id_perm()[4] == 4u8);
            assert(pos_net(swap_seq_for(4, 3))[4] == 3u8);
        } else if k == 5 {
            assert(id_perm()[5] == 5u8);
            assert(pos_net(swap_seq_for(4, 3))[5] == 5u8);
        } else if k == 6 {
            assert(id_perm()[6] == 6u8);
            assert(pos_net(swap_seq_for(4, 3))[6] == 6u8);
        } else if k == 7 {
            assert(id_perm()[7] == 7u8);
            assert(pos_net(swap_seq_for(4, 3))[7] == 7u8);
        }
    }
    lemma_pos_run_pointwise(msl, id_perm(), 13, 0);
    assert(pos_net(swap_seq_for(4, 3)) =~= transposed(4, 3));
}

proof fn swap_pair_4_5()
    ensures
        swap_pair_ok(4, 5),
{
    reveal_with_fuel(iter_rot, 15);
    lemma_move_rot_table();
    reveal(swap_seq_for);
    let msl: Seq<Move> = seq![Move::F1, Move::R1, Move::U1, Move::R3, Move::U3, Move::F3, Move::R1, Move::U1, Move::R3, Move::U3, Move::F1];
    assert(swap_seq_for(4, 5) =~= msl);
    assert(iter_rot(msl, 11, 0) == 0);
    assert(iter_rot(msl, 11, 1) == 1);
    assert(iter_rot(msl, 11, 2) == 2);
    assert(iter_rot(msl, 11, 3) == 3);
    assert(iter_rot(msl, 11, 4) == 5);
    assert(iter_rot(msl, 11, 5) == 4);
    assert(iter_rot(msl, 11, 6) == 6);
    assert(iter_rot(msl, 11, 7) == 7);
    assert forall|k: int| 0 <= k < 8 implies #[trigger] pos_net(swap_seq_for(4, 5))[k] == transposed(4, 5)[k] by {
        lemma_pos_run_pointwise(msl, id_perm(), 11, k);
        if k == 0 {
            assert(id_perm()[0] == 0u8);
            assert(pos_net(swap_seq_for(4, 5))[0] == 0u8);
        } else if k == 1 {
            assert(id_perm()[1] == 1u8);
            assert(pos_net(swap_seq_for(4, 5))[1] == 1u8);
        } else if k == 2 {
            assert(id_perm()[2] == 2u8);
            assert(pos_net(swap_seq_for(4, 5))[2] == 2u8);
        } else if k == 3 {
            assert(id_perm()[3] == 3u8);
            assert(pos_net(swap_seq_for(4, 5))[3] == 3u8);
        } else if k == 4 {
            assert(id_perm()[4] == 4u8);
            assert(pos_net(swap_seq_for(4, 5))[4] == 5u8);
        } else if k == 5 {
            assert(id_perm()[5] == 5u8);
            assert(pos_net(swap_seq_for(4, 5))[5] == 4u8);
        } else if k == 6 {
            assert(id_perm()[6] == 6u8);
            assert(pos_net(swap_seq_for(4, 5))[6] == 6u8);
        } else if k == 7 {
            assert(id_perm()[7] == 7u8);
            assert(pos_net(swap_seq_for(4, 5))[7] == 7u8);
        }
    }
    lemma_pos_run_pointwise(msl, id_perm(), 11, 0);
    assert(pos_net(swap_seq_for(4, 5)) =~= transposed(4, 5));
}

proof fn swap_pair_4_6()
    ensures
        swap_pair_ok(4, 6),
{
    reveal_with_fuel(iter_rot, 15);
    lemma_move_rot_table();
    reveal(swap_seq_for);
    let msl: Seq<Move> = seq![Move::L1, Move::U1, Move::B1, Move::U3, Move::B3, Move::L3, Move::U1, Move::B1, Move::U3, Move::B3, Move::L1];
    assert(swap_seq_for(4, 6) =~= msl);
    assert(iter_rot(msl, 11, 0) == 0);
    assert(iter_rot(msl, 11, 1) == 1);
    assert(iter_rot(msl, 11, 2) == 2);
    assert(iter_rot(msl, 11, 3) == 3);
    assert(iter_rot(msl, 11, 4) == 6);
    assert(iter_rot(msl, 11, 5) == 5);
    assert(iter_rot(msl, 11, 6) == 4);
    assert(iter_rot(msl, 11, 7) == 7);
    assert forall|k: int| 0 <= k < 8 implies #[trigger] pos_net(swap_seq_for(4, 6))[k] == transposed(4, 6)[k] by {
        lemma_pos_run_pointwise(msl, id_perm(), 11, k);
        if k == 0 {
            assert(id_perm()[0] == 0u8);
            assert(pos_net(swap_seq_for(4, 6))[0] == 0u8);
        } else if k == 1 {
            assert(id_perm()[1] == 1u8);
            assert(pos_net(swap_seq_for(4, 6))[1] == 1u8);
        } else if k == 2 {
            assert(id_perm()[2] == 2u8);
            assert(pos_net(swap_seq_for(4, 6))[2] == 2u8);
        } else if k == 3 {
            assert(id_perm()[3] == 3u8);
            assert(pos_net(swap_seq_for(4, 6))[3] == 3u8);
        } else if k == 4 {
            assert(id_perm()[4] == 4u8);
            assert(pos_net(swap_seq_for(4, 6))[4] == 6u8);
        } else if k == 5 {
            assert(id_perm()[5] == 5u8);
            assert(pos_net(swap_seq_for(4, 6))[5] == 5u8);
        } else if k == 6 {
            assert(id_perm()[6] == 6u8);
            assert(pos_net(swap_seq_for(4, 6))[6] == 4u8);
        } else if k == 7 {
            assert(id_perm()[7] == 7u8);
            assert(pos_net(swap_seq_for(4, 6))[7] == 7u8);
        }
    }
    lemma_pos_run_pointwise(msl, id_perm(), 11, 0);
    assert(pos_net(swap_seq_for(4, 6)) =~= transposed(4, 6));
}

proof fn swap_pair_4_7()
    ensures
        swap_pair_ok(4, 7),
{
    reveal_with_fuel(iter_rot, 15);
    lemma_move_rot_table();
    reveal(swap_seq_for);
    let msl: Seq<Move> = seq![Move::R1, Move::F1, Move::R1, Move::U1, Move::R3, Move::U3, Move::F3, Move::R1, Move::U1, Move::R3, Move::U3, Move::F1, Move::R3];
    assert(swap_seq_for(4, 7) =~= msl);
    assert(iter_rot(msl, 13, 0) == 0);
    assert(iter_rot(msl, 13, 1) == 1);
    assert(iter_rot(msl, 13, 2) == 2);
    assert(iter_rot(msl, 13, 3) == 3);
    assert(iter_rot(msl, 13, 4) == 7);
    assert(iter_rot(msl, 13, 5) == 5);
    assert(iter_rot(msl, 13, 6) == 6);
    assert(iter_rot(msl, 13, 7) == 4);
    assert forall|k: int| 0 <= k < 8 implies #[trigger] pos_net(swap_seq_for(4, 7))[k] == transposed(4, 7)[k] by {
        lemma_pos_run_pointwise(msl, id_perm(), 13, k);
        if k == 0 {
            assert(id_perm()[0] == 0u8);
            assert(pos_net(swap_seq_for(4, 7))[0] == 0u8);
        } else if k == 1 {
            assert(id_perm()[1] == 1u8);
            assert(pos_net(swap_seq_for(4, 7))[1] == 1u8);
        } else if k == 2 {
            assert(id_perm()[2] == 2u8);
            assert(pos_net(swap_seq_for(4, 7))[2] == 2u8);
        } else if k == 3 {
            assert(id_perm()[3] == 3u8);
            assert(pos_net(swap_seq_for(4, 7))[3] == 3u8);
        } else if k == 4 {
            assert(id_perm()[4] == 4u8);
            assert(pos_net(swap_seq_for(4, 7))[4] == 7u8);
        } else if k == 5 {
            assert(id_perm()[5] == 5u8);
            assert(pos_net(swap_seq_for(4, 7))[5] == 5u8);
        } else if k == 6 {
            assert(id_perm()[6] == 6u8);
            assert(pos_net(swap_seq_for(4, 7))[6] == 6u8);
        } else if k == 7 {
            assert(id_perm()[7] == 7u8);
            assert(pos_net(swap_seq_for(4, 7))[7] == 4u8);
        }
    }
    lemma_pos_run_pointwise(msl, id_perm(), 13, 0);
    assert(pos_net(swap_seq_for(4, 7)) =~= transposed(4, 7));
}

proof fn swap_pair_5_0()
    ensures
        swap_pair_ok(5, 0),
{
    reveal_with_fuel(iter_rot, 15);
    lemma_move_rot_table();
    reveal(swap_seq_for);
    let msl: Seq<Move> = seq![Move::B3, Move::D3, Move::B3, Move::L3, Move::B1, Move::L1, Move::D1, Move::B3, Move::L3, Move::B1, Move::L1, Move::D3, Move::B1];
    assert(swap_seq_for(5, 0) =~= msl);
    assert(iter_rot(msl, 13, 0) == 5);
    assert(iter_rot(msl, 13, 1) == 1);
    assert(iter_rot(msl, 13, 2) == 2);
    assert(iter_rot(msl, 13, 3) == 3);
    assert(iter_rot(msl, 13, 4) == 4);
    assert(iter_rot(msl, 13, 5) == 0);
    assert(iter_rot(msl, 13, 6) == 6);
    assert(iter_rot(msl, 13, 7) == 7);
    assert forall|k: int| 0 <= k < 8 implies #[trigger] pos_net(swap_seq_for(5, 0))[k] == transposed(5, 0)[k] by {
        lemma_pos_run_pointwise(msl, id_perm(), 13, k);
        if k == 0 {
            assert(id_perm()[0] == 0u8);
            assert(pos_net(swap_seq_for(5, 0))[0] == 5u8);
        } else if k == 1 {
            assert(id_perm()[1] == 1u8);
            assert(pos_net(swap_seq_for(5, 0))[1] == 1u8);
        } else if k == 2 {
            assert(id_perm()[2] == 2u8);
            assert(pos_net(swap_seq_for(5, 0))[2] == 2u8);
        } else if k == 3 {
            assert(id_perm()[3] == 3u8);
            assert(pos_net(swap_seq_for(5, 0))[3] == 3u8);
        } else if k == 4 {
            assert(id_perm()[4] == 4u8);
            assert(pos_net(swap_seq_for(5, 0))[4] == 4u8);
        } else if k == 5 {
            assert(id_perm()[5] == 5u8);
            assert(pos_net(swap_seq_for(5, 0))[5] == 0u8);
        } else if k == 6 {
            assert(id_perm()[6] == 6u8);
            assert(pos_net(swap_seq_for(5, 0))[6] == 6u8);
        } else if k == 7 {
            assert(id_perm()[7] == 7u8);
            assert(pos_net(swap_seq_for(5, 0))[7] == 7u8);
        }
    }
    lemma_pos_run_pointwise(msl, id_perm(), 13, 0);
    assert(pos_net(swap_seq_for(5, 0)) =~= transposed(5, 0));
}

proof fn swap_pair_5_1()
    ensures
        swap_pair_ok(5, 1),
{
    reveal_with_fuel(iter_rot, 15);
    lemma_move_rot_table();
    reveal(swap_seq_for);
    let msl: Seq<Move> = seq![Move::D1, Move::F1, Move::L1, Move::F3, Move::L3, Move::D3, Move::F1, Move::L1, Move::F3, Move::L3, Move::D1];
    assert(swap_seq_for(5, 1) =~= msl);
    assert(iter_rot(msl, 11, 0) == 0);
    assert(iter_rot(msl, 11, 1) == 5);
    assert(iter_rot(msl, 11, 2) == 2);
    assert(iter_rot(msl, 11, 3) == 3);
    assert(iter_rot(msl, 11, 4) == 4);
    assert(iter_rot(msl, 11, 5) == 1);
    assert(iter_rot(msl, 11, 6) == 6);
    assert(iter_rot(msl, 11, 7) == 7);
    assert forall|k: int| 0 <= k < 8 implies #[trigger] pos_net(swap_seq_for(5, 1))[k] == transposed(5, 1)[k] by {
        lemma_pos_run_pointwise(msl, id_perm(), 11, k);
        if k == 0 {
            assert(id_perm()[0] == 0u8);
            assert(pos_net(swap_seq_for(5, 1))[0] == 0u8);
        } else if k == 1 {
            assert(id_perm()[1] == 1u8);
            assert(pos_net(swap_seq_for(5, 1))[1] == 5u8);
        } else if k == 2 {
            assert(id_perm()[2] == 2u8);
            assert(pos_net(swap_seq_for(5, 1))[2] == 2u8);
        } else if k == 3 {
            assert(id_perm()[3] == 3u8);
            assert(pos_net(swap_seq_for(5, 1))[3] == 3u8);
        } else if k == 4 {
            assert(id_perm()[4] == 4u8);
            assert(pos_net(swap_seq_for(5, 1))[4] == 4u8);
        } else if k == 5 {
            assert(id_perm()[5] == 5u8);
            assert(pos_net(swap_seq_for(5, 1))[5] == 1u8);
        } else if k == 6 {
            assert(id_perm()[6] == 6u8);
            assert(pos_net(swap_seq_for(5, 1))[6] == 6u8);
        } else if k == 7 {
            assert(id_perm()[7] == 7u8);
            assert(pos_net(swap_seq_for(5, 1))[7] == 7u8);
        }
    }
    lemma_pos_run_pointwise(msl, id_perm(), 11, 0);
    assert(pos_net(swap_seq_for(5, 1)) =~= transposed(5, 1));
}

proof fn swap_pair_5_2()
    ensures
        swap_pair_ok(5, 2),
{
    reveal_with_fuel(iter_rot, 15);
    lemma_move_rot_table();
    reveal(swap_seq_for);
    let msl: Seq<Move> = seq![Move::R2, Move::B3, Move::L3, Move::D3, Move::L1, Move::D1, Move::B1, Move::L3, Move::D3, Move::L1, Move::D1, Move::B3, Move::R2];
    assert(swap_seq_for(5, 2) =~= msl);
    assert(iter_rot(msl, 13, 0) == 0);
    assert(iter_rot(msl, 13, 1) == 1);
    assert(iter_rot(msl, 13, 2) == 5);
    assert(iter_rot(msl, 13, 3) == 3);
    assert(iter_rot(msl, 13, 4) == 4);
    assert(iter_rot(msl, 13, 5) == 2);
    assert(iter_rot(msl, 13, 6) == 6);
    assert(iter_rot(msl, 13, 7) == 7);
    assert forall|k: int| 0 <= k < 8 implies #[trigger] pos_net(swap_seq_for(5, 2))[k] == transposed(5, 2)[k] by {
        lemma_pos_run_pointwise(msl, id_perm(), 13, k);
        if k == 0 {
            assert(id_perm()[0] == 0u8);
            assert(pos_net(swap_seq_for(5, 2))[0] == 0u8);
        } else if k == 1 {
            assert(id_perm()[1] == 1u8);
            assert(pos_net(swap_seq_for(5, 2))[1] == 1u8);
        } else if k == 2 {
            assert(id_perm()[2] == 2u8);
            assert(pos_net(swap_seq_for(5, 2))[2] == 5u8);
        } else if k == 3 {
            assert(id_perm()[3] == 3u8);
            assert(pos_net(swap_seq_for(5, 2))[3] == 3u8);
        } else if k == 4 {
            assert(id_perm()[4] == 4u8);
            assert(pos_net(swap_seq_for(5, 2))[4] == 4u8);
        } else if k == 5 {
            assert(id_perm()[5] == 5u8);
            assert(pos_net(swap_seq_for(5, 2))[5] == 2u8);
        } else if k == 6 {
            assert(id_perm()[6] == 6u8);
            assert(pos_net(swap_seq_for(5, 2))[6] == 6u8);
        } else if k == 7 {
            assert(id_perm()[7] == 7u8);
            assert(pos_net(swap_seq_for(5, 2))[7] == 7u8);
        }
    }
    lemma_pos_run_pointwise(msl, id_perm(), 13, 0);
    assert(pos_net(swap_seq_for(5, 2)) =~= transposed(5, 2));
}

proof fn swap_pair_5_3()
    ensures
        swap_pair_ok(5, 3),
{
    reveal_with_fuel(iter_rot, 15);
    lemma_move_rot_table();
    reveal(swap_seq_for);
    let msl: Seq<Move> = seq![Move::U3, Move::R3, Move::U3, Move::B3, Move::U1, Move::B1, Move::R1, Move::U3, Move::B3, Move::U1, Move::B1, Move::R3, Move::U1];
    assert(swap_seq_for(5, 3) =~= msl);
    assert(iter_rot(msl, 13, 0) == 0);
    assert(iter_rot(msl, 13, 1) == 1);
    assert(iter_rot(msl, 13, 2) == 2);
    assert(iter_rot(msl, 13, 3) == 5);
    assert(iter_rot(msl, 13, 4) == 4);
    assert(iter_rot(msl, 13, 5) == 3);
    assert(iter_rot(msl, 13, 6) == 6);
    assert(iter_rot(msl, 13, 7) == 7);
    assert forall|k: int| 0 <= k < 8 implies #[trigger] pos_net(swap_seq_for(5, 3))[k] == transposed(5, 3)[k] by {
        lemma_pos_run_pointwise(msl, id_perm(), 13, k);
        if k == 0 {
            assert(id_perm()[0] == 0u8);
            assert(pos_net(swap_seq_for(5, 3))[0] == 0u8);
        } else if k == 1 {
            assert(id_perm()[1] == 1u8);
            assert(pos_net(swap_seq_for(5, 3))[1] == 1u8);
        } else if k == 2 {
            assert(id_perm()[2] == 2u8);
            assert(pos_net(swap_seq_for(5, 3))[2] == 2u8);
        } else if k == 3 {
            assert(id_perm()[3] == 3u8);
            assert(pos_net(swap_seq_for(5, 3))[3] == 5u8);
        } else if k == 4 {
            assert(id_perm()[4] == 4u8);
            assert(pos_net(swap_seq_for(5, 3))[4] == 4u8);
        } else if k == 5 {
            assert(id_perm()[5] == 5u8);
            assert(pos_net(swap_seq_for(5, 3))[5] == 3u8);
        } else if k == 6 {
            assert(id_perm()[6] == 6u8);
            assert(pos_net(swap_seq_for(5, 3))[6] == 6u8);
        } else if k == 7 {
            assert(id_perm()[7] == 7u8);
            assert(pos_net(swap_seq_for(5, 3))[7] == 7u8);
        }
    }
    lemma_pos_run_pointwise(msl, id_perm(), 13, 0);
    assert(pos_net(swap_seq_for(5, 3)) =~= transposed(5, 3));
}

proof fn swap_pair_5_4()
    ensures
        swap_pair_ok(5, 4),
{
    reveal_with_fuel(iter_rot, 15);
    lemma_move_rot_table();
    reveal(swap_seq_for);
    let msl: Seq<Move> = seq![Move::F1, Move::R1, Move::U1, Move::R3, Move::U3, Move::F3, Move::R1, Move::U1, Move::R3, Move::U3, Move::F1];
    assert(swap_seq_for(5, 4) =~= msl);
    assert(iter_rot(msl, 11, 0) == 0);
    assert(iter_rot(msl, 11, 1) == 1);
    assert(iter_rot(msl, 11, 2) == 2);
    assert(iter_rot(msl, 11, 3) == 3);
    assert(iter_rot(msl, 11, 4) == 5);
    assert(iter_rot(msl, 11, 5) == 4);
    assert(iter_rot(msl, 11, 6) == 6);
    assert(iter_rot(msl, 11, 7) == 7);
    assert forall|k: int| 0 <= k < 8 implies #[trigger] pos_net(swap_seq_for(5, 4))[k] == transposed(5, 4)[k] by {
        lemma_pos_run_pointwise(msl, id_perm(), 11, k);
        if k == 0 {
            assert(id_perm()[0] == 0u8);
            assert(pos_net(swap_seq_for(5, 4))[0] == 0u8);
        } else if k == 1 {
            assert(id_perm()[1] == 1u8);
            assert(pos_net(swap_seq_for(5, 4))[1] == 1u8);
        } else if k == 2 {
            assert(id_perm()[2] == 2u8);
            assert(pos_net(swap_seq_for(5, 4))[2] == 2u8);
        } else if k == 3 {
            assert(id_perm()[3] == 3u8);
            assert(pos_net(swap_seq_for(5, 4))[3] == 3u8);
        } else if k == 4 {
            assert(id_perm()[4] == 4u8);
            assert(pos_net(swap_seq_for(5, 4))[4] == 5u8);
        } else if k == 5 {
            assert(id_perm()[5] == 5u8);
            assert(pos_net(swap_seq_for(5, 4))[5] == 4u8);
        } else if k == 6 {
            assert(id_perm()[6] == 6u8);
            assert(pos_net(swap_seq_for(5, 4))[6] == 6u8);
        } else if k == 7 {
            assert(id_perm()[7] == 7u8);
            assert(pos_net(swap_seq_for(5, 4))[7] == 7u8);
        }
    }
    lemma_pos_run_pointwise(msl, id_perm(), 11, 0);
    assert(pos_net(swap_seq_for(5, 4)) =~= transposed(5, 4));
}

proof fn swap_pair_5_6()
    ensures
        swap_pair_ok(5, 6),
{
    reveal_with_fuel(iter_rot, 15);
    lemma_move_rot_table();
    reveal(swap_seq_for);
    let msl: Seq<Move> = seq![Move::L3, Move::F3, Move::L3, Move::U3, Move::L1, Move::U1, Move::F1, Move::L3, Move::U3, Move::L1, Move::U1, Move::F3, Move::L1];
    assert(swap_seq_for(5, 6) =~= msl);
    assert(iter_rot(msl, 13, 0) == 0);
    assert(iter_rot(msl, 13, 1) == 1);
    assert(iter_rot(msl, 13, 2) == 2);
    assert(iter_rot(msl, 13, 3) == 3);
    assert(iter_rot(msl, 13, 4) == 4);
    assert(iter_rot(msl, 13, 5) == 6);
    assert(iter_rot(msl, 13, 6) == 5);
    assert(iter_rot(msl, 13, 7) == 7);
    assert forall|k: int| 0 <= k < 8 implies #[trigger] pos_net(swap_seq_for(5, 6))[k] == transposed(5, 6)[k] by {
        lemma_pos_run_pointwise(msl, id_perm(), 13, k);
        if k == 0 {
            assert(id_perm()[0] == 0u8);
            assert(pos_net(swap_seq_for(5, 6))[0] == 0u8);
        } else if k == 1 {
            assert(id_perm()[1] == 1u8);
            assert(pos_net(swap_seq_for(5, 6))[1] == 1u8);
        } else if k == 2 {
            assert(id_perm()[2] == 2u8);
            assert(pos_net(swap_seq_for(5, 6))[2] == 2u8);
        } else if k == 3 {
            assert(id_perm()[3] == 3u8);
            assert(pos_net(swap_seq_for(5, 6))[3] == 3u8);
        } else if k == 4 {
            assert(id_perm()[4] == 4u8);
            assert(pos_net(swap_seq_for(5, 6))[4] == 4u8);
        } else if k == 5 {
            assert(id_perm()[5] == 5u8);
            assert(pos_net(swap_seq_for(5, 6))[5] == 6u8);
        } else if k == 6 {
            assert(id_perm()[6] == 6u8);
            assert(pos_net(swap_seq_for(5, 6))[6] == 5u8);
        } else if k == 7 {
            assert(id_perm()[7] == 7u8);
            assert(pos_net(swap_seq_for(5, 6))[7] == 7u8);
        }
    }
    lemma_pos_run_pointwise(msl, id_perm(), 13, 0);
    assert(pos_net(swap_seq_for(5, 6)) =~= transposed(5, 6));
}

proof fn swap_pair_5_7()
    ensures
        swap_pair_ok(5, 7),
{
    reveal_with_fuel(iter_rot, 15);
    lemma_move_rot_table();
    reveal(swap_seq_for);
    let msl: Seq<Move> = seq![Move::R3, Move::U3, Move::B3, Move::U1, Move::B1, Move::R1, Move::U3, Move::B3, Move::U1, Move::B1, Move::R3];
    assert(swap_seq_for(5, 7) =~= msl);
    assert(iter_rot(msl, 11, 0) == 0);
    assert(iter_rot(msl, 11, 1) == 1);
    assert(iter_rot(msl, 11, 2) == 2);
    assert(iter_rot(msl, 11, 3) == 3);
    assert(iter_rot(msl, 11, 4) == 4);
    assert(iter_rot(msl, 11, 5) == 7);
    assert(iter_rot(msl, 11, 6) == 6);
    assert(iter_rot(msl, 11, 7) == 5);
    assert forall|k: int| 0 <= k < 8 implies #[trigger] pos_net(swap_seq_for(5, 7))[k] == transposed(5, 7)[k] by {
        lemma_pos_run_pointwise(msl, id_perm(), 11, k);
        if k == 0 {
            assert(id_perm()[0] == 0u8);
            assert(pos_net(swap_seq_for(5, 7))[0] == 0u8);
        } else if k == 1 {
            assert(id_perm()[1] == 1u8);
            assert(pos_net(swap_seq_for(5, 7))[1] == 1u8);
        } else if k == 2 {
            assert(id_perm()[2] == 2u8);
            assert(pos_net(swap_seq_for(5, 7))[2] == 2u8);
        } else if k == 3 {
            assert(id_perm()[3] == 3u8);
            assert(pos_net(swap_seq_for(5, 7))[3] == 3u8);
        } else if k == 4 {
            assert(id_perm()[4] == 4u8);
            assert(pos_net(swap_seq_for(5, 7))[4] == 4u8);
        } else if k == 5 {
            assert(id_perm()[5] == 5u8);
            assert(pos_net(swap_seq_for(5, 7))[5] == 7u8);
        } else if k == 6 {
            assert(id_perm()[6] == 6u8);
            assert(pos_net(swap_seq_for(5, 7))[6] == 6u8);
        } else if k == 7 {
            assert(id_perm()[7] == 7u8);
            assert(pos_net(swap_seq_for(5, 7))[7] == 5u8);
        }
    }
    lemma_pos_run_pointwise(msl, id_perm(), 11, 0);
    assert(pos_net(swap_seq_for(5, 7)) =~= transposed(5, 7));
}

proof fn swap_pair_6_0()
    ensures
        swap_pair_ok(6, 0),
{
    reveal_with_fuel(iter_rot, 15);
    lemma_move_rot_table();
    reveal(swap_seq_for);
    let msl: Seq<Move> = seq![Move::D3, Move::L3, Move::D3, Move::B3, Move::D1, Move::B1, Move::L1, Move::D3, Move::B3, Move::D1, Move::B1, Move::L3, Move::D1];
    assert(swap_seq_for(6, 0) =~= msl);
    assert(iter_rot(msl, 13, 0) == 6);
    assert(iter_rot(msl, 13, 1) == 1);
    assert(iter_rot(msl, 13, 2) == 2);
    assert(iter_rot(msl, 13, 3) == 3);
    assert(iter_rot(msl, 13, 4) == 4);
    assert(iter_rot(msl, 13, 5) == 5);
    assert(iter_rot(msl, 13, 6) == 0);
    assert(iter_rot(msl, 13, 7) == 7);
    assert forall|k: int| 0 <= k < 8 implies #[trigger] pos_net(swap_seq_for(6, 0))[k] == transposed(6, 0)[k] by {
        lemma_pos_run_pointwise(msl, id_perm(), 13, k);
        if k == 0 {
            assert(id_perm()[0] == 0u8);
            assert(pos_net(swap_seq_for(6, 0))[0] == 6u8);
        } else if k == 1 {
            assert(id_perm()[1] == 1u8);
            assert(pos_net(swap_seq_for(6, 0))[1] == 1u8);
        } else if k == 2 {
            assert(id_perm()[2] == 2u8);
            assert(pos_net(swap_seq_for(6, 0))[2] == 2u8);
        } else if k == 3 {
            assert(id_perm()[3] == 3u8);
            assert(pos_net(swap_seq_for(6, 0))[3] == 3u8);
        } else if k == 4 {
            assert(id_perm()[4] == 4u8);
            assert(pos_net(swap_seq_for(6, 0))[4] == 4u8);
        } else if k == 5 {
            assert(id_perm()[5] == 5u8);
            assert(pos_net(swap_seq_for(6, 0))[5] == 5u8);
        } else if k == 6 {
            assert(id_perm()[6] == 6u8);
            assert(pos_net(swap_seq_for(6, 0))[6] == 0u8);
        } else if k == 7 {
            assert(id_perm()[7] == 7u8);
            assert(pos_net(swap_seq_for(6, 0))[7] == 7u8);
        }
    }
    lemma_pos_run_pointwise(msl, id_perm(), 13, 0);
    assert(pos_net(swap_seq_for(6, 0)) =~= transposed(6, 0));
}

proof fn swap_pair_6_1()
    ensures
        swap_pair_ok(6, 1),
{
    reveal_with_fuel(iter_rot, 15);
    lemma_move_rot_table();
    reveal(swap_seq_for);
    let msl: Seq<Move> = seq![Move::L2, Move::B3, Move::R3, Move::U3, Move::R1, Move::U1, Move::B1, Move::R3, Move::U3, Move::R1, Move::U1, Move::B3, Move::L2];
    assert(swap_seq_for(6, 1) =~= msl);
    assert(iter_rot(msl, 13, 0) == 0);
    assert(iter_rot(msl, 13, 1) == 6);
    assert(iter_rot(msl, 13, 2) == 2);
    assert(iter_rot(msl, 13, 3) == 3);
    assert(iter_rot(msl, 13, 4) == 4);
    assert(iter_rot(msl, 13, 5) == 5);
    assert(iter_rot(msl, 13, 6) == 1);
    assert(iter_rot(msl, 13, 7) == 7);
    assert forall|k: int| 0 <= k < 8 implies #[trigger] pos_net(swap_seq_for(6, 1))[k] == transposed(6, 1)[k] by {
        lemma_pos_run_pointwise(msl, id_perm(), 13, k);
        if k == 0 {
            assert(id_perm()[0] == 0u8);
            assert(pos_net(swap_seq_for(6, 1))[0] == 0u8);
        } else if k == 1 {
            assert(id_perm()[1] == 1u8);
            assert(pos_net(swap_seq_for(6, 1))[1] == 6u8);
        } else if k == 2 {
            assert(id_perm()[2] == 2u8);
            assert(pos_net(swap_seq_for(6, 1))[2] == 2u8);
        } else if k == 3 {
            assert(id_perm()[3] == 3u8);
            assert(pos_net(swap_seq_for(6, 1))[3] == 3u8);
        } else if k == 4 {
            assert(id_perm()[4] == 4u8);
            assert(pos_net(swap_seq_for(6, 1))[4] == 4u8);
        } else if k == 5 {
            assert(id_perm()[5] == 5u8);
            assert(pos_net(swap_seq_for(6, 1))[5] == 5u8);
        } else if k == 6 {
            assert(id_perm()[6] == 6u8);
            assert(pos_net(swap_seq_for(6, 1))[6] == 1u8);
        } else if k == 7 {
            assert(id_perm()[7] == 7u8);
            assert(pos_net(swap_seq_for(6, 1))[7] == 7u8);
        }
    }
    lemma_pos_run_pointwise(msl, id_perm(), 13, 0);
    assert(pos_net(swap_seq_for(6, 1)) =~= transposed(6, 1));
}

proof fn swap_pair_6_2()
    ensures
        swap_pair_ok(6, 2),
{
    reveal_with_fuel(iter_rot, 15);
    lemma_move_rot_table();
    reveal(swap_seq_for);
    let msl: Seq<Move> = seq![Move::U1, Move::F1, Move::R1, Move::F3, Move::R3, Move::U3, Move::F1, Move::R1, Move::F3, Move::R3, Move::U1];
    assert(swap_seq_for(6, 2) =~= msl);
    assert(iter_rot(msl, 11, 0) == 0);
    assert(iter_rot(msl, 11, 1) == 1);
    assert(iter_rot(msl, 11, 2) == 6);
    assert(iter_rot(msl, 11, 3) == 3);
    assert(iter_rot(msl, 11, 4) == 4);
    assert(iter_rot(msl, 11, 5) == 5);
    assert(iter_rot(msl, 11, 6) == 2);
    assert(iter_rot(msl, 11, 7) == 7);
    assert forall|k: int| 0 <= k < 8 implies #[trigger] pos_net(swap_seq_for(6, 2))[k] == transposed(6, 2)[k] by {
        lemma_pos_run_pointwise(msl, id_perm(), 11, k);
        if k == 0 {
            assert(id_perm()[0] == 0u8);
            assert(pos_net(swap_seq_for(6, 2))[0] == 0u8);
        } else if k == 1 {
            assert(id_perm()[1] == 1u8);
            assert(pos_net(swap_seq_for(6, 2))[1] == 1u8);
        } else if k == 2 {
            assert(id_perm()[2] == 2u8);
            assert(pos_net(swap_seq_for(6, 2))[2] == 6u8);
        } else if k == 3 {
            assert(id_perm()[3] == 3u8);
            assert(pos_net(swap_seq_for(6, 2))[3] == 3u8);
        } else if k == 4 {
            assert(id_perm()[4] == 4u8);
            assert(pos_net(swap_seq_for(6, 2))[4] == 4u8);
        } else if k == 5 {
            assert(id_perm()[5] == 5u8);
            assert(pos_net(swap_seq_for(6, 2))[5] == 5u8);
        } else if k == 6 {
            assert(id_perm()[6] == 6u8);
            assert(pos_net(swap_seq_for(6, 2))[6] == 2u8);
        } else if k == 7 {
            assert(id_perm()[7] == 7u8);
            assert(pos_net(swap_seq_for(6, 2))[7] == 7u8);
        }
    }
    lemma_pos_run_pointwise(msl, id_perm(), 11, 0);
    assert(pos_net(swap_seq_for(6, 2)) =~= transposed(6, 2));
}

proof fn swap_pair_6_3()
    ensures
        swap_pair_ok(6, 3),
{
    reveal_with_fuel(iter_rot, 15);
    lemma_move_rot_table();
    reveal(swap_seq_for);
    let msl: Seq<Move> = seq![Move::B3, Move::U3, Move::B3, Move::R3, Move::B1, Move::R1, Move::U1, Move::B3, Move::R3, Move::B1, Move::R1, Move::U3, Move::B1];
    assert(swap_seq_for(6, 3) =~= msl);
    assert(iter_rot(msl, 13, 0) == 0);
    assert(iter_rot(msl, 13, 1) == 1);
    assert(iter_rot(msl, 13, 2) == 2);
    assert(iter_rot(msl, 13, 3) == 6);
    assert(iter_rot(msl, 13, 4) == 4);
    assert(iter_rot(msl, 13, 5) == 5);
    assert(iter_rot(msl, 13, 6) == 3);
    assert(iter_rot(msl, 13, 7) == 7);
    assert forall|k: int| 0 <= k < 8 implies #[trigger] pos_net(swap_seq_for(6, 3))[k] == transposed(6, 3)[k] by {
        lemma_pos_run_pointwise(msl, id_perm(), 13, k);
        if k == 0 {
            assert(id_perm()[0] == 0u8);
            assert(pos_net(swap_seq_for(6, 3))[0] == 0u8);
        } else if k == 1 {
            assert(id_perm()[1] == 1u8);
            assert(pos_net(swap_seq_for(6, 3))[1] == 1u8);
        } else if k == 2 {
            assert(id_perm()[2] == 2u8);
            assert(pos_net(swap_seq_for(6, 3))[2] == 2u8);
        } else if k == 3 {
            assert(id_perm()[3] == 3u8);
            assert(pos_net(swap_seq_for(6, 3))[3] == 6u8);
        } else if k == 4 {
            assert(id_perm()[4] == 4u8);
            assert(pos_net(swap_seq_for(6, 3))[4] == 4u8);
        } else if k == 5 {
            assert(id_perm()[5] == 5u8);
            assert(pos_net(swap_seq_for(6, 3))[5] == 5u8);
        } else if k == 6 {
            assert(id_perm()[6] == 6u8);
            assert(pos_net(swap_seq_for(6, 3))[6] == 3u8);
        } else if k == 7 {
            assert(id_perm()[7] == 7u8);
            assert(pos_net(swap_seq_for(6, 3))[7] == 7u8);
        }
    }
    lemma_pos_run_pointwise(msl, id_perm(), 13, 0);
    assert(pos_net(swap_seq_for(6, 3)) =~= transposed(6, 3));
}

proof fn swap_pair_6_4()
    ensures
        swap_pair_ok(6, 4),
{
    reveal_with_fuel(iter_rot, 15);
    lemma_move_rot_table();
    reveal(swap_seq_for);
    let msl: Seq<Move> = seq![Move::L1, Move::U1, Move::B1, Move::U3, Move::B3, Move::L3, Move::U1, Move::B1, Move::U3, Move::B3, Move::L1];
    assert(swap_seq_for(6, 4) =~= msl);
    assert(iter_rot(msl, 11, 0) == 0);
    assert(iter_rot(msl, 11, 1) == 1);
    assert(iter_rot(msl, 11, 2) == 2);
    assert(iter_rot(msl, 11, 3) == 3);
    assert(iter_rot(msl, 11, 4) == 6);
    assert(iter_rot(msl, 11, 5) == 5);
    assert(iter_rot(msl, 11, 6) == 4);
    assert(iter_rot(msl, 11, 7) == 7);
    assert forall|k: int| 0 <= k < 8 implies #[trigger] pos_net(swap_seq_for(6, 4))[k] == transposed(6, 4)[k] by {
        lemma_pos_run_pointwise(msl, id_perm(), 11, k);
        if k == 0 {
            assert(id_perm()[0] == 0u8);
            assert(pos_net(swap_seq_for(6, 4))[0] == 0u8);
        } else if k == 1 {
            assert(id_perm()[1] == 1u8);
            assert(pos_net(swap_seq_for(6, 4))[1] == 1u8);
        } else if k == 2 {
            assert(id_perm()[2] == 2u8);
            assert(pos_net(swap_seq_for(6, 4))[2] == 2u8);
        } else if k == 3 {
            assert(id_perm()[3] == 3u8);
            assert(pos_net(swap_seq_for(6, 4))[3] == 3u8);
        } else if k == 4 {
            assert(id_perm()[4] == 4u8);
            assert(pos_net(swap_seq_for(6, 4))[4] == 6u8);
        } else if k == 5 {
            assert(id_perm()[5] == 5u8);
            assert(pos_net(swap_seq_for(6, 4))[5] == 5u8);
        } else if k == 6 {
            assert(id_perm()[6] == 6u8);
            assert(pos_net(swap_seq_for(6, 4))[6] == 4u8);
        } else if k == 7 {
            assert(id_perm()[7] == 7u8);
            assert(pos_net(swap_seq_for(6, 4))[7] == 7u8);
        }
    }
    lemma_pos_run_pointwise(msl, id_perm(), 11, 0);
    assert(pos_net(swap_seq_for(6, 4)) =~= transposed(6, 4));
}

proof fn swap_pair_6_5()
    ensures
        swap_pair_ok(6, 5),
{
    reveal_with_fuel(iter_rot, 15);
    lemma_move_rot_table();
    reveal(swap_seq_for);
    let msl: Seq<Move> = seq![Move::R3, Move::F3, Move::R3, Move::D3, Move::R1, Move::D1, Move::F1, Move::R3, Move::D3, Move::R1, Move::D1, Move::F3, Move::R1];
    assert(swap_seq_for(6, 5) =~= msl);
    assert(iter_rot(msl, 13, 0) == 0);
    assert(iter_rot(msl, 13, 1) == 1);
    assert(iter_rot(msl, 13, 2) == 2);
    assert(iter_rot(msl, 13, 3) == 3);
    assert(iter_rot(msl, 13, 4) == 4);
    assert(iter_rot(msl, 13, 5) == 6);
    assert(iter_rot(msl, 13, 6) == 5);
    assert(iter_rot(msl, 13, 7) == 7);
    assert forall|k: int| 0 <= k < 8 implies #[trigger] pos_net(swap_seq_for(6, 5))[k] == transposed(6, 5)[k] by {
        lemma_pos_run_pointwise(msl, id_perm(), 13, k);
        if k == 0 {
            assert(id_perm()[0] == 0u8);
            assert(pos_net(swap_seq_for(6, 5))[0] == 0u8);
        } else if k == 1 {
            assert(id_perm()[1] == 1u8);
            assert(pos_net(swap_seq_for(6, 5))[1] == 1u8);
        } else if k == 2 {
            assert(id_perm()[2] == 2u8);
            assert(pos_net(swap_seq_for(6, 5))[2] == 2u8);
        } else if k == 3 {
            assert(id_perm()[3] == 3u8);
            assert(pos_net(swap_seq_for(6, 5))[3] == 3u8);
        } else if k == 4 {
            assert(id_perm()[4] == 4u8);
            assert(pos_net(swap_seq_for(6, 5))[4] == 4u8);
        } else if k == 5 {
            assert(id_perm()[5] == 5u8);
            assert(pos_net(swap_seq_for(6, 5))[5] == 6u8);
        } else if k == 6 {
            assert(id_perm()[6] == 6u8);
            assert(pos_net(swap_seq_for(6, 5))[6] == 5u8);
        } else if k == 7 {
            assert(id_perm()[7] == 7u8);
            assert(pos_net(swap_seq_for(6, 5))[7] == 7u8);
        }
    }
    lemma_pos_run_pointwise(msl, id_perm(), 13, 0);
    assert(pos_net(swap_seq_for(6, 5)) =~= transposed(6, 5));
}

proof fn swap_pair_6_7()
    ensures
        swap_pair_ok(6, 7),
{
    reveal_with_fuel(iter_rot, 15);
    lemma_move_rot_table();
    reveal(swap_seq_for);
    let msl: Seq<Move> = seq![Move::F3, Move::R3, Move::D3, Move::R1, Move::D1, Move::F1, Move::R3, Move::D3, Move::R1, Move::D1, Move::F3];
    assert(swap_seq_for(6, 7) =~= msl);
    assert(iter_rot(msl, 11, 0) == 0);
    assert(iter_rot(msl, 11, 1) == 1);
    assert(iter_rot(msl, 11, 2) == 2);
    assert(iter_rot(msl, 11, 3) == 3);
    assert(iter_rot(msl, 11, 4) == 4);
    assert(iter_rot(msl, 11, 5) == 5);
    assert(iter_rot(msl, 11, 6) == 7);
    assert(iter_rot(msl, 11, 7) == 6);
    assert forall|k: int| 0 <= k < 8 implies #[trigger] pos_net(swap_seq_for(6, 7))[k] == transposed(6, 7)[k] by {
        lemma_pos_run_pointwise(msl, id_perm(), 11, k);
        if k == 0 {
            assert(id_perm()[0] == 0u8);
            assert(pos_net(swap_seq_for(6, 7))[0] == 0u8);
        } else if k == 1 {
            assert(id_perm()[1] == 1u8);
            assert(pos_net(swap_seq_for(6, 7))[1] == 1u8);
        } else if k == 2 {
            assert(id_perm()[2] == 2u8);
            assert(pos_net(swap_seq_for(6, 7))[2] == 2u8);
        } else if k == 3 {
            assert(id_perm()[3] == 3u8);
            assert(pos_net(swap_seq_for(6, 7))[3] == 3u8);
        } else if k == 4 {
            assert(id_perm()[4] == 4u8);
            assert(pos_net(swap_seq_for(6, 7))[4] == 4u8);
        } else if k == 5 {
            assert(id_perm()[5] == 5u8);
            assert(pos_net(swap_seq_for(6, 7))[5] == 5u8);
        } else if k == 6 {
            assert(id_perm()[6] == 6u8);
            assert(pos_net(swap_seq_for(6, 7))[6] == 7u8);
        } else if k == 7 {
            assert(id_perm()[7] == 7u8);
            assert(pos_net(swap_seq_for(6, 7))[7] == 6u8);
        }
    }
    lemma_pos_run_pointwise(msl, id_perm(), 11, 0);
    assert(pos_net(swap_seq_for(6, 7)) =~= transposed(6, 7));
}

proof fn swap_pair_7_0()
    ensures
        swap_pair_ok(7, 0),
{
    reveal_with_fuel(iter_rot, 15);
    lemma_move_rot_table();
    reveal(swap_seq_for);
    let msl: Seq<Move> = seq![Move::R2, Move::B1, Move::L1, Move::U1, Move::L3, Move::U3, Move::B3, Move::L1, Move::U1, Move::L3, Move::U3, Move::B1, Move::R2];
    assert(swap_seq_for(7, 0) =~= msl);
    assert(iter_rot(msl, 13, 0) == 7);
    assert(iter_rot(msl, 13, 1) == 1);
    assert(iter_rot(msl, 13, 2) == 2);
    assert(iter_rot(msl, 13, 3) == 3);
    assert(iter_rot(msl, 13, 4) == 4);
    assert(iter_rot(msl, 13, 5) == 5);
    assert(iter_rot(msl, 13, 6) == 6);
    assert(iter_rot(msl, 13, 7) == 0);
    assert forall|k: int| 0 <= k < 8 implies #[trigger] pos_net(swap_seq_for(7, 0))[k] == transposed(7, 0)[k] by {
        lemma_pos_run_pointwise(msl, id_perm(), 13, k);
        if k == 0 {
            assert(id_perm()[0] == 0u8);
            assert(pos_net(swap_seq_for(7, 0))[0] == 7u8);
        } else if k == 1 {
            assert(id_perm()[1] == 1u8);
            assert(pos_net(swap_seq_for(7, 0))[1] == 1u8);
        } else if k == 2 {
            assert(id_perm()[2] == 2u8);
            assert(pos_net(swap_seq_for(7, 0))[2] == 2u8);
        } else if k == 3 {
            assert(id_perm()[3] == 3u8);
            assert(pos_net(swap_seq_for(7, 0))[3] == 3u8);
        } else if k == 4 {
            assert(id_perm()[4] == 4u8);
            assert(pos_net(swap_seq_for(7, 0))[4] == 4u8);
        } else if k == 5 {
            assert(id_perm()[5] == 5u8);
            assert(pos_net(swap_seq_for(7, 0))[5] == 5u8);
        } else if k == 6 {
            assert(id_perm()[6] == 6u8);
            assert(pos_net(swap_seq_for(7, 0))[6] == 6u8);
        } else if k == 7 {
            assert(id_perm()[7] == 7u8);
            assert(pos_net(swap_seq_for(7, 0))[7] == 0u8);
        }
    }
    lemma_pos_run_pointwise(msl, id_perm(), 13, 0);
    assert(pos_net(swap_seq_for(7, 0)) =~= transposed(7, 0));
}

proof fn swap_pair_7_1()
    ensures
        swap_pair_ok(7, 1),
{
    reveal_with_fuel(iter_rot, 15);
    lemma_move_rot_table();
    reveal(swap_seq_for);
    let msl: Seq<Move> = seq![Move::D1, Move::R1, Move::D1, Move::B1, Move::D3, Move::B3, Move::R3, Move::D1, Move::B1, Move::D3, Move::B3, Move::R1, Move::D3];
    assert(swap_seq_for(7, 1) =~= msl);
    assert(iter_rot(msl, 13, 0) == 0);
    assert(iter_rot(msl, 13, 1) == 7);
    assert(iter_rot(msl, 13, 2) == 2);
    assert(iter_rot(msl, 13, 3) == 3);
    assert(iter_rot(msl, 13, 4) == 4);
    assert(iter_rot(msl, 13, 5) == 5);
    assert(iter_rot(msl, 13, 6) == 6);
    assert(iter_rot(msl, 13, 7) == 1);
    assert forall|k: int| 0 <= k < 8 implies #[trigger] pos_net(swap_seq_for(7, 1))[k] == transposed(7, 1)[k] by {
        lemma_pos_run_pointwise(msl, id_perm(), 13, k);
        if k == 0 {
            assert(id_perm()[0] == 0u8);
            assert(pos_net(swap_seq_for(7, 1))[0] == 0u8);
        } else if k == 1 {
            assert(id_perm()[1] == 1u8);
            assert(pos_net(swap_seq_for(7, 1))[1] == 7u8);
        } else if k == 2 {
            assert(id_perm()[2] == 2u8);
            assert(pos_net(swap_seq_for(7, 1))[2] == 2u8);
        } else if k == 3 {
            assert(id_perm()[3] == 3u8);
            assert(pos_net(swap_seq_for(7, 1))[3] == 3u8);
        } else if k == 4 {
            assert(id_perm()[4] == 4u8);
            assert(pos_net(swap_seq_for(7, 1))[4] == 4u8);
        } else if k == 5 {
            assert(id_perm()[5] == 5u8);
            assert(pos_net(swap_seq_for(7, 1))[5] == 5u8);
        } else if k == 6 {
            assert(id_perm()[6] == 6u8);
            assert(pos_net(swap_seq_for(7, 1))[6] == 6u8);
        } else if k == 7 {
            assert(id_perm()[7] == 7u8);
            assert(pos_net(swap_seq_for(7, 1))[7] == 1u8);
        }
    }
    lemma_pos_run_pointwise(msl, id_perm(), 13, 0);
    assert(pos_net(swap_seq_for(7, 1)) =~= transposed(7, 1));
}

proof fn swap_pair_7_2()
    ensures
        swap_pair_ok(7, 2),
{
    reveal_with_fuel(iter_rot, 15);
    lemma_move_rot_table();
    reveal(swap_seq_for);
    let msl: Seq<Move> = seq![Move::B1, Move::U1, Move::B1, Move::L1, Move::B3, Move::L3, Move::U3, Move::B1, Move::L1, Move::B3, Move::L3, Move::U1, Move::B3];
    assert(swap_seq_for(7, 2) =~= msl);
    assert(iter_rot(msl, 13, 0) == 0);
    assert(iter_rot(msl, 13, 1) == 1);
    assert(iter_rot(msl, 13, 2) == 7);
    assert(iter_rot(msl, 13, 3) == 3);
    assert(iter_rot(msl, 13, 4) == 4);
    assert(iter_rot(msl, 13, 5) == 5);
    assert(iter_rot(msl, 13, 6) == 6);
    assert(iter_rot(msl, 13, 7) == 2);
    assert forall|k: int| 0 <= k < 8 implies #[trigger] pos_net(swap_seq_for(7, 2))[k] == transposed(7, 2)[k] by {
        lemma_pos_run_pointwise(msl, id_perm(), 13, k);
        if k == 0 {
            assert(id_perm()[0] == 0u8);
            assert(pos_net(swap_seq_for(7, 2))[0] == 0u8);
        } else if k == 1 {
            assert(id_perm()[1] == 1u8);
            assert(pos_net(swap_seq_for(7, 2))[1] == 1u8);
        } else if k == 2 {
            assert(id_perm()[2] == 2u8);
            assert(pos_net(swap_seq_for(7, 2))[2] == 7u8);
        } else if k == 3 {
            assert(id_perm()[3] == 3u8);
            assert(pos_net(swap_seq_for(7, 2))[3] == 3u8);
        } else if k == 4 {
            assert(id_perm()[4] == 4u8);
            assert(pos_net(swap_seq_for(7, 2))[4] == 4u8);
        } else if k == 5 {
            assert(id_perm()[5] == 5u8);
            assert(pos_net(swap_seq_for(7, 2))[5] == 5u8);
        } else if k == 6 {
            assert(id_perm()[6] == 6u8);
            assert(pos_net(swap_seq_for(7, 2))[6] == 6u8);
        } else if k == 7 {
            assert(id_perm()[7] == 7u8);
            assert(pos_net(swap_seq_for(7, 2))[7] == 2u8);
        }
    }
    lemma_pos_run_pointwise(msl, id_perm(), 13, 0);
    assert(pos_net(swap_seq_for(7, 2)) =~= transposed(7, 2));
}

proof fn swap_pair_7_3()
    ensures
        swap_pair_ok(7, 3),
{
    reveal_with_fuel(iter_rot, 15);
    lemma_move_rot_table();
    reveal(swap_seq_for);
    let msl: Seq<Move> = seq![Move::U3, Move::F3, Move::L3, Move::F1, Move::L1, Move::U1, Move::F3, Move::L3, Move::F1, Move::L1, Move::U3];
    assert(swap_seq_for(7, 3) =~= msl);
    assert(iter_rot(msl, 11, 0) == 0);
    assert(iter_rot(msl, 11, 1) == 1);
    assert(iter_rot(msl, 11, 2) == 2);
    assert(iter_rot(msl, 11, 3) == 7);
    assert(iter_rot(msl, 11, 4) == 4);
    assert(iter_rot(msl, 11, 5) == 5);
    assert(iter_rot(msl, 11, 6) == 6);
    assert(iter_rot(msl, 11, 7) == 3);
    assert forall|k: int| 0 <= k < 8 implies #[trigger] pos_net(swap_seq_for(7, 3))[k] == transposed(7, 3)[k] by {
        lemma_pos_run_pointwise(msl, id_perm(), 11, k);
        if k == 0 {
            assert(id_perm()[0] == 0u8);
            assert(pos_net(swap_seq_for(7, 3))[0] == 0u8);
        } else if k == 1 {
            assert(id_perm()[1] == 1u8);
            assert(pos_net(swap_seq_for(7, 3))[1] == 1u8);
        } else if k == 2 {
            assert(id_perm()[2] == 2u8);
            assert(pos_net(swap_seq_for(7, 3))[2] == 2u8);
        } else if k == 3 {
            assert(id_perm()[3] == 3u8);
            assert(pos_net(swap_seq_for(7, 3))[3] == 7u8);
        } else if k == 4 {
            assert(id_perm()[4] == 4u8);
            assert(pos_net(swap_seq_for(7, 3))[4] == 4u8);
        } else if k == 5 {
            assert(id_perm()[5] == 5u8);
            assert(pos_net(swap_seq_for(7, 3))[5] == 5u8);
        } else if k == 6 {
            assert(id_perm()[6] == 6u8);
            assert(pos_net(swap_seq_for(7, 3))[6] == 6u8);
        } else if k == 7 {
            assert(id_perm()[7] == 7u8);
            assert(pos_net(swap_seq_for(7, 3))[7] == 3u8);
        }
    }
    lemma_pos_run_pointwise(msl, id_perm(), 11, 0);
    assert(pos_net(swap_seq_for(7, 3)) =~= transposed(7, 3));
}

proof fn swap_pair_7_4()
    ensures
        swap_pair_ok(7, 4),
{
    reveal_with_fuel(iter_rot, 15);
    lemma_move_rot_table();
    reveal(swap_seq_for);
    let msl: Seq<Move> = seq![Move::L1, Move::F1, Move::L1, Move::D1, Move::L3, Move::D3, Move::F3, Move::L1, Move::D1, Move::L3, Move::D3, Move::F1, Move::L3];
    assert(swap_seq_for(7, 4) =~= msl);
    assert(iter_rot(msl, 13, 0) == 0);
    assert(iter_rot(msl, 13, 1) == 1);
    assert(iter_rot(msl, 13, 2) == 2);
    assert(iter_rot(msl, 13, 3) == 3);
    assert(iter_rot(msl, 13, 4) == 7);
    assert(iter_rot(msl, 13, 5) == 5);
    assert(iter_rot(msl, 13, 6) == 6);
    assert(iter_rot(msl, 13, 7) == 4);
    assert forall|k: int| 0 <= k < 8 implies #[trigger] pos_net(swap_seq_for(7, 4))[k] == transposed(7, 4)[k] by {
        lemma_pos_run_pointwise(msl, id_perm(), 13, k);
        if k == 0 {
            assert(id_perm()[0] == 0u8);
            assert(pos_net(swap_seq_for(7, 4))[0] == 0u8);
        } else if k == 1 {
            assert(id_perm()[1] == 1u8);
            assert(pos_net(swap_seq_for(7, 4))[1] == 1u8);
        } else if k == 2 {
            assert(id_perm()[2] == 2u8);
            assert(pos_net(swap_seq_for(7, 4))[2] == 2u8);
        } else if k == 3 {
            assert(id_perm()[3] == 3u8);
            assert(pos_net(swap_seq_for(7, 4))[3] == 3u8);
        } else if k == 4 {
            assert(id_perm()[4] == 4u8);
            assert(pos_net(swap_seq_for(7, 4))[4] == 7u8);
        } else if k == 5 {
            assert(id_perm()[5] == 5u8);
            assert(pos_net(swap_seq_for(7, 4))[5] == 5u8);
        } else if k == 6 {
            assert(id_perm()[6] == 6u8);
            assert(pos_net(swap_seq_for(7, 4))[6] == 6u8);
        } else if k == 7 {
            assert(id_perm()[7] == 7u8);
            assert(pos_net(swap_seq_for(7, 4))[7] == 4u8);
        }
    }
    lemma_pos_run_pointwise(msl, id_perm(), 13, 0);
    assert(pos_net(swap_seq_for(7, 4)) =~= transposed(7, 4));
}

proof fn swap_pair_7_5()
    ensures
        swap_pair_ok(7, 5),
{
    reveal_with_fuel(iter_rot, 15);
    lemma_move_rot_table();
    reveal(swap_seq_for);
    let msl: Seq<Move> = seq![Move::R3, Move::U3, Move::B3, Move::U1, Move::B1, Move::R1, Move::U3, Move::B3, Move::U1, Move::B1, Move::R3];
    assert(swap_seq_for(7, 5) =~= msl);
    assert(iter_rot(msl, 11, 0) == 0);
    assert(iter_rot(msl, 11, 1) == 1);
    assert(iter_rot(msl, 11, 2) == 2);
    assert(iter_rot(msl, 11, 3) == 3);
    assert(iter_rot(msl, 11, 4) == 4);
    assert(iter_rot(msl, 11, 5) == 7);
    assert(iter_rot(msl, 11, 6) == 6);
    assert(iter_rot(msl, 11, 7) == 5);
    assert forall|k: int| 0 <= k < 8 implies #[trigger] pos_net(swap_seq_for(7, 5))[k] == transposed(7, 5)[k] by {
        lemma_pos_run_pointwise(msl, id_perm(), 11, k);
        if k == 0 {
            assert(id_perm()[0] == 0u8);
            assert(pos_net(swap_seq_for(7, 5))[0] == 0u8);
        } else if k == 1 {
            assert(id_perm()[1] == 1u8);
            assert(pos_net(swap_seq_for(7, 5))[1] == 1u8);
        } else if k == 2 {
            assert(id_perm()[2] == 2u8);
            assert(pos_net(swap_seq_for(7, 5))[2] == 2u8);
        } else if k == 3 {
            assert(id_perm()[3] == 3u8);
            assert(pos_net(swap_seq_for(7, 5))[3] == 3u8);
        } else if k == 4 {
            assert(id_perm()[4] == 4u8);
            assert(pos_net(swap_seq_for(7, 5))[4] == 4u8);
        } else if k == 5 {
            assert(id_perm()[5] == 5u8);
            assert(pos_net(swap_seq_for(7, 5))[5] == 7u8);
        } else if k == 6 {
            assert(id_perm()[6] == 6u8);
            assert(pos_net(swap_seq_for(7, 5))[6] == 6u8);
        } else if k == 7 {
            assert(id_perm()[7] == 7u8);
            assert(pos_net(swap_seq_for(7, 5))[7] == 5u8);
        }
    }
    lemma_pos_run_pointwise(msl, id_perm(), 11, 0);
    assert(pos_net(swap_seq_for(7, 5)) =~= transposed(7, 5));
}

proof fn swap_pair_7_6()
    ensures
        swap_pair_ok(7, 6),
{
    reveal_with_fuel(iter_rot, 15);
    lemma_move_rot_table();
    reveal(swap_seq_for);
    let msl: Seq<Move> = seq![Move::F3, Move::R3, Move::D3, Move::R1, Move::D1, Move::F1, Move::R3, Move::D3, Move::R1, Move::D1, Move::F3];
    assert(swap_seq_for(7, 6) =~= msl);
    assert(iter_rot(msl, 11, 0) == 0);
    assert(iter_rot(msl, 11, 1) == 1);
    assert(iter_rot(msl, 11, 2) == 2);
    assert(iter_rot(msl, 11, 3) == 3);
    assert(iter_rot(msl, 11, 4) == 4);
    assert(iter_rot(msl, 11, 5) == 5);
    assert(iter_rot(msl, 11, 6) == 7);
    assert(iter_rot(msl, 11, 7) == 6);
    assert forall|k: int| 0 <= k < 8 implies #[trigger] pos_net(swap_seq_for(7, 6))[k] == transposed(7, 6)[k] by {
        lemma_pos_run_pointwise(msl, id_perm(), 11, k);
        if k == 0 {
            assert(id_perm()[0] == 0u8);
            assert(pos_net(swap_seq_for(7, 6))[0] == 0u8);
        } else if k == 1 {
            assert(id_perm()[1] == 1u8);
            assert(pos_net(swap_seq_for(7, 6))[1] == 1u8);
        } else if k == 2 {
            assert(id_perm()[2] == 2u8);
            assert(pos_net(swap_seq_for(7, 6))[2] == 2u8);
        } else if k == 3 {
            assert(id_perm()[3] == 3u8);
            assert(pos_net(swap_seq_for(7, 6))[3] == 3u8);
        } else if k == 4 {
            assert(id_perm()[4] == 4u8);
            assert(pos_net(swap_seq_for(7, 6))[4] == 4u8);
        } else if k == 5 {
            assert(id_perm()[5] == 5u8);
            assert(pos_net(swap_seq_for(7, 6))[5] == 5u8);
        } else if k == 6 {
            assert(id_perm()[6] == 6u8);
            assert(pos_net(swap_seq_for(7, 6))[6] == 7u8);
        } else if k == 7 {
            assert(id_perm()[7] == 7u8);
            assert(pos_net(swap_seq_for(7, 6))[7] == 6u8);
        }
    }
    lemma_pos_run_pointwise(msl, id_perm(), 11, 0);
    assert(pos_net(swap_seq_for(7, 6)) =~= transposed(7, 6));
}

/// For every pair of distinct corners, the swap macro selected by the
/// number of differing axis bits performs exactly the transposition of the
/// pair on the position vector: it swaps the corners i and j and leaves
/// the other six corners in place.
pub proof fn lemma_swap_macro(i: int, j: int)
    requires
        0 <= i < 8,
        0 <= j < 8,
        i != j,
    ensures
        swap_pair_ok(i, j),
{
    if i == 0 && j == 1 {
        swap_pair_0_1();
    } else if i == 0 && j == 2 {
        swap_pair_0_2();
    } else if i == 0 && j == 3 {
        swap_pair_0_3();
    } else if i == 0 && j == 4 {
        swap_pair_0_4();
    } else if i == 0 && j == 5 {
        swap_pair_0_5();
    } else if i == 0 && j == 6 {
        swap_pair_0_6();
    } else if i == 0 && j == 7 {
        swap_pair_0_7();
    } else if i == 1 && j == 0 {
        swap_pair_1_0();
    } else if i == 1 && j == 2 {
        swap_pair_1_2();
    } else if i == 1 && j == 3 {
        swap_pair_1_3();
    } else if i == 1 && j == 4 {
        swap_pair_1_4();
    } else if i == 1 && j == 5 {
        swap_pair_1_5();
    } else if i == 1 && j == 6 {
        swap_pair_1_6();
    } else if i == 1 && j == 7 {
        swap_pair_1_7();
    } else if i == 2 && j == 0 {
        swap_pair_2_0();
    } else if i == 2 && j == 1 {
        swap_pair_2_1();
    } else if i == 2 && j == 3 {
        swap_pair_2_3();
    } else if i == 2 && j == 4 {
        swap_pair_2_4();
    } else if i == 2 && j == 5 {
        swap_pair_2_5();
    } else if i == 2 && j == 6 {
        swap_pair_2_6();
    } else if i == 2 && j == 7 {
        swap_pair_2_7();
    } else if i == 3 && j == 0 {
        swap_pair_3_0();
    } else if i == 3 && j == 1 {
        swap_pair_3_1();
    } else if i == 3 && j == 2 {
        swap_pair_3_2();
    } else if i == 3 && j == 4 {
        swap_pair_3_4();
    } else if i == 3 && j == 5 {
        swap_pair_3_5();
    } else if i == 3 && j == 6 {
        swap_pair_3_6();
    } else if i == 3 && j == 7 {
        swap_pair_3_7();
    } else if i == 4 && j == 0 {
        swap_pair_4_0();
    } else if i == 4 && j == 1 {
        swap_pair_4_1();
    } else if i == 4 && j == 2 {
        swap_pair_4_2();
    } else if i == 4 && j == 3 {
        swap_pair_4_3();
    } else if i == 4 && j == 5 {
        swap_pair_4_5();
    } else if i == 4 && j == 6 {
        swap_pair_4_6();
    } else if i == 4 && j == 7 {
        swap_pair_4_7();
    } else if i == 5 && j == 0 {
        swap_pair_5_0();
    } else if i == 5 && j == 1 {
        swap_pair_5_1();
    } else if i == 5 && j == 2 {
        swap_pair_5_2();
    } else if i == 5 && j == 3 {
        swap_pair_5_3();
    } else if i == 5 && j == 4 {
        swap_pair_5_4();
    } else if i == 5 && j == 6 {
        swap_pair_5_6();
    } else if i == 5 && j == 7 {
        swap_pair_5_7();
    } else if i == 6 && j == 0 {
        swap_pair_6_0();
    } else if i == 6 && j == 1 {
        swap_pair_6_1();
    } else if i == 6 && j == 2 {
        swap_pair_6_2();
    } else if i == 6 && j == 3 {
        swap_pair_6_3();
    } else if i == 6 && j == 4 {
        swap_pair_6_4();
    } else if i == 6 && j == 5 {
        swap_pair_6_5();
    } else if i == 6 && j == 7 {
        swap_pair_6_7();
    } else if i == 7 && j == 0 {
        swap_pair_7_0();
    } else if i == 7 && j == 1 {
        swap_pair_7_1();
    } else if i == 7 && j == 2 {
        swap_pair_7_2();
    } else if i == 7 && j == 3 {
        swap_pair_7_3();
    } else if i == 7 && j == 4 {
        swap_pair_7_4();
    } else if i == 7 && j == 5 {
        swap_pair_7_5();
    } else if i == 7 && j == 6 {
        swap_pair_7_6();
    } else {
        assert(false);
    }
}

} // verus!
