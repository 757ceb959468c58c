use sp1_air::expr::Var;
use sp1_air::public_values::{
    PublicValues, POSEIDON_NUM_WORDS, PV_DIGEST_NUM_WORDS, SP1_PROOF_NUM_PV_ELTS,
};
use sp1_air::word::Word;

#[test]
fn public_values_come_in_their_documented_order() {
    let pv = PublicValues::<u32, u32> {
        execution_shard: 3,
        start_pc: 0x1000,
        next_pc: 0x2000,
        committed_value_digest: [0x04030201, 1, 2, 3, 4, 5, 6, 0xffffffff],
        deferred_proofs_digest: [10, 11, 12, 13, 14, 15, 16, 17],
        exit_code: 9,
    };
    let v = pv.to_vec();
    assert_eq!(v.len(), SP1_PROOF_NUM_PV_ELTS);
    assert_eq!(SP1_PROOF_NUM_PV_ELTS, 3 + 4 * PV_DIGEST_NUM_WORDS + POSEIDON_NUM_WORDS + 1);
    assert_eq!(&v[0..3], &[3, 0x1000, 0x2000]);
    assert_eq!(&v[3..7], &[1, 2, 3, 4]);
    assert_eq!(&v[7..11], &[1, 0, 0, 0]);
    assert_eq!(&v[31..35], &[255, 255, 255, 255]);
    assert_eq!(&v[35..43], &[10, 11, 12, 13, 14, 15, 16, 17]);
    assert_eq!(v[43], 9);
}

#[test]
fn public_values_as_variables() {
    let vars = PublicValues::<Word<Var>, Var>::vars();
    assert_eq!(vars.execution_shard, Var::Public(0));
    assert_eq!(vars.start_pc, Var::Public(1));
    assert_eq!(vars.next_pc, Var::Public(2));
    assert_eq!(
        vars.committed_value_digest[0],
        Word([Var::Public(3), Var::Public(4), Var::Public(5), Var::Public(6)])
    );
    assert_eq!(
        vars.committed_value_digest[7],
        Word([Var::Public(31), Var::Public(32), Var::Public(33), Var::Public(34)])
    );
    assert_eq!(vars.deferred_proofs_digest[0], Var::Public(35));
    assert_eq!(vars.deferred_proofs_digest[7], Var::Public(42));
    assert_eq!(vars.exit_code, Var::Public(43));
}
