//! The public values of a shard proof.

use crate::expr::{all_canonical, Var};
use crate::word::Word;
use vstd::prelude::*;

verus! {

/// The number of words in the digest of the committed values.
pub const PV_DIGEST_NUM_WORDS: usize = 8;

/// The number of field elements in the digest of the deferred proofs.
pub const POSEIDON_NUM_WORDS: usize = 8;

/// The number of field elements that the public values take.
pub const SP1_PROOF_NUM_PV_ELTS: usize = 44;

/// The values that a shard proof shows to its verifier. Every row of the
/// shard's tables may read them; none may change them.
///
/// As a vector they come in the order of the fields: execution shard, start
/// pc, next pc, the limbs of the committed-value digest word by word, the
/// deferred-proofs digest, and the exit code.
#[derive(Clone, Copy, Debug, PartialEq, Eq)]
pub struct PublicValues<W, T> {
    /// The shard whose execution is proved.
    pub execution_shard: T,
    /// The program counter of the shard's first cycle.
    pub start_pc: T,
    /// The program counter after the shard's last cycle.
    pub next_pc: T,
    /// The digest of the values that the program committed to.
    pub committed_value_digest: [W; 8],
    /// The digest of the proofs whose verification the program deferred.
    pub deferred_proofs_digest: [T; 8],
    /// The exit code of the program.
    pub exit_code: T,
}

/// Entry `index` of the public values.
pub open spec fn public(index: int) -> Var {
    Var::Public(index as usize)
}

/// The four entries `base .. base + 4` of the public values as a word.
pub open spec fn public_word(base: int) -> Word<Var> {
    Word([public(base), public(base + 1), public(base + 2), public(base + 3)])
}

fn at_public_word(base: usize) -> (r: Word<Var>)
    requires
        base + 4 <= usize::MAX,
    ensures
        r == public_word(base as int),
{
    Word([Var::Public(base), Var::Public(base + 1), Var::Public(base + 2), Var::Public(base + 3)])
}

impl PublicValues<Word<Var>, Var> {
    /// The public values as variables of a constraint.
    pub open spec fn spec_vars() -> Self {
        PublicValues {
            execution_shard: public(0),
            start_pc: public(1),
            next_pc: public(2),
            committed_value_digest: [
                public_word(3),
                public_word(7),
                public_word(11),
                public_word(15),
                public_word(19),
                public_word(23),
                public_word(27),
                public_word(31),
            ],
            deferred_proofs_digest: [
                public(35),
                public(36),
                public(37),
                public(38),
                public(39),
                public(40),
                public(41),
                public(42),
            ],
            exit_code: public(43),
        }
    }

    /// The public values as variables of a constraint.
    pub fn vars() -> (r: Self)
        ensures
            r == Self::spec_vars(),
    {
        PublicValues {
            execution_shard: Var::Public(0),
            start_pc: Var::Public(1),
            next_pc: Var::Public(2),
            committed_value_digest: [
                at_public_word(3),
                at_public_word(7),
                at_public_word(11),
                at_public_word(15),
                at_public_word(19),
                at_public_word(23),
                at_public_word(27),
                at_public_word(31),
            ],
            deferred_proofs_digest: [
                Var::Public(35),
                Var::Public(36),
                Var::Public(37),
                Var::Public(38),
                Var::Public(39),
                Var::Public(40),
                Var::Public(41),
                Var::Public(42),
            ],
            exit_code: Var::Public(43),
        }
    }
}

impl PublicValues<u32, u32> {
    /// The public values as a vector of field elements, in the order of the
    /// fields. A digest word takes four entries, one per byte.
    pub open spec fn spec_to_vec(self) -> Seq<u32> {
        seq![self.execution_shard, self.start_pc, self.next_pc] + Seq::new(
            32,
            |i: int| crate::word::word_limbs(self.committed_value_digest[i / 4])[i % 4],
        ) + Seq::new(8, |i: int| self.deferred_proofs_digest[i]) + seq![self.exit_code]
    }

    /// The public values as a vector of field elements.
    pub fn to_vec(&self) -> (r: Vec<u32>)
        ensures
            r@ == self.spec_to_vec(),
            r@.len() == SP1_PROOF_NUM_PV_ELTS,
    {
        let mut out: Vec<u32> = Vec::new();
        out.push(self.execution_shard);
        out.push(self.start_pc);
        out.push(self.next_pc);
        let mut i: usize = 0;
        while i < 8
            invariant
                i <= 8,
                out@.len() == 3 + 4 * i,
                out@.subrange(0, 3) == seq![self.execution_shard, self.start_pc, self.next_pc],
                forall|k: int|
                    0 <= k < 4 * i ==> #[trigger] out@[3 + k] == crate::word::word_limbs(
                        self.committed_value_digest[k / 4],
                    )[k % 4],
            decreases 8 - i,
        {
            let word = Word::<u32>::from_u32(self.committed_value_digest[i]);
            let ghost before = out@;
            out.push(word.0[0]);
            out.push(word.0[1]);
            out.push(word.0[2]);
            out.push(word.0[3]);
            assert(out@.subrange(0, 3) =~= before.subrange(0, 3));
            assert forall|k: int| 0 <= k < 4 * (i + 1) implies #[trigger] out@[3 + k]
                == crate::word::word_limbs(self.committed_value_digest[k / 4])[k % 4] by {
                if k < 4 * i {
                    assert(out@[3 + k] == before[3 + k]);
                } else {
                    assert(k / 4 == i);
                    assert(word.0@[k % 4] == crate::word::word_limbs(
                        self.committed_value_digest[i as int],
                    )[k % 4]);
                }
            }
            i += 1;
        }
        let mut j: usize = 0;
        while j < 8
            invariant
                j <= 8,
                out@.len() == 35 + j,
                out@.subrange(0, 3) == seq![self.execution_shard, self.start_pc, self.next_pc],
                forall|k: int|
                    0 <= k < 32 ==> #[trigger] out@[3 + k] == crate::word::word_limbs(
                        self.committed_value_digest[k / 4],
                    )[k % 4],
                forall|k: int| 0 <= k < j ==> #[trigger] out@[35 + k] == self.deferred_proofs_digest[k],
            decreases 8 - j,
        {
            let ghost before = out@;
            out.push(self.deferred_proofs_digest[j]);
            assert(out@.subrange(0, 3) =~= before.subrange(0, 3));
            assert forall|k: int| 0 <= k < 32 implies #[trigger] out@[3 + k]
                == crate::word::word_limbs(self.committed_value_digest[k / 4])[k % 4] by {
                assert(out@[3 + k] == before[3 + k]);
            }
            assert forall|k: int| 0 <= k < j + 1 implies #[trigger] out@[35 + k]
                == self.deferred_proofs_digest[k] by {
                if k < j {
                    assert(out@[35 + k] == before[35 + k]);
                }
            }
            j += 1;
        }
        let ghost before = out@;
        out.push(self.exit_code);
        proof {
            let want = self.spec_to_vec();
            assert(out@.len() == want.len());
            assert forall|k: int| 0 <= k < out@.len() implies out@[k] == want[k] by {
                if k < 3 {
                    assert(out@[k] == before.subrange(0, 3)[k]);
                } else if k < 35 {
                    assert(out@[k] == before[3 + (k - 3)]);
                } else if k < 43 {
                    assert(out@[k] == before[35 + (k - 35)]);
                }
            }
            assert(out@ =~= want);
        }
        out
    }

    /// Whether the vector form holds canonical field elements only: the
    /// scalar entries and the entries of the deferred-proofs digest are
    /// canonical.
    pub open spec fn wf(self) -> bool {
        all_canonical(self.spec_to_vec())
    }
}

} // verus!
