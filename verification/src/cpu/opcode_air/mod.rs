//! The constraints of the opcode-specific table.
//!
//! The table receives the rows that the CPU table hands over and checks
//! what depends on the class of the instruction: the address and value of a
//! load or store, the outcome of a branch, the target and link of a jump,
//! the sum of AUIPC, and the system calls that the CPU treats itself. It
//! alone says what `next_pc` is.

pub mod auipc;
pub mod branch;
pub mod ecall;
pub mod ecall_laws;
pub mod jump;
pub mod laws;
pub mod memory;
pub mod memory_laws;

use crate::air_builder::{dispatch_values_of, local_message, DispatchVars};
use crate::builder::{eq_when, ConstraintBuilder};
use crate::cpu::opcode_air::auipc::{auipc_constraints, auipc_message};
use crate::cpu::opcode_air::branch::{branch_constraints, branch_messages};
use crate::cpu::opcode_air::ecall::{
    commit_constraints, ecall_constraints, halt_constraints, halt_syscall,
    halt_syscall_constraints, syscall_message,
};
use crate::cpu::opcode_air::jump::{jump_constraints, jump_messages};
use crate::cpu::opcode_air::memory::{
    memory_address_constraints, memory_address_messages, memory_load_constraints,
    memory_load_message, memory_store_constraints,
};
use crate::cpu::opcode_cols::{CpuOpcodeSpecificCols, NUM_CPU_OPCODE_SPECIFIC_COLS};
use crate::expr::{Expr, Var, Window};
use crate::field::{fadd, fmul, fsub};
use crate::interaction::{InteractionKind, Message};
use crate::public_values::PublicValues;
use crate::word::Word;
use vstd::prelude::*;

verus! {

/// The opcode-specific table.
#[derive(Clone, Copy, Debug, Default)]
pub struct CpuOpcodeSpecificChip;

/// The scalar columns of the tuple that the table receives for a row.
pub open spec fn received_vars(local: CpuOpcodeSpecificCols<Var>) -> DispatchVars {
    DispatchVars {
        clk: local.clk,
        shard: local.shard,
        channel: local.channel,
        pc: local.pc,
        next_pc: local.next_pc,
        op_a_0: local.op_a_0,
        is_halt: local.is_halt,
    }
}

/// The message with which a real row receives what the CPU table handed
/// over.
pub open spec fn receive_message(local: CpuOpcodeSpecificCols<Var>, w: Window) -> Message {
    local_message(
        InteractionKind::Instruction,
        false,
        dispatch_values_of(
            received_vars(local),
            local.selectors,
            local.op_a_prev_val,
            local.op_a_val,
            local.op_b_val,
            local.op_c_val,
            w,
        ),
        w.var(local.is_real),
    )
}

/// One on a row that is neither a branch, nor a jump, nor a halt.
pub open spec fn is_sequential(local: CpuOpcodeSpecificCols<Var>, w: Window) -> int {
    fsub(
        1,
        fadd(
            fadd(
                fadd(local.selectors.branch(w), w.var(local.selectors.is_jal)),
                w.var(local.selectors.is_jalr),
            ),
            w.var(local.is_halt),
        ),
    )
}

/// The constraints on the `is_halt` column and on the next pc of the rows
/// that are no branch, jump or halt.
///
/// `is_halt` is one exactly on a system call that is HALT. A real row that
/// is neither a branch, nor a jump, nor a halt ends at `pc + 4`.
pub open spec fn sequence_constraints(local: CpuOpcodeSpecificCols<Var>, w: Window) -> bool {
    &&& halt_syscall_constraints(local, w)
    &&& fsub(halt_syscall(local, w), w.var(local.is_halt)) == 0
    &&& eq_when(
        fmul(w.var(local.is_real), is_sequential(local, w)),
        fadd(w.var(local.pc), 4),
        w.var(local.next_pc),
    )
}

/// The constraints of loads and stores.
pub open spec fn memory_constraints(local: CpuOpcodeSpecificCols<Var>, w: Window) -> bool {
    &&& memory_address_constraints(local, local.selectors.memory(w), w)
    &&& memory_load_constraints(local, w)
    &&& memory_store_constraints(local, w)
}

/// The constraints of the system calls.
pub open spec fn syscall_constraints(
    local: CpuOpcodeSpecificCols<Var>,
    public_values: PublicValues<Word<Var>, Var>,
    w: Window,
) -> bool {
    &&& ecall_constraints(local, w)
    &&& commit_constraints(
        local,
        public_values.committed_value_digest,
        public_values.deferred_proofs_digest,
        w,
    )
    &&& halt_constraints(local, w)
}

/// All constraints of the opcode-specific table.
pub open spec fn opcode_specific_constraints(
    local: CpuOpcodeSpecificCols<Var>,
    public_values: PublicValues<Word<Var>, Var>,
    w: Window,
) -> bool {
    &&& memory_constraints(local, w)
    &&& branch_constraints(local, local.selectors.branch(w), w)
    &&& jump_constraints(local, w)
    &&& auipc_constraints(local, w)
    &&& syscall_constraints(local, public_values, w)
    &&& sequence_constraints(local, w)
}

/// The messages of loads and stores.
pub open spec fn memory_messages(local: CpuOpcodeSpecificCols<Var>, w: Window) -> Seq<Message> {
    memory_address_messages(local, local.selectors.memory(w), w).push(
        memory_load_message(local, w),
    )
}

/// All messages of a row of the opcode-specific table, in the order in
/// which the table states them.
pub open spec fn opcode_specific_messages(local: CpuOpcodeSpecificCols<Var>, w: Window) -> Seq<
    Message,
> {
    seq![receive_message(local, w)] + memory_messages(local, w) + branch_messages(
        local,
        local.selectors.branch(w),
        w,
    ) + jump_messages(local, w) + seq![auipc_message(local, w), syscall_message(local, w)]
}

impl CpuOpcodeSpecificChip {
    /// The number of columns of the table.
    pub fn width(&self) -> (r: usize)
        ensures
            r == NUM_CPU_OPCODE_SPECIFIC_COLS,
    {
        NUM_CPU_OPCODE_SPECIFIC_COLS
    }

    /// Receives what the CPU table handed over for the row.
    fn eval_receive(&self, builder: &mut ConstraintBuilder, local: &CpuOpcodeSpecificCols<Var>)
        ensures
            final(builder).constraints@ == old(builder).constraints@,
            final(builder).interactions@.len() == old(builder).interactions@.len() + 1,
            forall|w: Window| #[trigger]
                final(builder).messages(w) == old(builder).messages(w).push(
                    receive_message(*local, w),
                ),
    {
        let scalars = DispatchVars {
            clk: local.clk,
            shard: local.shard,
            channel: local.channel,
            pc: local.pc,
            next_pc: local.next_pc,
            op_a_0: local.op_a_0,
            is_halt: local.is_halt,
        };
        builder.receive_instruction(
            &scalars,
            &local.selectors,
            &local.op_a_prev_val,
            &local.op_a_val,
            &local.op_b_val,
            &local.op_c_val,
            Expr::var(local.is_real),
        );
    }

    /// States the constraints and interactions of loads and stores.
    #[verifier::rlimit(40)]
    fn eval_memory(&self, builder: &mut ConstraintBuilder, local: &CpuOpcodeSpecificCols<Var>)
        ensures
            final(builder).interactions@.len() == old(builder).interactions@.len() + 8,
            forall|w: Window| #[trigger]
                final(builder).holds(w) == (old(builder).holds(w) && memory_constraints(*local, w)),
            forall|w: Window| #[trigger]
                final(builder).messages(w) == old(builder).messages(w) + memory_messages(*local, w),
    {
        let is_memory_instruction = local.selectors.is_memory_instruction();
        self.eval_memory_address_and_access(builder, local, is_memory_instruction);
        self.eval_memory_load(builder, local);
        self.eval_memory_store(builder, local);
        assert forall|w: Window| #[trigger]
            builder.messages(w) == old(builder).messages(w) + memory_messages(*local, w) by {
            assert(builder.messages(w) =~= old(builder).messages(w) + memory_messages(*local, w));
        }
    }

    /// States the constraints and the interaction of the system calls.
    fn eval_syscalls(
        &self,
        builder: &mut ConstraintBuilder,
        local: &CpuOpcodeSpecificCols<Var>,
        public_values: &PublicValues<Word<Var>, Var>,
    )
        ensures
            final(builder).interactions@.len() == old(builder).interactions@.len() + 1,
            forall|w: Window| #[trigger]
                final(builder).holds(w) == (old(builder).holds(w) && syscall_constraints(
                    *local,
                    *public_values,
                    w,
                )),
            forall|w: Window| #[trigger]
                final(builder).messages(w) == old(builder).messages(w).push(
                    syscall_message(*local, w),
                ),
    {
        // System calls.
        self.eval_ecall(builder, local);

        // The two system calls that commit a word of a public digest.
        self.eval_commit(
            builder,
            local,
            &public_values.committed_value_digest,
            &public_values.deferred_proofs_digest,
        );

        // HALT.
        self.eval_halt(builder, local);
    }

    /// States what `is_halt` is, and that a row that is no branch, jump or
    /// halt ends at `pc + 4`.
    fn eval_sequence(&self, builder: &mut ConstraintBuilder, local: &CpuOpcodeSpecificCols<Var>)
        ensures
            final(builder).interactions@ == old(builder).interactions@,
            forall|w: Window| #[trigger]
                final(builder).holds(w) == (old(builder).holds(w) && sequence_constraints(
                    *local,
                    w,
                )),
    {
        let is_branch_instruction = local.selectors.is_branch_instruction();
        let is_halt = self.is_halt_syscall(builder, local);
        builder.assert_eq(is_halt, Expr::var(local.is_halt));
        let is_sequence_instr = Expr::one().minus(
            is_branch_instruction.plus(Expr::var(local.selectors.is_jal)).plus(
                Expr::var(local.selectors.is_jalr),
            ).plus(Expr::var(local.is_halt)),
        );
        builder.assert_eq_when(
            Expr::var(local.is_real).times(is_sequence_instr),
            Expr::var(local.pc).plus(Expr::constant(4)),
            Expr::var(local.next_pc),
        );
    }

    /// States the constraints and interactions of branches, jumps and AUIPC.
    #[verifier::rlimit(40)]
    fn eval_control_flow(&self, builder: &mut ConstraintBuilder, local: &CpuOpcodeSpecificCols<Var>)
        ensures
            final(builder).interactions@.len() == old(builder).interactions@.len() + 6,
            forall|w: Window| #[trigger]
                final(builder).holds(w) == (old(builder).holds(w) && branch_constraints(
                    *local,
                    local.selectors.branch(w),
                    w,
                ) && jump_constraints(*local, w) && auipc_constraints(*local, w)),
            forall|w: Window| #[trigger]
                final(builder).messages(w) == old(builder).messages(w) + branch_messages(
                    *local,
                    local.selectors.branch(w),
                    w,
                ) + jump_messages(*local, w) + seq![auipc_message(*local, w)],
    {
        let is_branch_instruction = local.selectors.is_branch_instruction();

        // Branches.
        self.eval_branch_ops(builder, is_branch_instruction, local);

        // Jumps.
        self.eval_jump_ops(builder, local);

        // AUIPC.
        self.eval_auipc(builder, local);
        assert forall|w: Window| #[trigger]
            builder.messages(w) == old(builder).messages(w) + branch_messages(
                *local,
                local.selectors.branch(w),
                w,
            ) + jump_messages(*local, w) + seq![auipc_message(*local, w)] by {
            assert(builder.messages(w) =~= old(builder).messages(w) + branch_messages(
                *local,
                local.selectors.branch(w),
                w,
            ) + jump_messages(*local, w) + seq![auipc_message(*local, w)]);
        }
    }

    /// States every constraint and every interaction of the opcode-specific
    /// table.
    ///
    /// The columns of the row are the first `NUM_CPU_OPCODE_SPECIFIC_COLS`
    /// columns of the window.
    #[verifier::rlimit(40)]
    pub fn eval(&self, builder: &mut ConstraintBuilder)
        ensures
            final(builder).interactions@.len() == old(builder).interactions@.len() + 16,
            forall|w: Window| #[trigger]
                final(builder).holds(w) == (old(builder).holds(w) && opcode_specific_constraints(
                    CpuOpcodeSpecificCols::<Var>::spec_at(false, 0),
                    PublicValues::<Word<Var>, Var>::spec_vars(),
                    w,
                )),
            forall|w: Window| #[trigger]
                final(builder).messages(w) == old(builder).messages(w) + opcode_specific_messages(
                    CpuOpcodeSpecificCols::<Var>::spec_at(false, 0),
                    w,
                ),
    {
        let local = CpuOpcodeSpecificCols::<Var>::at(false, 0);
        let public_values = PublicValues::<Word<Var>, Var>::vars();

        // What the CPU table handed over.
        self.eval_receive(builder, &local);

        // Loads and stores.
        self.eval_memory(builder, &local);

        // Branches, jumps and AUIPC.
        self.eval_control_flow(builder, &local);

        // System calls, among them the commits and HALT.
        self.eval_syscalls(builder, &local, &public_values);

        // The next pc of every other instruction.
        self.eval_sequence(builder, &local);

        assert forall|w: Window| #[trigger]
            builder.messages(w) == old(builder).messages(w) + opcode_specific_messages(local, w) by {
            assert(builder.messages(w) =~= old(builder).messages(w) + opcode_specific_messages(
                local,
                w,
            ));
        }
    }
}

} // verus!
