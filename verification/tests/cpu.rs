use sp1_air::builder::ConstraintBuilder;
use sp1_air::bus::{is_balanced, unmatched};
use sp1_air::cpu::columns::{CpuCols, MemoryAccessCols, NUM_CHANNELS, NUM_CPU_COLS};
use sp1_air::cpu::CpuChip;
use sp1_air::expr::{RowWindow, Var};
use sp1_air::field::MODULUS;
use sp1_air::interaction::{BusMessage, InteractionKind, InteractionScope};
use sp1_air::opcode::Opcode;
use sp1_air::program::{Instruction, Program};
use sp1_air::public_values::PublicValues;
use sp1_air::word::Word;

fn index_of(v: Var) -> usize {
    match v {
        Var::Local(i) | Var::Next(i) | Var::Public(i) => i,
        _ => panic!("not a cell"),
    }
}

fn put(row: &mut Vec<u32>, v: Var, x: u32) {
    row[index_of(v)] = x;
}

fn put_word(row: &mut Vec<u32>, word: Word<Var>, x: u32) {
    for (i, b) in x.to_le_bytes().iter().enumerate() {
        row[index_of(word.0[i])] = *b as u32;
    }
}

/// An access at time (`shard`, `clk`) to a cell that was last accessed at
/// time (`prev_shard`, `prev_clk`).
fn put_access(
    row: &mut Vec<u32>,
    access: MemoryAccessCols<Var>,
    value: u32,
    shard: u32,
    clk: u32,
    prev_shard: u32,
    prev_clk: u32,
) {
    put_word(row, access.value, value);
    put(row, access.prev_shard, prev_shard);
    put(row, access.prev_clk, prev_clk);
    let same_shard = shard == prev_shard;
    put(row, access.compare_clk, same_shard as u32);
    let diff_minus_one = if same_shard { clk - prev_clk - 1 } else { shard - prev_shard - 1 };
    put(row, access.diff_16bit_limb, diff_minus_one & 0xffff);
    put(row, access.diff_8bit_limb, diff_minus_one >> 16);
}

fn padding_row() -> Vec<u32> {
    let cols = CpuCols::<Var>::at(false, 0);
    let mut row = vec![0; NUM_CPU_COLS];
    put(&mut row, cols.selectors.imm_b, 1);
    put(&mut row, cols.selectors.imm_c, 1);
    row
}

struct Cycle {
    shard: u32,
    clk: u32,
    index: usize,
    pc: u32,
    next_pc: u32,
    opcode: Opcode,
    /// The registers of the three operands.
    registers: [u32; 3],
    /// The value of the first operand before and after the cycle.
    a: (u32, u32),
    b: u32,
    c: u32,
    /// The time of the previous access to each of the three registers.
    previous: [(u32, u32); 3],
}

/// The row of a cycle that executes an instruction on three registers.
fn cycle_row(cycle: &Cycle) -> Vec<u32> {
    let cols = CpuCols::<Var>::at(false, 0);
    let mut row = vec![0; NUM_CPU_COLS];
    put(&mut row, cols.shard, cycle.shard);
    put(&mut row, cols.channel, (cycle.index % NUM_CHANNELS) as u32);
    put(&mut row, cols.clk, cycle.clk);
    put(&mut row, cols.clk_16bit_limb, cycle.clk & 0xffff);
    put(&mut row, cols.clk_8bit_limb, cycle.clk >> 16);
    put(&mut row, cols.pc, cycle.pc);
    put(&mut row, cols.next_pc, cycle.next_pc);
    put(&mut row, cols.instruction.opcode, cycle.opcode.code());
    put(&mut row, cols.instruction.op_a, cycle.registers[0]);
    put_word(&mut row, cols.instruction.op_b, cycle.registers[1]);
    put_word(&mut row, cols.instruction.op_c, cycle.registers[2]);
    put(&mut row, cols.instruction.op_a_0, (cycle.registers[0] == 0) as u32);
    put(&mut row, cols.channel_selectors.channel_selectors[cycle.index % NUM_CHANNELS], 1);
    put_word(&mut row, cols.op_a_access.prev_value, cycle.a.0);
    put_access(
        &mut row,
        cols.op_a_access.access,
        cycle.a.1,
        cycle.shard,
        cycle.clk + 3,
        cycle.previous[0].0,
        cycle.previous[0].1,
    );
    put_access(
        &mut row,
        cols.op_b_access.access,
        cycle.b,
        cycle.shard,
        cycle.clk + 2,
        cycle.previous[1].0,
        cycle.previous[1].1,
    );
    put_access(
        &mut row,
        cols.op_c_access.access,
        cycle.c,
        cycle.shard,
        cycle.clk + 1,
        cycle.previous[2].0,
        cycle.previous[2].1,
    );
    put(&mut row, cols.is_real, 1);
    row
}

/// The single ADD instruction `x5 = x6 + x7` at pc 0, with 3 in `x6` and 4
/// in `x7`, as the first cycle of shard 1.
fn add_cycle() -> Cycle {
    Cycle {
        shard: 1,
        clk: 0,
        index: 0,
        pc: 0,
        next_pc: 4,
        opcode: Opcode::ADD,
        registers: [5, 6, 7],
        a: (0, 7),
        b: 3,
        c: 4,
        previous: [(0, 0), (0, 0), (0, 0)],
    }
}

fn add_row() -> Vec<u32> {
    let cols = CpuCols::<Var>::at(false, 0);
    let mut row = cycle_row(&add_cycle());
    put(&mut row, cols.selectors.is_alu, 1);
    row
}

/// A HALT system call at pc 8 with exit code 3 in its second operand.
fn halt_row(index: usize, clk: u32) -> Vec<u32> {
    let cols = CpuCols::<Var>::at(false, 0);
    let mut row = cycle_row(&Cycle {
        shard: 1,
        clk,
        index,
        pc: 8,
        next_pc: 0,
        opcode: Opcode::ECALL,
        registers: [5, 10, 11],
        a: (0, 0),
        b: 3,
        c: 0,
        previous: [(0, 0), (0, 0), (0, 0)],
    });
    put(&mut row, cols.selectors.is_ecall, 1);
    put(&mut row, cols.is_halt, 1);
    row
}

fn public_values(start_pc: u32, next_pc: u32, exit_code: u32) -> Vec<u32> {
    PublicValues::<u32, u32> {
        execution_shard: 1,
        start_pc,
        next_pc,
        committed_value_digest: [0; 8],
        deferred_proofs_digest: [0; 8],
        exit_code,
    }
    .to_vec()
}

fn window(local: Vec<u32>, next: Vec<u32>, public_values: Vec<u32>, first: bool, last: bool) -> RowWindow {
    RowWindow {
        local,
        next,
        public_values,
        is_first_row: first,
        is_last_row: last,
        is_transition: !last,
    }
}

fn cpu_builder() -> ConstraintBuilder {
    let mut builder = ConstraintBuilder::new();
    CpuChip.eval(&mut builder);
    builder
}

fn of_kind(messages: &[BusMessage], kind: InteractionKind) -> Vec<BusMessage> {
    messages.iter().filter(|m| m.kind == kind).cloned().collect()
}

#[test]
fn the_cpu_table_has_ninety_columns() {
    assert_eq!(CpuChip.width(), 90);
    assert_eq!(NUM_CPU_COLS, 90);
    let cols = CpuCols::<Var>::at(false, 0);
    assert_eq!(cols.shard, Var::Local(0));
    assert_eq!(cols.is_real, Var::Local(89));
    let next = CpuCols::<Var>::at(true, 0);
    assert_eq!(next.pc, Var::Next(6));
    assert_eq!(next.is_halt, Var::Next(88));
    let builder = cpu_builder();
    assert_eq!(builder.interactions.len(), 20);
}

#[test]
fn a_single_add_satisfies_the_constraints() {
    let builder = cpu_builder();
    let w = window(add_row(), padding_row(), public_values(0, 4, 0), true, false);
    assert!(w.is_well_formed());
    assert!(builder.check(&w));
    // As the last row of the table, too.
    let last = window(add_row(), add_row(), public_values(0, 4, 0), true, true);
    assert!(builder.check(&last));
}

#[test]
fn a_single_add_sends_its_operands_to_the_alu() {
    let builder = cpu_builder();
    let w = window(add_row(), padding_row(), public_values(0, 4, 0), true, false);
    let messages = builder.emit(&w);
    assert_eq!(messages.len(), 20);
    let alu = of_kind(&messages, InteractionKind::Alu);
    assert_eq!(alu.len(), 1);
    // (ADD, 7, 3, 4, shard, channel, nonce), the words byte by byte.
    assert_eq!(alu[0].values, vec![0, 7, 0, 0, 0, 3, 0, 0, 0, 4, 0, 0, 0, 1, 0, 0]);
    assert_eq!(alu[0].multiplicity, 1);
    assert!(alu[0].is_send);
    assert_eq!(alu[0].scope, InteractionScope::Local);
    // An ALU instruction is not handed to the opcode-specific table.
    let dispatch = of_kind(&messages, InteractionKind::Instruction);
    assert_eq!(dispatch.len(), 1);
    assert_eq!(dispatch[0].multiplicity, 0);

    // The ALU table receives the sum that it computed itself. The bus
    // balances if and only if the row holds that sum.
    let sum = 3 + 4;
    let received = BusMessage {
        kind: InteractionKind::Alu,
        scope: InteractionScope::Local,
        is_send: false,
        values: vec![Opcode::ADD.code(), sum, 0, 0, 0, 3, 0, 0, 0, 4, 0, 0, 0, 1, 0, 0],
        multiplicity: 1,
    };
    assert!(is_balanced(&vec![alu[0].clone(), received.clone()]));

    let cols = CpuCols::<Var>::at(false, 0);
    let mut wrong = add_row();
    put_word(&mut wrong, cols.op_a_access.access.value, 8);
    let w = window(wrong, padding_row(), public_values(0, 4, 0), true, false);
    let alu = of_kind(&builder.emit(&w), InteractionKind::Alu);
    assert_eq!(alu[0].values[1], 8);
    let open = unmatched(&vec![alu[0].clone(), received]);
    assert_eq!(open.len(), 2);
}

#[test]
fn a_single_add_ends_at_the_public_next_pc() {
    let builder = cpu_builder();
    assert!(builder.check(&window(add_row(), padding_row(), public_values(0, 4, 0), true, false)));
    assert!(!builder.check(&window(add_row(), padding_row(), public_values(0, 8, 0), true, false)));
    assert!(!builder.check(&window(add_row(), padding_row(), public_values(4, 4, 0), true, false)));
    let cols = CpuCols::<Var>::at(false, 0);
    let mut elsewhere = add_row();
    put(&mut elsewhere, cols.next_pc, 8);
    assert!(!builder.check(&window(elsewhere, padding_row(), public_values(0, 4, 0), true, false)));
    // The shard is public as well.
    let mut other_shard = public_values(0, 4, 0);
    other_shard[0] = 2;
    assert!(!builder.check(&window(add_row(), padding_row(), other_shard, true, false)));
}

#[test]
fn the_fetch_of_the_add_has_a_match_in_the_program() {
    let program = Program {
        instructions: vec![Instruction {
            opcode: Opcode::ADD,
            op_a: 5,
            op_b: 6,
            op_c: 7,
            imm_b: false,
            imm_c: false,
        }],
        pc_start: 0,
        pc_base: 0,
    };
    let builder = cpu_builder();
    let w = window(add_row(), padding_row(), public_values(0, 4, 0), true, false);
    let fetch = of_kind(&builder.emit(&w), InteractionKind::Program);
    assert_eq!(fetch.len(), 1);
    assert_eq!(fetch[0].multiplicity, 1);
    assert_eq!(fetch[0].values.len(), 35);
    assert!(program.fetch(&fetch[0].values));

    // Any change to a byte of the instruction in the row: no match.
    let cols = CpuCols::<Var>::at(false, 0);
    for v in [
        cols.instruction.opcode,
        cols.instruction.op_a,
        cols.instruction.op_b.0[0],
        cols.instruction.op_b.0[3],
        cols.instruction.op_c.0[0],
        cols.instruction.op_c.0[2],
        cols.instruction.op_a_0,
        cols.selectors.imm_b,
        cols.selectors.is_alu,
        cols.selectors.is_jal,
        cols.pc,
    ] {
        let mut tampered = add_row();
        tampered[index_of(v)] ^= 1;
        let w = window(tampered, padding_row(), public_values(0, 4, 0), true, false);
        let fetch = of_kind(&builder.emit(&w), InteractionKind::Program);
        assert!(!program.fetch(&fetch[0].values), "{:?}", v);
    }
}

#[test]
fn a_padding_row_satisfies_the_constraints_and_sends_nothing() {
    let builder = cpu_builder();
    let w = window(padding_row(), padding_row(), public_values(0, 4, 0), false, false);
    assert!(builder.check(&w));
    for m in builder.emit(&w) {
        assert_eq!(m.multiplicity, 0, "{:?}", m);
    }
}

#[test]
fn a_padding_row_has_all_selectors_zero_but_the_immediate_flags() {
    let builder = cpu_builder();
    let cols = CpuCols::<Var>::at(false, 0);
    let selectors = cols.selectors.to_array();
    for (i, selector) in selectors.iter().enumerate() {
        let mut row = padding_row();
        row[index_of(*selector)] ^= 1;
        let w = window(row, padding_row(), public_values(0, 4, 0), false, false);
        assert!(!builder.check(&w), "selector {}", i);
    }
}

#[test]
fn a_padding_row_has_no_real_successor() {
    let builder = cpu_builder();
    let mut second = add_row();
    let cols = CpuCols::<Var>::at(false, 0);
    put(&mut second, cols.clk, 4);
    put(&mut second, cols.clk_16bit_limb, 4);
    let w = window(padding_row(), second, public_values(0, 4, 0), false, false);
    assert!(!builder.check(&w));
}

#[test]
fn the_first_row_is_real_and_starts_at_clock_zero() {
    let builder = cpu_builder();
    assert!(!builder.check(&window(padding_row(), padding_row(), public_values(0, 4, 0), true, false)));
    let late = Cycle { clk: 4, ..add_cycle() };
    let cols = CpuCols::<Var>::at(false, 0);
    let mut row = cycle_row(&late);
    put(&mut row, cols.selectors.is_alu, 1);
    assert!(!builder.check(&window(row.clone(), padding_row(), public_values(0, 4, 0), true, false)));
    // Not on the first row: fine.
    let second = Cycle { clk: 4, index: 1, ..add_cycle() };
    let mut row = cycle_row(&second);
    put(&mut row, cols.selectors.is_alu, 1);
    assert!(builder.check(&window(row, padding_row(), public_values(0, 4, 0), false, false)));
}

/// Two additions and two padding rows.
fn two_cycle_trace() -> Vec<u32> {
    let cols = CpuCols::<Var>::at(false, 0);
    let mut first = add_row();
    put(&mut first, cols.nonce, 0);
    // x8 = x5 + x6: reads what the first cycle wrote.
    let mut second = cycle_row(&Cycle {
        shard: 1,
        clk: 4,
        index: 1,
        pc: 4,
        next_pc: 8,
        opcode: Opcode::ADD,
        registers: [8, 5, 6],
        a: (0, 10),
        b: 7,
        c: 3,
        previous: [(0, 0), (1, 3), (1, 2)],
    });
    put(&mut second, cols.selectors.is_alu, 1);
    put(&mut second, cols.nonce, 1);
    let mut trace = first;
    trace.extend(second);
    trace.extend(padding_row());
    trace.extend(padding_row());
    trace
}

#[test]
fn a_trace_of_two_cycles_satisfies_the_constraints() {
    let builder = cpu_builder();
    let trace = two_cycle_trace();
    assert_eq!(builder.check_trace(&trace, NUM_CPU_COLS, &public_values(0, 8, 0)), None);
    // The public next pc is that of the last real row.
    assert_eq!(builder.check_trace(&trace, NUM_CPU_COLS, &public_values(0, 4, 0)), Some(1));
    let messages = builder.trace_messages(&trace, NUM_CPU_COLS, &public_values(0, 8, 0));
    assert_eq!(messages.len(), 4 * 20);
    // Every interaction of a real row but the hand-over to the opcode-specific
    // table, which is not for additions.
    assert_eq!(messages.iter().filter(|m| m.multiplicity != 0).count(), 2 * 19);
}

#[test]
fn the_clock_advances_by_four() {
    let builder = cpu_builder();
    let cols = CpuCols::<Var>::at(false, 0);
    for clk in [0u32, 5, 8] {
        let mut trace = two_cycle_trace();
        trace[NUM_CPU_COLS + index_of(cols.clk)] = clk;
        trace[NUM_CPU_COLS + index_of(cols.clk_16bit_limb)] = clk;
        assert_eq!(builder.check_trace(&trace, NUM_CPU_COLS, &public_values(0, 8, 0)), Some(0));
    }
}

#[test]
fn a_system_call_may_take_extra_cycles() {
    let builder = cpu_builder();
    let cols = CpuCols::<Var>::at(false, 0);
    // A system call whose code asks for 9 extra cycles, then an addition.
    let mut first = cycle_row(&Cycle {
        shard: 1,
        clk: 0,
        index: 0,
        pc: 0,
        next_pc: 4,
        opcode: Opcode::ECALL,
        registers: [5, 10, 11],
        a: (0x0009_0105, 0x0009_0105),
        b: 0,
        c: 0,
        previous: [(0, 0), (0, 0), (0, 0)],
    });
    put(&mut first, cols.selectors.is_ecall, 1);
    let second_at = |clk: u32| {
        let mut second = cycle_row(&Cycle {
            shard: 1,
            clk,
            index: 1,
            pc: 4,
            next_pc: 8,
            opcode: Opcode::ADD,
            registers: [8, 6, 7],
            a: (0, 7),
            b: 3,
            c: 4,
            previous: [(0, 0), (0, 0), (0, 0)],
        });
        put(&mut second, cols.selectors.is_alu, 1);
        second
    };
    let pv = public_values(0, 8, 0);
    assert!(builder.check(&window(first.clone(), second_at(13), pv.clone(), true, false)));
    assert!(!builder.check(&window(first.clone(), second_at(4), pv.clone(), true, false)));
    // The same code on an instruction that is no system call: no extra cycles.
    put(&mut first, cols.selectors.is_ecall, 0);
    put(&mut first, cols.selectors.is_alu, 1);
    assert!(builder.check(&window(first.clone(), second_at(4), pv.clone(), true, false)));
    assert!(!builder.check(&window(first, second_at(13), pv, true, false)));
}

#[test]
fn the_channel_moves_on_with_every_row() {
    let builder = cpu_builder();
    let cols = CpuCols::<Var>::at(false, 0);
    let mut trace = two_cycle_trace();
    // The second row claims channel 2.
    trace[NUM_CPU_COLS + index_of(cols.channel)] = 2;
    trace[NUM_CPU_COLS + index_of(cols.channel_selectors.channel_selectors[1])] = 0;
    trace[NUM_CPU_COLS + index_of(cols.channel_selectors.channel_selectors[2])] = 1;
    assert_eq!(builder.check_trace(&trace, NUM_CPU_COLS, &public_values(0, 8, 0)), Some(0));
    // The first row claims channel 1.
    let mut trace = two_cycle_trace();
    trace[index_of(cols.channel)] = 1;
    trace[index_of(cols.channel_selectors.channel_selectors[0])] = 0;
    trace[index_of(cols.channel_selectors.channel_selectors[1])] = 1;
    assert_eq!(builder.check_trace(&trace, NUM_CPU_COLS, &public_values(0, 8, 0)), Some(0));
    // The channel does not match its selectors.
    let mut trace = two_cycle_trace();
    trace[index_of(cols.channel)] = 3;
    assert_eq!(builder.check_trace(&trace, NUM_CPU_COLS, &public_values(0, 8, 0)), Some(0));
}

#[test]
fn rows_are_chained_by_the_pc_and_stay_in_their_shard() {
    let builder = cpu_builder();
    let cols = CpuCols::<Var>::at(false, 0);
    let mut trace = two_cycle_trace();
    trace[NUM_CPU_COLS + index_of(cols.pc)] = 8;
    assert_eq!(builder.check_trace(&trace, NUM_CPU_COLS, &public_values(0, 8, 0)), Some(0));
    let mut trace = two_cycle_trace();
    trace[NUM_CPU_COLS + index_of(cols.shard)] = 2;
    assert!(builder.check_trace(&trace, NUM_CPU_COLS, &public_values(0, 8, 0)).is_some());
}

#[test]
fn an_access_must_be_later_than_the_previous_one() {
    let builder = cpu_builder();
    let cols = CpuCols::<Var>::at(false, 0);
    // The second operand was last written at the very clock of this access.
    let mut row = add_row();
    put(&mut row, cols.op_b_access.access.prev_shard, 1);
    put(&mut row, cols.op_b_access.access.prev_clk, 2);
    put(&mut row, cols.op_b_access.access.compare_clk, 1);
    // clk + 2 - 2 - 1 = -1
    put(&mut row, cols.op_b_access.access.diff_16bit_limb, 0xffff);
    put(&mut row, cols.op_b_access.access.diff_8bit_limb, 0xff);
    assert!(!builder.check(&window(row.clone(), padding_row(), public_values(0, 4, 0), true, false)));
    put(&mut row, cols.op_b_access.access.diff_16bit_limb, 0);
    put(&mut row, cols.op_b_access.access.diff_8bit_limb, 0);
    assert!(!builder.check(&window(row, padding_row(), public_values(0, 4, 0), true, false)));
    // No honest limbs exist: the difference is the order of the field less
    // one, which is above 2^24.
    assert!(MODULUS - 1 > 1 << 24);
}

#[test]
fn register_accesses_go_through_the_memory_bus() {
    let builder = cpu_builder();
    let w = window(add_row(), padding_row(), public_values(0, 4, 0), true, false);
    let memory = of_kind(&builder.emit(&w), InteractionKind::Memory);
    assert_eq!(memory.len(), 6);
    // The second operand: register 6 is read at clock 2.
    assert_eq!(memory[0].values, vec![0, 0, 6, 3, 0, 0, 0]);
    assert!(memory[0].is_send);
    assert_eq!(memory[1].values, vec![1, 2, 6, 3, 0, 0, 0]);
    assert!(!memory[1].is_send);
    // The third operand: register 7 is read at clock 1.
    assert_eq!(memory[2].values, vec![0, 0, 7, 4, 0, 0, 0]);
    assert_eq!(memory[3].values, vec![1, 1, 7, 4, 0, 0, 0]);
    // The first operand: register 5 is written at clock 3.
    assert_eq!(memory[4].values, vec![0, 0, 5, 0, 0, 0, 0]);
    assert_eq!(memory[5].values, vec![1, 3, 5, 7, 0, 0, 0]);
    assert!(memory.iter().all(|m| m.multiplicity == 1 && m.scope == InteractionScope::Local));
}

#[test]
fn an_immediate_operand_has_the_value_of_the_instruction() {
    let builder = cpu_builder();
    let cols = CpuCols::<Var>::at(false, 0);
    // x5 = x6 + 4, the 4 an immediate.
    let mut row = add_row();
    put(&mut row, cols.selectors.imm_c, 1);
    put_word(&mut row, cols.instruction.op_c, 4);
    let w = window(row.clone(), padding_row(), public_values(0, 4, 0), true, false);
    assert!(builder.check(&w));
    let memory = of_kind(&builder.emit(&w), InteractionKind::Memory);
    assert_eq!(memory[2].multiplicity, 0);
    assert_eq!(memory[3].multiplicity, 0);
    put_word(&mut row, cols.instruction.op_c, 5);
    assert!(!builder.check(&window(row, padding_row(), public_values(0, 4, 0), true, false)));
}

#[test]
fn register_zero_stays_zero() {
    let builder = cpu_builder();
    let cols = CpuCols::<Var>::at(false, 0);
    let mut row = add_row();
    put(&mut row, cols.instruction.op_a, 0);
    put(&mut row, cols.instruction.op_a_0, 1);
    assert!(!builder.check(&window(row.clone(), padding_row(), public_values(0, 4, 0), true, false)));
    put_word(&mut row, cols.op_a_access.access.value, 0);
    assert!(builder.check(&window(row, padding_row(), public_values(0, 4, 0), true, false)));
}

#[test]
fn a_halt_on_the_last_real_row() {
    let builder = cpu_builder();
    let pv = public_values(8, 0, 3);
    // Followed by padding.
    let w = window(halt_row(0, 0), padding_row(), pv.clone(), true, false);
    assert!(w.is_well_formed());
    assert!(builder.check(&w));
    // As the last row of the table.
    assert!(builder.check(&window(halt_row(0, 0), halt_row(0, 0), pv.clone(), true, true)));
    // The row is handed to the opcode-specific table with `is_halt` set.
    let dispatch = of_kind(&builder.emit(&w), InteractionKind::Instruction);
    assert_eq!(dispatch[0].multiplicity, 1);
    assert_eq!(dispatch[0].values.len(), 45);
    assert_eq!(dispatch[0].values[44], 1);
    assert_eq!(&dispatch[0].values[0..5], &[0, 1, 0, 8, 0]);
}

#[test]
fn a_halt_has_no_real_successor() {
    let builder = cpu_builder();
    let pv = public_values(8, 0, 3);
    let cols = CpuCols::<Var>::at(false, 0);
    // A real row after the halt, where the halt claims to end.
    let mut after = cycle_row(&Cycle { clk: 4, index: 1, pc: 0, ..add_cycle() });
    put(&mut after, cols.selectors.is_alu, 1);
    assert!(!builder.check(&window(halt_row(0, 0), after.clone(), pv.clone(), true, false)));
    // The same successor after a row that does not halt.
    let mut first = halt_row(0, 0);
    put(&mut first, cols.is_halt, 0);
    assert!(builder.check(&window(first, after.clone(), pv.clone(), true, false)));
    // An instruction that is not implemented ends the trace as well.
    let mut unimplemented = add_row();
    put(&mut unimplemented, cols.selectors.is_alu, 0);
    put(&mut unimplemented, cols.selectors.is_unimpl, 1);
    put(&mut unimplemented, cols.next_pc, 0);
    let pv0 = public_values(0, 0, 0);
    assert!(!builder.check(&window(unimplemented.clone(), after, pv0.clone(), true, false)));
    assert!(builder.check(&window(unimplemented, padding_row(), pv0, true, false)));
}

#[test]
fn a_halt_exits_with_the_public_exit_code() {
    let builder = cpu_builder();
    assert!(builder.check(&window(halt_row(0, 0), padding_row(), public_values(8, 0, 3), true, false)));
    assert!(!builder.check(&window(halt_row(0, 0), padding_row(), public_values(8, 0, 0), true, false)));
    assert!(!builder.check(&window(halt_row(0, 0), padding_row(), public_values(8, 0, 4), true, false)));
    // A row that does not halt may hold anything in its second operand.
    let cols = CpuCols::<Var>::at(false, 0);
    let mut row = halt_row(0, 0);
    put(&mut row, cols.is_halt, 0);
    assert!(builder.check(&window(row, padding_row(), public_values(8, 0, 77), true, false)));
}

#[test]
fn a_branch_or_store_leaves_its_first_operand() {
    let builder = cpu_builder();
    let cols = CpuCols::<Var>::at(false, 0);
    let branch = |before: u32, after: u32| {
        let mut row = cycle_row(&Cycle {
            opcode: Opcode::BEQ,
            a: (before, after),
            ..add_cycle()
        });
        put(&mut row, cols.selectors.is_beq, 1);
        row
    };
    let pv = public_values(0, 4, 0);
    assert!(builder.check(&window(branch(5, 5), padding_row(), pv.clone(), true, false)));
    assert!(!builder.check(&window(branch(5, 6), padding_row(), pv.clone(), true, false)));
    let store = |before: u32, after: u32| {
        let mut row = cycle_row(&Cycle {
            opcode: Opcode::SW,
            a: (before, after),
            ..add_cycle()
        });
        put(&mut row, cols.selectors.is_sw, 1);
        row
    };
    assert!(builder.check(&window(store(9, 9), padding_row(), pv.clone(), true, false)));
    assert!(!builder.check(&window(store(9, 8), padding_row(), pv, true, false)));
}
