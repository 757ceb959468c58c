use sp1_air::builder::ConstraintBuilder;
use sp1_air::bus::is_balanced;
use sp1_air::cpu::columns::CpuCols;
use sp1_air::cpu::opcode_cols::{
    CpuOpcodeSpecificCols, NUM_CPU_OPCODE_SPECIFIC_COLS, NUM_OPCODE_SPECIFIC_COLS,
};
use sp1_air::cpu::{CpuChip, CpuOpcodeSpecificChip};
use sp1_air::expr::{RowWindow, Var};
use sp1_air::field::MODULUS;
use sp1_air::interaction::{BusMessage, InteractionKind, InteractionScope};
use sp1_air::opcode::{Opcode, SyscallCode};
use sp1_air::operations::{BabyBearWordRangeChecker, IsZeroOperation};
use sp1_air::public_values::PublicValues;
use sp1_air::word::Word;

fn cell(v: Var) -> usize {
    match v {
        Var::Local(i) | Var::Next(i) | Var::Public(i) => i,
        _ => panic!("not a cell"),
    }
}

fn set(row: &mut Vec<u32>, v: Var, x: u32) {
    row[cell(v)] = x;
}

fn set_word(row: &mut Vec<u32>, word: Word<Var>, x: u32) {
    for (i, b) in x.to_le_bytes().iter().enumerate() {
        row[cell(word.0[i])] = *b as u32;
    }
}

/// The witness that `word` is below the order of the field.
fn set_range_checker(row: &mut Vec<u32>, cols: BabyBearWordRangeChecker<Var>, word: u32) {
    let top = word >> 24;
    let bit = |i: u32| (top >> i) & 1;
    for i in 0..8 {
        set(row, cols.most_sig_byte_decomp[i], bit(i as u32));
    }
    set(row, cols.and_most_sig_byte_decomp_3_to_5, bit(3) & bit(4));
    set(row, cols.and_most_sig_byte_decomp_3_to_6, bit(3) & bit(4) & bit(5));
    set(row, cols.and_most_sig_byte_decomp_3_to_7, bit(3) & bit(4) & bit(5) & bit(6));
}

fn power(base: u32, mut exponent: u32) -> u32 {
    let p = MODULUS as u64;
    let mut result = 1u64;
    let mut square = base as u64 % p;
    while exponent > 0 {
        if exponent & 1 == 1 {
            result = result * square % p;
        }
        square = square * square % p;
        exponent >>= 1;
    }
    result as u32
}

/// The witness of the test whether `a` is zero.
fn set_is_zero(row: &mut Vec<u32>, cols: IsZeroOperation<Var>, a: u32) {
    set(row, cols.inverse, power(a, MODULUS - 2));
    set(row, cols.result, (a == 0) as u32);
}

fn sub(a: u32, b: u32) -> u32 {
    ((a as u64 + MODULUS as u64 - b as u64) % MODULUS as u64) as u32
}

struct Operands {
    pc: u32,
    next_pc: u32,
    a_before: u32,
    a: u32,
    b: u32,
    c: u32,
}

/// The columns that every real row has, whatever its class.
fn base_row(o: &Operands) -> Vec<u32> {
    let cols = CpuOpcodeSpecificCols::<Var>::at(false, 0);
    let mut row = vec![0; NUM_CPU_OPCODE_SPECIFIC_COLS];
    set(&mut row, cols.clk, 20);
    set(&mut row, cols.shard, 1);
    set(&mut row, cols.channel, 5);
    set(&mut row, cols.pc, o.pc);
    set(&mut row, cols.next_pc, o.next_pc);
    set_word(&mut row, cols.op_a_prev_val, o.a_before);
    set_word(&mut row, cols.op_a_val, o.a);
    set_word(&mut row, cols.op_b_val, o.b);
    set_word(&mut row, cols.op_c_val, o.c);
    set(&mut row, cols.is_real, 1);
    row
}

fn public_values_with_digests() -> Vec<u32> {
    PublicValues::<u32, u32> {
        execution_shard: 1,
        start_pc: 0,
        next_pc: 0,
        committed_value_digest: [0x11111111, 0x22222222, 0xaabbccdd, 4, 5, 6, 7, 8],
        deferred_proofs_digest: [100, 200, 300, 400, 500, 600, 700, 800],
        exit_code: 3,
    }
    .to_vec()
}

fn holds(row: &Vec<u32>) -> bool {
    let mut builder = ConstraintBuilder::new();
    CpuOpcodeSpecificChip.eval(&mut builder);
    let w = RowWindow {
        local: row.clone(),
        next: row.clone(),
        public_values: public_values_with_digests(),
        is_first_row: false,
        is_last_row: false,
        is_transition: true,
    };
    assert!(w.is_well_formed());
    builder.check(&w)
}

fn messages(row: &Vec<u32>) -> Vec<BusMessage> {
    let mut builder = ConstraintBuilder::new();
    CpuOpcodeSpecificChip.eval(&mut builder);
    let w = RowWindow {
        local: row.clone(),
        next: row.clone(),
        public_values: public_values_with_digests(),
        is_first_row: false,
        is_last_row: false,
        is_transition: true,
    };
    builder.emit(&w).into_iter().filter(|m| m.multiplicity != 0).collect()
}

fn word(x: u32) -> Vec<u32> {
    x.to_le_bytes().iter().map(|b| *b as u32).collect()
}

fn alu_tuple(opcode: Opcode, a: u32, b: u32, c: u32, nonce: u32) -> Vec<u32> {
    let mut t = vec![opcode.code()];
    t.extend(word(a));
    t.extend(word(b));
    t.extend(word(c));
    t.extend([1, 5, nonce]);
    t
}

/// BEQ x5, x6, 16 at pc 8.
fn beq_row(a: u32, b: u32, taken: bool) -> Vec<u32> {
    let cols = CpuOpcodeSpecificCols::<Var>::at(false, 0);
    let branch = cols.opcode_specific_columns.branch();
    let target = 8 + 16;
    let mut row = base_row(&Operands {
        pc: 8,
        next_pc: if taken { target } else { 12 },
        a_before: a,
        a,
        b,
        c: 16,
    });
    set(&mut row, cols.selectors.is_beq, 1);
    set(&mut row, cols.branching, taken as u32);
    set(&mut row, cols.not_branching, !taken as u32);
    set_word(&mut row, branch.pc, 8);
    set_range_checker(&mut row, branch.pc_range_checker, 8);
    set_word(&mut row, branch.next_pc, target);
    set_range_checker(&mut row, branch.next_pc_range_checker, target);
    set(&mut row, branch.a_eq_b, (a == b) as u32);
    set(&mut row, branch.a_lt_b, (a < b) as u32);
    set(&mut row, branch.a_gt_b, (a > b) as u32);
    set(&mut row, branch.next_pc_nonce, 31);
    set(&mut row, branch.a_lt_b_nonce, 32);
    set(&mut row, branch.a_gt_b_nonce, 33);
    row
}

#[test]
fn the_table_has_one_hundred_and_five_columns() {
    assert_eq!(CpuOpcodeSpecificChip.width(), 105);
    assert_eq!(NUM_CPU_OPCODE_SPECIFIC_COLS, 105);
    assert_eq!(NUM_OPCODE_SPECIFIC_COLS, 48);
    let cols = CpuOpcodeSpecificCols::<Var>::at(false, 0);
    assert_eq!(cols.clk, Var::Local(0));
    assert_eq!(cols.opcode_specific_columns.cells[0], Var::Local(46));
    assert_eq!(cols.opcode_specific_columns.cells[47], Var::Local(93));
    assert_eq!(cols.ecall_range_check_operand, Var::Local(104));
    // The classes share the block.
    assert_eq!(cols.opcode_specific_columns.auipc().pc.0[0], Var::Local(46));
    assert_eq!(cols.opcode_specific_columns.branch().pc.0[0], Var::Local(46));
    assert_eq!(cols.opcode_specific_columns.jump().jalr_nonce, Var::Local(46 + 42));
    assert_eq!(cols.opcode_specific_columns.memory().addr_word_nonce, Var::Local(46 + 47));
    assert_eq!(cols.opcode_specific_columns.ecall().operand_to_check.0[3], Var::Local(46 + 29));
    let mut builder = ConstraintBuilder::new();
    CpuOpcodeSpecificChip.eval(&mut builder);
    assert_eq!(builder.interactions.len(), 16);
}

#[test]
fn a_row_of_zeros_satisfies_the_constraints() {
    let row = vec![0; NUM_CPU_OPCODE_SPECIFIC_COLS];
    assert!(holds(&row));
    assert!(messages(&row).is_empty());
}

#[test]
fn a_taken_branch_ends_at_pc_plus_offset() {
    let row = beq_row(5, 5, true);
    assert!(holds(&row));
    let sent = messages(&row);
    // The receive of the row, the addition of the target, two comparisons.
    assert_eq!(sent.len(), 4);
    assert_eq!(sent[0].kind, InteractionKind::Instruction);
    assert!(!sent[0].is_send);
    assert_eq!(sent[1].values, alu_tuple(Opcode::ADD, 24, 8, 16, 31));
    assert_eq!(sent[1].multiplicity, 1);
    // BEQ compares unsigned: a < b and b < a are both false.
    assert_eq!(sent[2].values, alu_tuple(Opcode::SLTU, 0, 5, 5, 32));
    assert_eq!(sent[3].values, alu_tuple(Opcode::SLTU, 0, 5, 5, 33));

    let cols = CpuOpcodeSpecificCols::<Var>::at(false, 0);
    // A taken branch that claims to fall through.
    let mut wrong = row.clone();
    set(&mut wrong, cols.next_pc, 12);
    assert!(!holds(&wrong));
    // A branch on equal operands that claims not to be taken.
    assert!(!holds(&beq_row(5, 5, false)));
    // A branch that is both taken and not taken, or neither.
    let mut both = row.clone();
    set(&mut both, cols.not_branching, 1);
    assert!(!holds(&both));
    let mut neither = row.clone();
    set(&mut neither, cols.branching, 0);
    assert!(!holds(&neither));
}

#[test]
fn a_branch_that_is_not_taken_falls_through() {
    let row = beq_row(5, 9, false);
    assert!(holds(&row));
    let sent = messages(&row);
    // No addition of the target: the receive and two comparisons.
    assert_eq!(sent.len(), 3);
    assert_eq!(sent[1].values, alu_tuple(Opcode::SLTU, 1, 5, 9, 32));
    assert_eq!(sent[2].values, alu_tuple(Opcode::SLTU, 0, 9, 5, 33));
    let cols = CpuOpcodeSpecificCols::<Var>::at(false, 0);
    let mut wrong = row.clone();
    set(&mut wrong, cols.next_pc, 24);
    assert!(!holds(&wrong));
    // A branch on unequal operands that claims to be taken.
    assert!(!holds(&beq_row(5, 9, true)));
    // Operands that are said to be equal are.
    let mut lie = beq_row(5, 9, true);
    let branch = cols.opcode_specific_columns.branch();
    set(&mut lie, branch.a_eq_b, 1);
    set(&mut lie, branch.a_lt_b, 0);
    assert!(!holds(&lie));
}

#[test]
fn signed_branches_compare_signed() {
    let cols = CpuOpcodeSpecificCols::<Var>::at(false, 0);
    let mut row = beq_row(5, 9, true);
    set(&mut row, cols.selectors.is_beq, 0);
    set(&mut row, cols.selectors.is_blt, 1);
    assert!(holds(&row));
    let sent = messages(&row);
    assert_eq!(sent[2].values[0], Opcode::SLT.code());
    assert_eq!(sent[3].values[0], Opcode::SLT.code());
    // BGE on the same operands is not taken.
    let mut row = beq_row(5, 9, false);
    set(&mut row, cols.selectors.is_beq, 0);
    set(&mut row, cols.selectors.is_bge, 1);
    assert!(holds(&row));
    let mut taken = beq_row(5, 9, true);
    set(&mut taken, cols.selectors.is_beq, 0);
    set(&mut taken, cols.selectors.is_bgeu, 1);
    assert!(!holds(&taken));
    // BNE on unequal operands is taken.
    let mut row = beq_row(5, 9, true);
    set(&mut row, cols.selectors.is_beq, 0);
    set(&mut row, cols.selectors.is_bne, 1);
    assert!(holds(&row));
}

/// JAL x1, 100 at pc 8.
fn jal_row() -> Vec<u32> {
    let cols = CpuOpcodeSpecificCols::<Var>::at(false, 0);
    let jump = cols.opcode_specific_columns.jump();
    let mut row = base_row(&Operands { pc: 8, next_pc: 108, a_before: 77, a: 12, b: 100, c: 0 });
    set(&mut row, cols.selectors.is_jal, 1);
    set_word(&mut row, jump.pc, 8);
    set_range_checker(&mut row, jump.pc_range_checker, 8);
    set_word(&mut row, jump.next_pc, 108);
    set_range_checker(&mut row, jump.next_pc_range_checker, 108);
    set_range_checker(&mut row, jump.op_a_range_checker, 12);
    set(&mut row, jump.jal_nonce, 41);
    row
}

#[test]
fn a_jump_links_and_lands() {
    let row = jal_row();
    assert!(holds(&row));
    let sent = messages(&row);
    assert_eq!(sent.len(), 2);
    assert_eq!(sent[1].values, alu_tuple(Opcode::ADD, 108, 8, 100, 41));
    let cols = CpuOpcodeSpecificCols::<Var>::at(false, 0);
    // The link is pc + 4.
    let mut wrong = row.clone();
    set_word(&mut wrong, cols.op_a_val, 16);
    assert!(!holds(&wrong));
    // Unless the link register is register zero.
    set(&mut wrong, cols.op_a_0, 1);
    assert!(holds(&wrong));
    // The next pc is the target.
    let mut wrong = row.clone();
    set(&mut wrong, cols.next_pc, 12);
    assert!(!holds(&wrong));
}

#[test]
fn a_register_jump_adds_its_operands() {
    let cols = CpuOpcodeSpecificCols::<Var>::at(false, 0);
    let jump = cols.opcode_specific_columns.jump();
    // JALR x1, x6, 4 with 0x2000 in x6.
    let mut row = base_row(&Operands { pc: 8, next_pc: 0x2004, a_before: 0, a: 12, b: 0x2000, c: 4 });
    set(&mut row, cols.selectors.is_jalr, 1);
    set_word(&mut row, jump.next_pc, 0x2004);
    set_range_checker(&mut row, jump.next_pc_range_checker, 0x2004);
    set_range_checker(&mut row, jump.op_a_range_checker, 12);
    set(&mut row, jump.jalr_nonce, 42);
    assert!(holds(&row));
    let sent = messages(&row);
    assert_eq!(sent.len(), 2);
    assert_eq!(sent[1].values, alu_tuple(Opcode::ADD, 0x2004, 0x2000, 4, 42));
}

#[test]
fn a_word_at_or_above_the_order_of_the_field_fails_the_range_check() {
    let cols = CpuOpcodeSpecificCols::<Var>::at(false, 0);
    let jump = cols.opcode_specific_columns.jump();
    // The largest word below the order passes as a link.
    let mut row = jal_row();
    set(&mut row, cols.op_a_0, 1);
    set_word(&mut row, cols.op_a_val, MODULUS - 1);
    set_range_checker(&mut row, jump.op_a_range_checker, MODULUS - 1);
    assert!(holds(&row));
    // The order itself does not, whatever the witness.
    set_word(&mut row, cols.op_a_val, MODULUS);
    set_range_checker(&mut row, jump.op_a_range_checker, MODULUS);
    assert!(!holds(&row));
    set(&mut row, jump.op_a_range_checker.and_most_sig_byte_decomp_3_to_7, 0);
    assert!(!holds(&row));
    // Nor does a word whose top bit is set.
    set_word(&mut row, cols.op_a_val, 0x8000_0000);
    set_range_checker(&mut row, jump.op_a_range_checker, 0x8000_0000);
    assert!(!holds(&row));
}

/// AUIPC x5, 0x1000 at pc 8.
fn auipc_row() -> Vec<u32> {
    let cols = CpuOpcodeSpecificCols::<Var>::at(false, 0);
    let auipc = cols.opcode_specific_columns.auipc();
    let mut row = base_row(&Operands { pc: 8, next_pc: 12, a_before: 0, a: 0x1008, b: 0x1000, c: 0 });
    set(&mut row, cols.selectors.is_auipc, 1);
    set_word(&mut row, auipc.pc, 8);
    set_range_checker(&mut row, auipc.pc_range_checker, 8);
    set(&mut row, auipc.auipc_nonce, 15);
    row
}

#[test]
fn auipc_adds_the_pc_through_the_alu() {
    let row = auipc_row();
    assert!(holds(&row));
    let sent = messages(&row);
    assert_eq!(sent.len(), 2);
    assert_eq!(sent[1].kind, InteractionKind::Alu);
    assert_eq!(sent[1].values, alu_tuple(Opcode::ADD, 0x1008, 8, 0x1000, 15));
    let cols = CpuOpcodeSpecificCols::<Var>::at(false, 0);
    // The word form of the pc is the pc.
    let mut wrong = row.clone();
    set_word(&mut wrong, cols.opcode_specific_columns.auipc().pc, 4);
    assert!(!holds(&wrong));
    // An instruction that is no branch, jump or halt ends at pc + 4.
    let mut wrong = row.clone();
    set(&mut wrong, cols.next_pc, 16);
    assert!(!holds(&wrong));
}

struct Access {
    opcode_flag: Var,
    /// The first operand before and after the instruction.
    a: (u32, u32),
    address: u32,
    /// The accessed word before and after the instruction.
    word: (u32, u32),
    /// The loaded value before the extension of its sign.
    unsigned: u32,
}

/// A load or store at pc 8 whose address is `x6 + 8`.
fn memory_row(access: &Access) -> Vec<u32> {
    let cols = CpuOpcodeSpecificCols::<Var>::at(false, 0);
    let memory = cols.opcode_specific_columns.memory();
    let mut row = base_row(&Operands {
        pc: 8,
        next_pc: 12,
        a_before: access.a.0,
        a: access.a.1,
        b: access.address - 8,
        c: 8,
    });
    set(&mut row, access.opcode_flag, 1);
    let offset = access.address % 4;
    set_word(&mut row, memory.addr_word, access.address);
    set_range_checker(&mut row, memory.addr_word_range_checker, access.address);
    set(&mut row, memory.addr_aligned, access.address - offset);
    set(&mut row, memory.addr_offset, offset);
    set(&mut row, memory.offset_is_one, (offset == 1) as u32);
    set(&mut row, memory.offset_is_two, (offset == 2) as u32);
    set(&mut row, memory.offset_is_three, (offset == 3) as u32);
    let low = (access.address - offset) & 0xff;
    for i in 0..6 {
        set(&mut row, memory.aa_least_sig_byte_decomp[i], (low >> (i + 2)) & 1);
    }
    set_word(&mut row, memory.memory_access.prev_value, access.word.0);
    set_word(&mut row, memory.memory_access.access.value, access.word.1);
    // The word was last written before the shard.
    set(&mut row, memory.memory_access.access.prev_shard, 0);
    set(&mut row, memory.memory_access.access.prev_clk, 0);
    set(&mut row, memory.memory_access.access.compare_clk, 0);
    set(&mut row, memory.addr_word_nonce, 9);
    set_word(&mut row, cols.unsigned_mem_val, access.unsigned);
    set(&mut row, cols.unsigned_mem_val_nonce, 10);
    row
}

#[test]
fn a_load_word_takes_the_word() {
    let cols = CpuOpcodeSpecificCols::<Var>::at(false, 0);
    let mut row = memory_row(&Access {
        opcode_flag: cols.selectors.is_lw,
        a: (0, 0xdeadbeef),
        address: 0x108,
        word: (0xdeadbeef, 0xdeadbeef),
        unsigned: 0xdeadbeef,
    });
    set(&mut row, cols.mem_value_is_pos_not_x0, 1);
    assert!(holds(&row));
    let sent = messages(&row);
    // The receive, the addition of the address, two byte checks, two range
    // checks of the distance to the previous access, and the access itself.
    assert_eq!(sent.len(), 8);
    assert_eq!(sent[1].values, alu_tuple(Opcode::ADD, 0x108, 0x100, 8, 9));
    assert_eq!(sent[6].kind, InteractionKind::Memory);
    assert_eq!(sent[6].values, vec![0, 0, 0x108, 0xef, 0xbe, 0xad, 0xde]);
    assert_eq!(sent[7].values, vec![1, 20, 0x108, 0xef, 0xbe, 0xad, 0xde]);
    // The register receives the word.
    let mut wrong = row.clone();
    set_word(&mut wrong, cols.op_a_val, 0xdeadbeee);
    assert!(!holds(&wrong));
    // A load does not change the word.
    let mut wrong = row.clone();
    set_word(&mut wrong, cols.opcode_specific_columns.memory().memory_access.access.value, 1);
    assert!(!holds(&wrong));
    // A load of a word is aligned.
    let misaligned = memory_row(&Access {
        opcode_flag: cols.selectors.is_lw,
        a: (0, 0xdeadbeef),
        address: 0x10a,
        word: (0xdeadbeef, 0xdeadbeef),
        unsigned: 0xdeadbeef,
    });
    assert!(!holds(&misaligned));
}

#[test]
fn a_load_byte_extends_the_sign_through_the_alu() {
    let cols = CpuOpcodeSpecificCols::<Var>::at(false, 0);
    let memory = cols.opcode_specific_columns.memory();
    // The byte 0x80 at offset 1.
    let mut row = memory_row(&Access {
        opcode_flag: cols.selectors.is_lb,
        a: (0, 0xffffff80),
        address: 0x109,
        word: (0x11228044, 0x11228044),
        unsigned: 0x80,
    });
    set(&mut row, memory.most_sig_byte_decomp[7], 1);
    set(&mut row, cols.mem_value_is_neg_not_x0, 1);
    assert!(holds(&row));
    let sent = messages(&row);
    assert_eq!(sent.len(), 9);
    // op_a = 0x80 - 0x100, as words.
    assert_eq!(sent[8].values, alu_tuple(Opcode::SUB, 0xffffff80, 0x80, 0x100, 10));
    // The unsigned load of the same byte writes it as it is.
    let mut unsigned = memory_row(&Access {
        opcode_flag: cols.selectors.is_lbu,
        a: (0, 0x80),
        address: 0x109,
        word: (0x11228044, 0x11228044),
        unsigned: 0x80,
    });
    set(&mut unsigned, cols.mem_value_is_pos_not_x0, 1);
    assert!(holds(&unsigned));
    assert_eq!(messages(&unsigned).len(), 8);
    // Another byte of the word is not the addressed byte.
    let mut wrong = unsigned.clone();
    set_word(&mut wrong, cols.unsigned_mem_val, 0x44);
    set_word(&mut wrong, cols.op_a_val, 0x44);
    assert!(!holds(&wrong));
}

#[test]
fn a_load_half_word_takes_the_half_at_the_offset() {
    let cols = CpuOpcodeSpecificCols::<Var>::at(false, 0);
    let mut row = memory_row(&Access {
        opcode_flag: cols.selectors.is_lhu,
        a: (0, 0x1122),
        address: 0x10a,
        word: (0x11228044, 0x11228044),
        unsigned: 0x1122,
    });
    set(&mut row, cols.mem_value_is_pos_not_x0, 1);
    assert!(holds(&row));
    let mut odd = memory_row(&Access {
        opcode_flag: cols.selectors.is_lhu,
        a: (0, 0x2280),
        address: 0x109,
        word: (0x11228044, 0x11228044),
        unsigned: 0x2280,
    });
    set(&mut odd, cols.mem_value_is_pos_not_x0, 1);
    assert!(!holds(&odd));
}

#[test]
fn stores_put_a_byte_a_half_or_the_word() {
    let cols = CpuOpcodeSpecificCols::<Var>::at(false, 0);
    let store = |flag: Var, address: u32, after: u32| {
        memory_row(&Access {
            opcode_flag: flag,
            a: (0xa1b2c3d4, 0xa1b2c3d4),
            address,
            word: (0x11223344, after),
            unsigned: 0,
        })
    };
    assert!(holds(&store(cols.selectors.is_sb, 0x108, 0x112233d4)));
    assert!(holds(&store(cols.selectors.is_sb, 0x109, 0x1122d444)));
    assert!(holds(&store(cols.selectors.is_sb, 0x10a, 0x11d43344)));
    assert!(holds(&store(cols.selectors.is_sb, 0x10b, 0xd4223344)));
    assert!(!holds(&store(cols.selectors.is_sb, 0x10a, 0x112233d4)));
    assert!(!holds(&store(cols.selectors.is_sb, 0x108, 0x1122c3d4)));
    assert!(holds(&store(cols.selectors.is_sh, 0x108, 0x1122c3d4)));
    assert!(holds(&store(cols.selectors.is_sh, 0x10a, 0xc3d43344)));
    assert!(!holds(&store(cols.selectors.is_sh, 0x109, 0x11c3d444)));
    assert!(holds(&store(cols.selectors.is_sw, 0x108, 0xa1b2c3d4)));
    assert!(!holds(&store(cols.selectors.is_sw, 0x108, 0xa1b2c3d5)));
    assert!(!holds(&store(cols.selectors.is_sw, 0x10a, 0xa1b2c3d4)));
    let sent = messages(&store(cols.selectors.is_sw, 0x108, 0xa1b2c3d4));
    assert_eq!(sent[6].values, vec![0, 0, 0x108, 0x44, 0x33, 0x22, 0x11]);
    assert_eq!(sent[7].values, vec![1, 20, 0x108, 0xd4, 0xc3, 0xb2, 0xa1]);
}

/// A system call at pc 8 with the given code, whose operands are `b` and
/// `c`.
fn ecall_row(code: u32, b: u32, c: u32) -> Vec<u32> {
    let cols = CpuOpcodeSpecificCols::<Var>::at(false, 0);
    let ecall = cols.opcode_specific_columns.ecall();
    let id = code & 0xff;
    let is_halt = id == SyscallCode::Halt.syscall_id();
    let mut row = base_row(&Operands {
        pc: 8,
        next_pc: if is_halt { 0 } else { 12 },
        a_before: code,
        a: code,
        b,
        c,
    });
    set(&mut row, cols.selectors.is_ecall, 1);
    set(&mut row, cols.is_halt, is_halt as u32);
    set_is_zero(&mut row, ecall.is_halt, sub(id, SyscallCode::Halt.syscall_id()));
    set_is_zero(&mut row, ecall.is_commit, sub(id, SyscallCode::Commit.syscall_id()));
    set_is_zero(
        &mut row,
        ecall.is_commit_deferred_proofs,
        sub(id, SyscallCode::CommitDeferredProofs.syscall_id()),
    );
    set(&mut row, cols.ecall_mul_send_to_table, (code >> 8) & 0xff);
    set(&mut row, ecall.syscall_nonce, 77);
    row
}

fn halt_row(exit_code: u32) -> Vec<u32> {
    let cols = CpuOpcodeSpecificCols::<Var>::at(false, 0);
    let ecall = cols.opcode_specific_columns.ecall();
    let mut row = ecall_row(SyscallCode::Halt.syscall_id(), exit_code, 0);
    set(&mut row, cols.ecall_range_check_operand, 1);
    set_word(&mut row, ecall.operand_to_check, exit_code);
    set_range_checker(&mut row, ecall.operand_range_check_cols, exit_code);
    row
}

#[test]
fn a_halt_sets_the_halt_flag_and_the_next_pc() {
    let row = halt_row(3);
    assert!(holds(&row));
    let cols = CpuOpcodeSpecificCols::<Var>::at(false, 0);
    // The halt flag is no choice of the prover.
    let mut unflagged = row.clone();
    set(&mut unflagged, cols.is_halt, 0);
    assert!(!holds(&unflagged));
    set(&mut unflagged, cols.next_pc, 12);
    assert!(!holds(&unflagged));
    let ecall = cols.opcode_specific_columns.ecall();
    set(&mut unflagged, ecall.is_halt.result, 0);
    assert!(!holds(&unflagged));
    // A halt does not go on.
    let mut goes_on = row.clone();
    set(&mut goes_on, cols.next_pc, 12);
    assert!(!holds(&goes_on));
    // The exit code is a field element.
    assert!(holds(&halt_row(MODULUS - 1)));
    assert!(!holds(&halt_row(MODULUS)));
    // Only a system call halts.
    let mut no_call = row.clone();
    set(&mut no_call, cols.selectors.is_ecall, 0);
    set(&mut no_call, cols.selectors.is_auipc, 1);
    assert!(!holds(&no_call));
}

#[test]
fn another_system_call_does_not_halt() {
    // A system call that a precompile table takes, with identifier 5.
    let row = ecall_row(0x0000_0105, 0x1000, 0x2000);
    assert!(holds(&row));
    let sent = messages(&row);
    assert_eq!(sent.len(), 2);
    assert_eq!(sent[1].kind, InteractionKind::Syscall);
    assert_eq!(sent[1].values, vec![1, 5, 20, 77, 5, 0x1000, 0x2000]);
    assert_eq!(sent[1].multiplicity, 1);
    let cols = CpuOpcodeSpecificCols::<Var>::at(false, 0);
    let mut halting = row.clone();
    set(&mut halting, cols.is_halt, 1);
    set(&mut halting, cols.next_pc, 0);
    assert!(!holds(&halting));
    // A call that no table takes is not sent.
    let unsent = ecall_row(0x0000_0005, 0, 0);
    assert!(holds(&unsent));
    assert_eq!(messages(&unsent).len(), 1);
}

#[test]
fn a_commit_binds_a_word_of_the_public_digest() {
    let cols = CpuOpcodeSpecificCols::<Var>::at(false, 0);
    let ecall = cols.opcode_specific_columns.ecall();
    let commit = |index: u32, word: u32| {
        let mut row = ecall_row(SyscallCode::Commit.syscall_id(), index, word);
        set(&mut row, ecall.index_bitmap[index as usize % 8], 1);
        row
    };
    assert!(holds(&commit(2, 0xaabbccdd)));
    assert!(holds(&commit(0, 0x11111111)));
    assert!(holds(&commit(7, 8)));
    // Another word than the public one.
    assert!(!holds(&commit(2, 0xaabbccde)));
    assert!(!holds(&commit(1, 0xaabbccdd)));
    // The bitmap names another index than the operand.
    let mut wrong = commit(2, 0xaabbccdd);
    set(&mut wrong, ecall.index_bitmap[2], 0);
    set(&mut wrong, ecall.index_bitmap[3], 1);
    assert!(!holds(&wrong));
    // No flag, or two flags.
    let mut none = commit(2, 0xaabbccdd);
    set(&mut none, ecall.index_bitmap[2], 0);
    assert!(!holds(&none));
    let mut two = commit(2, 0xaabbccdd);
    set(&mut two, ecall.index_bitmap[0], 1);
    assert!(!holds(&two));
    // An index beyond a byte.
    let mut row = ecall_row(SyscallCode::Commit.syscall_id(), 0x102, 0xaabbccdd);
    set(&mut row, ecall.index_bitmap[2], 1);
    assert!(!holds(&row));
    // A commit leaves its first operand.
    let mut changed = commit(2, 0xaabbccdd);
    set_word(&mut changed, cols.op_a_val, 1);
    assert!(!holds(&changed));
}

#[test]
fn a_commit_of_a_deferred_proof_binds_an_element_of_the_public_digest() {
    let cols = CpuOpcodeSpecificCols::<Var>::at(false, 0);
    let ecall = cols.opcode_specific_columns.ecall();
    let commit = |index: u32, element: u32| {
        let mut row = ecall_row(SyscallCode::CommitDeferredProofs.syscall_id(), index, element);
        set(&mut row, ecall.index_bitmap[index as usize], 1);
        set(&mut row, cols.ecall_range_check_operand, 1);
        set_word(&mut row, ecall.operand_to_check, element);
        set_range_checker(&mut row, ecall.operand_range_check_cols, element);
        row
    };
    assert!(holds(&commit(0, 100)));
    assert!(holds(&commit(5, 600)));
    assert!(!holds(&commit(5, 601)));
    assert!(!holds(&commit(4, 600)));
    // A system call that commits nothing has no flag in the bitmap.
    let mut other = ecall_row(0x0000_0005, 0, 0);
    assert!(holds(&other));
    set(&mut other, ecall.index_bitmap[0], 1);
    assert!(!holds(&other));
}

#[test]
fn the_table_receives_what_the_cpu_table_sent() {
    // The row of the opcode-specific table for AUIPC x5, 0x1000 at pc 8.
    let received: Vec<BusMessage> = messages(&auipc_row())
        .into_iter()
        .filter(|m| m.kind == InteractionKind::Instruction)
        .collect();
    assert_eq!(received.len(), 1);
    assert!(!received[0].is_send);

    // The row of the CPU table for the same cycle. Only the hand-over is
    // looked at, so only its columns are filled in.
    let cpu = CpuCols::<Var>::at(false, 0);
    let mut row = vec![0; 90];
    set(&mut row, cpu.clk, 20);
    set(&mut row, cpu.shard, 1);
    set(&mut row, cpu.channel, 5);
    set(&mut row, cpu.pc, 8);
    set(&mut row, cpu.next_pc, 12);
    set(&mut row, cpu.selectors.is_auipc, 1);
    set_word(&mut row, cpu.op_a_access.access.value, 0x1008);
    set_word(&mut row, cpu.op_b_access.access.value, 0x1000);
    set(&mut row, cpu.is_real, 1);
    let mut builder = ConstraintBuilder::new();
    CpuChip.eval(&mut builder);
    let w = RowWindow {
        local: row.clone(),
        next: vec![0; 90],
        public_values: public_values_with_digests(),
        is_first_row: false,
        is_last_row: false,
        is_transition: true,
    };
    let sent: Vec<BusMessage> = builder
        .emit(&w)
        .into_iter()
        .filter(|m| m.kind == InteractionKind::Instruction)
        .collect();
    assert_eq!(sent.len(), 1);
    assert!(sent[0].is_send);
    assert_eq!(sent[0].multiplicity, 1);
    assert_eq!(sent[0].scope, InteractionScope::Local);
    assert_eq!(sent[0].values, received[0].values);
    assert!(is_balanced(&vec![sent[0].clone(), received[0].clone()]));

    // If the CPU table claimed another next pc, the bus would not balance.
    set(&mut row, cpu.next_pc, 16);
    let w = RowWindow { local: row, ..w };
    let other: Vec<BusMessage> = builder
        .emit(&w)
        .into_iter()
        .filter(|m| m.kind == InteractionKind::Instruction)
        .collect();
    assert!(!is_balanced(&vec![other[0].clone(), received[0].clone()]));
}
