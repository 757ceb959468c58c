use sp1_air::cpu::columns::{InstructionCols, OpcodeSelectorCols};
use sp1_air::field::MODULUS;
use sp1_air::opcode::Opcode;
use sp1_air::program::{Instruction, Program, NUM_PROGRAM_VALUES};
use sp1_air::word::Word;

fn instruction(opcode: Opcode, op_a: u32, op_b: u32, op_c: u32, imm_b: bool, imm_c: bool) -> Instruction {
    Instruction { opcode, op_a, op_b, op_c, imm_b, imm_c }
}

fn simple_program() -> Program {
    Program {
        instructions: vec![
            instruction(Opcode::ADD, 29, 0, 5, false, true),
            instruction(Opcode::ADD, 30, 0, 37, false, true),
            instruction(Opcode::ADD, 31, 30, 29, false, false),
        ],
        pc_start: 0,
        pc_base: 0,
    }
}

const ALL_OPCODES: [Opcode; 38] = [
    Opcode::ADD,
    Opcode::SUB,
    Opcode::XOR,
    Opcode::OR,
    Opcode::AND,
    Opcode::SLL,
    Opcode::SRL,
    Opcode::SRA,
    Opcode::SLT,
    Opcode::SLTU,
    Opcode::LB,
    Opcode::LH,
    Opcode::LW,
    Opcode::LBU,
    Opcode::LHU,
    Opcode::SB,
    Opcode::SH,
    Opcode::SW,
    Opcode::BEQ,
    Opcode::BNE,
    Opcode::BLT,
    Opcode::BGE,
    Opcode::BLTU,
    Opcode::BGEU,
    Opcode::JAL,
    Opcode::JALR,
    Opcode::AUIPC,
    Opcode::ECALL,
    Opcode::EBREAK,
    Opcode::MUL,
    Opcode::MULH,
    Opcode::MULHU,
    Opcode::MULHSU,
    Opcode::DIV,
    Opcode::DIVU,
    Opcode::REM,
    Opcode::REMU,
    Opcode::UNIMP,
];

#[test]
fn every_opcode_has_exactly_one_class() {
    for opcode in ALL_OPCODES {
        for (imm_b, imm_c) in [(false, false), (false, true), (true, true)] {
            let selectors =
                OpcodeSelectorCols::<u32>::populate(&instruction(opcode, 1, 2, 3, imm_b, imm_c));
            let flags = selectors.to_array();
            assert!(flags.iter().all(|f| *f <= 1));
            assert_eq!(flags[0], imm_b as u32);
            assert_eq!(flags[1], imm_c as u32);
            assert_eq!(flags[2..].iter().sum::<u32>(), 1, "{:?}", opcode);
        }
    }
}

#[test]
fn selectors_name_the_class_of_the_opcode() {
    let of = |opcode| OpcodeSelectorCols::<u32>::populate(&instruction(opcode, 1, 2, 3, false, false));
    assert_eq!(of(Opcode::ADD).is_alu, 1);
    assert_eq!(of(Opcode::MUL).is_alu, 1);
    assert_eq!(of(Opcode::LB).is_lb, 1);
    assert_eq!(of(Opcode::LBU).is_lbu, 1);
    assert_eq!(of(Opcode::LH).is_lh, 1);
    assert_eq!(of(Opcode::LHU).is_lhu, 1);
    assert_eq!(of(Opcode::LW).is_lw, 1);
    assert_eq!(of(Opcode::SB).is_sb, 1);
    assert_eq!(of(Opcode::SH).is_sh, 1);
    assert_eq!(of(Opcode::SW).is_sw, 1);
    assert_eq!(of(Opcode::BEQ).is_beq, 1);
    assert_eq!(of(Opcode::BNE).is_bne, 1);
    assert_eq!(of(Opcode::BLT).is_blt, 1);
    assert_eq!(of(Opcode::BGE).is_bge, 1);
    assert_eq!(of(Opcode::BLTU).is_bltu, 1);
    assert_eq!(of(Opcode::BGEU).is_bgeu, 1);
    assert_eq!(of(Opcode::JAL).is_jal, 1);
    assert_eq!(of(Opcode::JALR).is_jalr, 1);
    assert_eq!(of(Opcode::AUIPC).is_auipc, 1);
    assert_eq!(of(Opcode::ECALL).is_ecall, 1);
    assert_eq!(of(Opcode::EBREAK).is_unimpl, 1);
    assert_eq!(of(Opcode::UNIMP).is_unimpl, 1);
}

#[test]
fn instruction_columns_hold_the_operands_as_words() {
    let cols = InstructionCols::<u32>::populate(&instruction(Opcode::SW, 7, 0x01020304, 0xfffffffc, false, true));
    assert_eq!(cols.opcode, 17);
    assert_eq!(cols.op_a, 7);
    assert_eq!(cols.op_b, Word([4, 3, 2, 1]));
    assert_eq!(cols.op_c, Word([0xfc, 0xff, 0xff, 0xff]));
    assert_eq!(cols.op_a_0, 0);
    let to_zero = InstructionCols::<u32>::populate(&instruction(Opcode::JAL, 0, 8, 0, true, true));
    assert_eq!(to_zero.op_a_0, 1);
}

#[test]
fn program_rows() {
    let program = simple_program();
    assert!(program.is_well_formed());
    let row = program.row(2);
    assert_eq!(row.len(), NUM_PROGRAM_VALUES);
    assert_eq!(row[0], 8);
    assert_eq!(&row[1..12], &[0, 31, 30, 0, 0, 0, 29, 0, 0, 0, 0]);
    // imm_b, imm_c, is_alu, then nineteen zeros.
    assert_eq!(&row[12..15], &[0, 0, 1]);
    assert!(row[15..].iter().all(|x| *x == 0));
    let first = program.row(0);
    assert_eq!(first[0], 0);
    assert_eq!(&first[12..15], &[0, 1, 1]);
}

#[test]
fn a_fetch_of_what_the_program_says_succeeds() {
    let program = simple_program();
    for i in 0..3 {
        for shard in [0, 1, 77] {
            let mut tuple = program.row(i);
            tuple.push(shard);
            assert!(program.fetch(&tuple));
        }
    }
}

#[test]
fn a_fetch_of_a_tampered_instruction_fails() {
    let program = simple_program();
    for i in 0..3 {
        let mut honest = program.row(i);
        honest.push(1);
        // Any change to any value of the instruction or of its class.
        for k in 1..NUM_PROGRAM_VALUES {
            let mut tuple = honest.clone();
            tuple[k] = (tuple[k] + 1) % 256;
            assert!(!program.fetch(&tuple), "instruction {} value {}", i, k);
        }
        // An address that the program does not have.
        let mut tuple = honest.clone();
        tuple[0] = 12;
        assert!(!program.fetch(&tuple));
        // An address of another instruction.
        let mut tuple = honest.clone();
        tuple[0] = (tuple[0] + 4) % 12;
        assert!(!program.fetch(&tuple));
    }
}

#[test]
fn a_fetch_tuple_has_a_shard() {
    let program = simple_program();
    let row = program.row(0);
    assert!(!program.fetch(&row));
    let mut long = row.clone();
    long.push(1);
    long.push(1);
    assert!(!program.fetch(&long));
    assert!(!program.fetch(&vec![]));
    let empty = Program { instructions: vec![], pc_start: 0, pc_base: 0 };
    let mut tuple = row;
    tuple.push(1);
    assert!(!empty.fetch(&tuple));
}

#[test]
fn a_program_is_well_formed_if_its_addresses_are_field_elements() {
    let mut program = simple_program();
    program.pc_base = MODULUS - 12;
    assert!(program.is_well_formed());
    assert_eq!(program.row(2)[0], MODULUS - 4);
    program.pc_base = MODULUS - 11;
    assert!(!program.is_well_formed());
    let mut program = simple_program();
    program.instructions[1].op_a = MODULUS;
    assert!(!program.is_well_formed());
    program.instructions[1].op_a = MODULUS - 1;
    assert!(program.is_well_formed());
}
