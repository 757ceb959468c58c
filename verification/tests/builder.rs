use sp1_air::builder::ConstraintBuilder;
use sp1_air::expr::{Expr, RowWindow, Var};
use sp1_air::field::MODULUS;
use sp1_air::interaction::{
    AirInteraction, BusMessage, InteractionKind, InteractionScope,
};
use sp1_air::opcode::{ByteOpcode, Opcode, SyscallCode};
use sp1_air::word::Word;

fn two_row_window(local: Vec<u32>, next: Vec<u32>) -> RowWindow {
    RowWindow {
        local,
        next,
        public_values: vec![],
        is_first_row: false,
        is_last_row: false,
        is_transition: true,
    }
}

fn local(i: usize) -> Expr {
    Expr::var(Var::Local(i))
}

#[test]
fn an_empty_builder_holds_everywhere() {
    let builder = ConstraintBuilder::new();
    assert_eq!(builder.constraints.len(), 0);
    assert_eq!(builder.interactions.len(), 0);
    assert!(builder.check(&two_row_window(vec![1, 2, 3], vec![])));
    assert!(builder.emit(&two_row_window(vec![1, 2, 3], vec![])).is_empty());
}

#[test]
fn assert_zero_holds_where_the_expression_vanishes() {
    let mut builder = ConstraintBuilder::new();
    builder.assert_zero(local(0).minus(local(1)));
    assert!(builder.check(&two_row_window(vec![7, 7], vec![])));
    assert!(!builder.check(&two_row_window(vec![7, 8], vec![])));
}

#[test]
fn a_condition_of_zero_switches_a_constraint_off() {
    let mut builder = ConstraintBuilder::new();
    builder.assert_eq_when(local(0), local(1), local(2));
    assert!(builder.check(&two_row_window(vec![0, 5, 9], vec![])));
    assert!(builder.check(&two_row_window(vec![1, 5, 5], vec![])));
    assert!(!builder.check(&two_row_window(vec![1, 5, 9], vec![])));
    // Any condition but zero switches the constraint on.
    assert!(!builder.check(&two_row_window(vec![2, 5, 9], vec![])));
    assert!(!builder.check(&two_row_window(vec![MODULUS - 1, 5, 9], vec![])));
}

#[test]
fn assert_bool_accepts_zero_and_one_only() {
    let mut builder = ConstraintBuilder::new();
    builder.assert_bool(local(0));
    assert!(builder.check(&two_row_window(vec![0], vec![])));
    assert!(builder.check(&two_row_window(vec![1], vec![])));
    assert!(!builder.check(&two_row_window(vec![2], vec![])));
    assert!(!builder.check(&two_row_window(vec![MODULUS - 1], vec![])));
}

#[test]
fn assert_one_and_its_conditional_form() {
    let mut builder = ConstraintBuilder::new();
    builder.assert_one(local(0));
    builder.assert_one_when(local(1), local(2));
    builder.assert_zero_when(local(1), local(3));
    builder.assert_bool_when(local(1), local(4));
    assert!(builder.check(&two_row_window(vec![1, 0, 9, 9, 9], vec![])));
    assert!(builder.check(&two_row_window(vec![1, 1, 1, 0, 1], vec![])));
    assert!(!builder.check(&two_row_window(vec![0, 0, 9, 9, 9], vec![])));
    assert!(!builder.check(&two_row_window(vec![1, 1, 0, 0, 1], vec![])));
    assert!(!builder.check(&two_row_window(vec![1, 1, 1, 1, 1], vec![])));
    assert!(!builder.check(&two_row_window(vec![1, 1, 1, 0, 2], vec![])));
    assert_eq!(builder.constraints.len(), 4);
}

#[test]
fn constraints_may_span_two_rows() {
    let mut builder = ConstraintBuilder::new();
    let on_transition = builder.is_transition();
    builder.assert_eq_when(
        on_transition,
        Expr::var(Var::Next(0)),
        local(0).plus(Expr::constant(4)),
    );
    assert!(builder.check(&two_row_window(vec![8], vec![12])));
    assert!(!builder.check(&two_row_window(vec![8], vec![13])));
    let mut last = two_row_window(vec![8], vec![13]);
    last.is_transition = false;
    last.is_last_row = true;
    assert!(builder.check(&last));
}

#[test]
fn first_and_last_row_selectors() {
    let mut builder = ConstraintBuilder::new();
    let first = builder.is_first_row();
    let last = builder.is_last_row();
    builder.assert_zero_when(first, local(0));
    builder.assert_one_when(last, local(0));
    let mut w = two_row_window(vec![0], vec![]);
    w.is_first_row = true;
    assert!(builder.check(&w));
    w.local = vec![1];
    assert!(!builder.check(&w));
    w.is_first_row = false;
    w.is_last_row = true;
    w.is_transition = false;
    assert!(builder.check(&w));
}

#[test]
fn send_and_receive_put_messages_on_the_bus() {
    let mut builder = ConstraintBuilder::new();
    builder.send(
        AirInteraction::new(vec![local(0), local(1).plus(local(0))], local(2), InteractionKind::Memory),
        InteractionScope::Global,
    );
    builder.receive(
        AirInteraction::new(vec![Expr::constant(9)], Expr::one(), InteractionKind::Byte),
        InteractionScope::Local,
    );
    let messages = builder.emit(&two_row_window(vec![3, 4, 1], vec![]));
    assert_eq!(
        messages,
        vec![
            BusMessage {
                kind: InteractionKind::Memory,
                scope: InteractionScope::Global,
                is_send: true,
                values: vec![3, 7],
                multiplicity: 1,
            },
            BusMessage {
                kind: InteractionKind::Byte,
                scope: InteractionScope::Local,
                is_send: false,
                values: vec![9],
                multiplicity: 1,
            },
        ]
    );
    assert!(builder.check(&two_row_window(vec![3, 4, 1], vec![])));
}

#[test]
fn send_alu_lays_the_tuple_out() {
    let mut builder = ConstraintBuilder::new();
    let a = Word([Var::Local(0), Var::Local(1), Var::Local(2), Var::Local(3)]);
    let b = Word([Var::Local(4), Var::Local(5), Var::Local(6), Var::Local(7)]);
    let c = Word([Var::Local(8), Var::Local(9), Var::Local(10), Var::Local(11)]);
    builder.send_alu(
        Expr::constant(Opcode::SUB.code()),
        &a.exprs(),
        &b.exprs(),
        &c.exprs(),
        Var::Local(12),
        Var::Local(13),
        Var::Local(14),
        local(15),
    );
    let row: Vec<u32> = (100..116).collect();
    let messages = builder.emit(&two_row_window(row, vec![]));
    assert_eq!(messages.len(), 1);
    assert_eq!(messages[0].kind, InteractionKind::Alu);
    assert_eq!(messages[0].scope, InteractionScope::Local);
    assert!(messages[0].is_send);
    assert_eq!(
        messages[0].values,
        vec![1, 100, 101, 102, 103, 104, 105, 106, 107, 108, 109, 110, 111, 112, 113, 114]
    );
    assert_eq!(messages[0].multiplicity, 115);
}

#[test]
fn send_byte_lays_the_tuple_out() {
    let mut builder = ConstraintBuilder::new();
    builder.send_byte(
        ByteOpcode::U16Range,
        local(0),
        Expr::zero(),
        Expr::zero(),
        Var::Local(1),
        Var::Local(2),
        local(3),
    );
    let messages = builder.emit(&two_row_window(vec![65535, 2, 3, 1], vec![]));
    assert_eq!(messages[0].kind, InteractionKind::Byte);
    assert_eq!(messages[0].values, vec![8, 65535, 0, 0, 2, 3]);
    assert_eq!(messages[0].multiplicity, 1);
}

#[test]
fn range_check_of_24_bits_splits_into_limbs() {
    let mut builder = ConstraintBuilder::new();
    builder.eval_range_check_24bits(
        local(0),
        Var::Local(1),
        Var::Local(2),
        Var::Local(3),
        Var::Local(4),
        local(5),
    );
    // 0x123456 = 0x3456 + 0x12 * 2^16
    assert!(builder.check(&two_row_window(vec![0x123456, 0x3456, 0x12, 1, 0, 1], vec![])));
    assert!(!builder.check(&two_row_window(vec![0x123456, 0x3456, 0x13, 1, 0, 1], vec![])));
    // Switched off.
    assert!(builder.check(&two_row_window(vec![0x123456, 0, 0, 1, 0, 0], vec![])));
    let messages = builder.emit(&two_row_window(vec![0x123456, 0x3456, 0x12, 1, 0, 1], vec![]));
    assert_eq!(messages.len(), 2);
    assert_eq!(messages[0].values, vec![8, 0x3456, 0, 0, 1, 0]);
    assert_eq!(messages[1].values, vec![7, 0, 0, 0x12, 1, 0]);
}

#[test]
fn word_helpers() {
    let word = Word([Var::Local(0), Var::Local(1), Var::Local(2), Var::Local(3)]);
    let w = two_row_window(vec![0x78, 0x56, 0x34, 0x12], vec![]);
    assert_eq!(word.reduce().evaluate(&w), 0x12345678);
    assert_eq!(Word::<u32>::from_u32(0x12345678), Word([0x78, 0x56, 0x34, 0x12]));
    assert_eq!(Word::<u32>::from_u32(0x12345678).to_u32(), 0x12345678);
    assert_eq!(Word::<u32>::from_u32(u32::MAX), Word([255, 255, 255, 255]));
    assert_eq!(Word::<u32>::from_u32(0), Word([0, 0, 0, 0]));
    assert_eq!(Word::<Var>::at(true, 5), Word([Var::Next(5), Var::Next(6), Var::Next(7), Var::Next(8)]));
    // A word at or above the modulus wraps around.
    let top = two_row_window(vec![1, 0, 0, 0x78], vec![]);
    assert_eq!(word.reduce().evaluate(&top), 0);

    let mut builder = ConstraintBuilder::new();
    let other = Word([Var::Local(4), Var::Local(5), Var::Local(6), Var::Local(7)]);
    builder.assert_word_eq_when(&Expr::one(), &word, &other);
    assert!(builder.check(&two_row_window(vec![1, 2, 3, 4, 1, 2, 3, 4], vec![])));
    assert!(!builder.check(&two_row_window(vec![1, 2, 3, 4, 1, 2, 3, 5], vec![])));
    let mut zero = ConstraintBuilder::new();
    zero.assert_word_zero_when(&local(4), &word);
    assert!(zero.check(&two_row_window(vec![0, 0, 0, 0, 1], vec![])));
    assert!(zero.check(&two_row_window(vec![0, 9, 0, 0, 0], vec![])));
    assert!(!zero.check(&two_row_window(vec![0, 9, 0, 0, 1], vec![])));
}

#[test]
fn codes_are_stable() {
    assert_eq!(InteractionKind::Program.code(), 1);
    assert_eq!(InteractionKind::Alu.code(), 2);
    assert_eq!(InteractionKind::Memory.code(), 3);
    assert_eq!(InteractionKind::Byte.code(), 4);
    assert_eq!(InteractionKind::Instruction.code(), 5);
    assert_eq!(InteractionKind::Syscall.code(), 6);
    assert_eq!(Opcode::ADD.code(), 0);
    assert_eq!(Opcode::SUB.code(), 1);
    assert_eq!(Opcode::SLT.code(), 8);
    assert_eq!(Opcode::SLTU.code(), 9);
    assert_eq!(Opcode::LB.code(), 10);
    assert_eq!(Opcode::JALR.code(), 25);
    assert_eq!(Opcode::AUIPC.code(), 27);
    assert_eq!(Opcode::ECALL.code(), 28);
    assert_eq!(Opcode::UNIMP.code(), 39);
    assert!(Opcode::ADD.is_alu());
    assert!(Opcode::REMU.is_alu());
    assert!(!Opcode::LW.is_alu());
    assert!(!Opcode::ECALL.is_alu());
    assert_eq!(ByteOpcode::U8Range.code(), 7);
    assert_eq!(ByteOpcode::U16Range.code(), 8);
    assert_eq!(SyscallCode::Halt.syscall_id(), 0);
    assert_eq!(SyscallCode::Commit.syscall_id(), 16);
    assert_eq!(SyscallCode::CommitDeferredProofs.syscall_id(), 26);
}
