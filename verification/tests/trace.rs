use sp1_air::builder::ConstraintBuilder;
use sp1_air::bus::{check_all_well_formed, unmatched};
use sp1_air::expr::{Expr, Var};
use sp1_air::field::MODULUS;
use sp1_air::interaction::{AirInteraction, BusMessage, InteractionKind, InteractionScope};
use sp1_air::trace::{check_is_trace, row_window};

/// A table of two columns whose first column counts up from zero and whose
/// second column is the double of the first. Every row sends its first
/// column and receives the first column of the row after it.
fn counter() -> ConstraintBuilder {
    let mut builder = ConstraintBuilder::new();
    let first = builder.is_first_row();
    builder.assert_zero_when(first, Expr::var(Var::Local(0)));
    let transition = builder.is_transition();
    builder.assert_eq_when(
        transition,
        Expr::var(Var::Next(0)),
        Expr::var(Var::Local(0)).plus(Expr::one()),
    );
    builder.assert_eq(
        Expr::var(Var::Local(1)),
        Expr::var(Var::Local(0)).times(Expr::constant(2)),
    );
    builder.send(
        AirInteraction::new(vec![Expr::var(Var::Local(0))], Expr::one(), InteractionKind::Memory),
        InteractionScope::Local,
    );
    builder.receive(
        AirInteraction::new(
            vec![Expr::var(Var::Next(0))],
            builder.is_transition(),
            InteractionKind::Memory,
        ),
        InteractionScope::Local,
    );
    builder
}

#[test]
fn a_list_of_cells_is_a_trace_if_it_is_made_of_full_rows() {
    assert!(check_is_trace(&vec![0, 0, 1, 2], 2));
    assert!(check_is_trace(&vec![0, 0, 1, 2], 4));
    assert!(check_is_trace(&vec![7], 1));
    assert!(!check_is_trace(&vec![0, 0, 1], 2));
    assert!(!check_is_trace(&vec![], 2));
    assert!(!check_is_trace(&vec![0, 0], 0));
    assert!(!check_is_trace(&vec![0, MODULUS], 2));
    assert!(check_is_trace(&vec![0, MODULUS - 1], 2));
}

#[test]
fn the_window_of_a_row_holds_the_row_and_its_successor() {
    let trace = vec![0, 0, 1, 2, 2, 4];
    let w = row_window(&trace, 2, &vec![9], 0);
    assert_eq!(w.local, vec![0, 0]);
    assert_eq!(w.next, vec![1, 2]);
    assert_eq!(w.public_values, vec![9]);
    assert!(w.is_first_row && !w.is_last_row && w.is_transition);
    let w = row_window(&trace, 2, &vec![9], 1);
    assert_eq!((w.local.clone(), w.next.clone()), (vec![1, 2], vec![2, 4]));
    assert!(!w.is_first_row && !w.is_last_row && w.is_transition);
    // After the last row comes the first.
    let w = row_window(&trace, 2, &vec![9], 2);
    assert_eq!((w.local.clone(), w.next.clone()), (vec![2, 4], vec![0, 0]));
    assert!(!w.is_first_row && w.is_last_row && !w.is_transition);
    // A trace of one row.
    let w = row_window(&vec![5, 6], 2, &vec![], 0);
    assert_eq!((w.local.clone(), w.next.clone()), (vec![5, 6], vec![5, 6]));
    assert!(w.is_first_row && w.is_last_row && !w.is_transition);
}

#[test]
fn check_trace_names_the_first_row_that_fails() {
    let builder = counter();
    assert_eq!(builder.check_trace(&vec![0, 0, 1, 2, 2, 4, 3, 6], 2, &vec![]), None);
    assert_eq!(builder.check_trace(&vec![1, 2, 2, 4, 3, 6], 2, &vec![]), Some(0));
    assert_eq!(builder.check_trace(&vec![0, 0, 1, 2, 3, 6, 4, 8], 2, &vec![]), Some(1));
    assert_eq!(builder.check_trace(&vec![0, 0, 1, 2, 2, 5, 3, 6], 2, &vec![]), Some(2));
    assert_eq!(builder.check_trace(&vec![0, 0, 1, 2, 2, 4, 3, 7], 2, &vec![]), Some(3));
    assert_eq!(builder.check_trace(&vec![0, 0], 2, &vec![]), None);
}

#[test]
fn the_messages_of_a_trace_come_row_after_row() {
    let builder = counter();
    let messages = builder.trace_messages(&vec![0, 0, 1, 2, 2, 4], 2, &vec![]);
    assert_eq!(messages.len(), 6);
    let values: Vec<(bool, u32, u32)> =
        messages.iter().map(|m| (m.is_send, m.values[0], m.multiplicity)).collect();
    assert_eq!(
        values,
        vec![(true, 0, 1), (false, 1, 1), (true, 1, 1), (false, 2, 1), (true, 2, 1), (false, 0, 0)]
    );
    assert!(check_all_well_formed(&messages));
    // What the first row sends, no row receives.
    let open = unmatched(&messages);
    assert_eq!(open.len(), 1);
    assert_eq!(open[0].values, vec![0]);
    assert_eq!(open[0].net, 1);
}

#[test]
fn messages_are_well_formed_if_their_entries_are_canonical() {
    let good = BusMessage {
        kind: InteractionKind::Byte,
        scope: InteractionScope::Local,
        is_send: true,
        values: vec![0, MODULUS - 1],
        multiplicity: MODULUS - 1,
    };
    assert!(good.is_well_formed());
    let mut bad = good.clone();
    bad.multiplicity = MODULUS;
    assert!(!bad.is_well_formed());
    let mut worse = good.clone();
    worse.values[0] = u32::MAX;
    assert!(!worse.is_well_formed());
    assert!(check_all_well_formed(&vec![]));
    assert!(check_all_well_formed(&vec![good.clone(), good.clone()]));
    assert!(!check_all_well_formed(&vec![good, bad]));
}
