use sp1_air::bus::{is_balanced, net_of, same_key, same_values, unmatched, Unmatched};
use sp1_air::field::MODULUS;
use sp1_air::interaction::{BusMessage, InteractionKind, InteractionScope};

fn message(kind: InteractionKind, scope: InteractionScope, is_send: bool, values: Vec<u32>, multiplicity: u32) -> BusMessage {
    BusMessage { kind, scope, is_send, values, multiplicity }
}

fn send(values: Vec<u32>, multiplicity: u32) -> BusMessage {
    message(InteractionKind::Memory, InteractionScope::Local, true, values, multiplicity)
}

fn receive(values: Vec<u32>, multiplicity: u32) -> BusMessage {
    message(InteractionKind::Memory, InteractionScope::Local, false, values, multiplicity)
}

#[test]
fn an_empty_bus_is_balanced() {
    assert!(is_balanced(&vec![]));
    assert!(unmatched(&vec![]).is_empty());
}

#[test]
fn a_send_and_its_receive_cancel() {
    let messages = vec![send(vec![1, 2, 3], 1), receive(vec![1, 2, 3], 1)];
    assert!(is_balanced(&messages));
    assert_eq!(net_of(&messages, 0), 0);
    assert_eq!(net_of(&messages, 1), 0);
}

#[test]
fn multiplicities_add_up() {
    let messages = vec![
        send(vec![9], 2),
        receive(vec![9], 1),
        send(vec![9], 3),
        receive(vec![9], 4),
    ];
    assert!(is_balanced(&messages));
    let open = vec![send(vec![9], 2), receive(vec![9], 1), send(vec![9], 3)];
    assert_eq!(net_of(&open, 1), 4);
    assert_eq!(
        unmatched(&open),
        vec![Unmatched {
            kind: InteractionKind::Memory,
            scope: InteractionScope::Local,
            values: vec![9],
            net: 4,
        }]
    );
}

#[test]
fn a_receive_without_a_send_counts_below_zero() {
    let messages = vec![receive(vec![5, 5], 1)];
    assert!(!is_balanced(&messages));
    let open = unmatched(&messages);
    assert_eq!(open.len(), 1);
    assert_eq!(open[0].net, MODULUS - 1);
    assert_eq!(open[0].values, vec![5, 5]);
}

#[test]
fn messages_with_multiplicity_zero_do_not_count() {
    let messages = vec![send(vec![1], 0), receive(vec![2], 0)];
    assert!(is_balanced(&messages));
}

#[test]
fn kind_scope_and_tuple_all_tell_messages_apart() {
    let base = send(vec![1, 2], 1);
    let other_kind = message(InteractionKind::Alu, InteractionScope::Local, false, vec![1, 2], 1);
    let other_scope = message(InteractionKind::Memory, InteractionScope::Global, false, vec![1, 2], 1);
    let other_values = receive(vec![1, 3], 1);
    let shorter = receive(vec![1], 1);
    let matching = receive(vec![1, 2], 7);
    assert!(!same_key(&base, &other_kind));
    assert!(!same_key(&base, &other_scope));
    assert!(!same_key(&base, &other_values));
    assert!(!same_key(&base, &shorter));
    assert!(same_key(&base, &matching));
    assert!(same_values(&vec![], &vec![]));
    assert!(!same_values(&vec![0], &vec![]));
    for other in [other_kind, other_scope, other_values, shorter] {
        let messages = vec![base.clone(), other];
        assert!(!is_balanced(&messages));
        assert_eq!(unmatched(&messages).len(), 2);
    }
}

#[test]
fn every_open_tuple_is_reported_once_in_order_of_appearance() {
    let messages = vec![
        send(vec![1], 1),
        send(vec![2], 1),
        send(vec![1], 1),
        receive(vec![3], 1),
        receive(vec![2], 1),
        send(vec![1], 1),
    ];
    let open = unmatched(&messages);
    assert_eq!(open.len(), 2);
    assert_eq!((open[0].values.clone(), open[0].net), (vec![1], 3));
    assert_eq!((open[1].values.clone(), open[1].net), (vec![3], MODULUS - 1));
}

#[test]
fn the_sum_is_taken_in_the_field() {
    // Two sends whose multiplicities add up to the order of the field.
    let messages = vec![send(vec![4], MODULUS - 1), send(vec![4], 1)];
    assert!(is_balanced(&messages));
}
