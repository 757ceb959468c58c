use sp1_air::expr::{check_all_canonical, Expr, RowWindow, Var};
use sp1_air::field::{is_canonical, MODULUS};

fn window_with(local: Vec<u32>) -> RowWindow {
    RowWindow {
        local,
        next: vec![],
        public_values: vec![5, 6],
        is_first_row: true,
        is_last_row: false,
        is_transition: true,
    }
}

fn col(i: usize) -> Expr {
    Expr::var(Var::Local(i))
}

#[test]
fn modulus_is_the_baby_bear_prime() {
    assert_eq!(MODULUS, (1u32 << 31) - (1u32 << 27) + 1);
    assert_eq!(MODULUS, 0x78000001);
}

#[test]
fn canonical_values_are_those_below_the_modulus() {
    assert!(is_canonical(0));
    assert!(is_canonical(MODULUS - 1));
    assert!(!is_canonical(MODULUS));
    assert!(!is_canonical(u32::MAX));
    assert!(check_all_canonical(&vec![0, 1, MODULUS - 1]));
    assert!(!check_all_canonical(&vec![0, MODULUS, 1]));
    assert!(check_all_canonical(&vec![]));
}

#[test]
fn addition_wraps_around_the_modulus() {
    let w = window_with(vec![MODULUS - 1, 2, 7]);
    assert_eq!(col(0).plus(col(1)).evaluate(&w), 1);
    assert_eq!(col(1).plus(col(2)).evaluate(&w), 9);
    assert_eq!(col(0).plus(col(0)).evaluate(&w), MODULUS - 2);
}

#[test]
fn subtraction_wraps_around_zero() {
    let w = window_with(vec![MODULUS - 1, 2, 7]);
    assert_eq!(col(1).minus(col(2)).evaluate(&w), MODULUS - 5);
    assert_eq!(col(2).minus(col(1)).evaluate(&w), 5);
    assert_eq!(col(1).minus(col(1)).evaluate(&w), 0);
    assert_eq!(Expr::zero().minus(Expr::one()).evaluate(&w), MODULUS - 1);
}

#[test]
fn multiplication_is_reduced() {
    let w = window_with(vec![MODULUS - 1, 2, 7, 65536]);
    // (-1) * (-1) = 1
    assert_eq!(col(0).times(col(0)).evaluate(&w), 1);
    // (-1) * 2 = -2
    assert_eq!(col(0).times(col(1)).evaluate(&w), MODULUS - 2);
    assert_eq!(col(1).times(col(2)).evaluate(&w), 14);
    // 2^16 * 2^16 = 2^32 = 2^32 - 2 * p
    let expected = ((1u64 << 32) % (MODULUS as u64)) as u32;
    assert_eq!(col(3).times(col(3)).evaluate(&w), expected);
    assert_eq!(expected, 268435454);
}

#[test]
fn constants_stand_for_their_residue() {
    let w = window_with(vec![]);
    assert_eq!(Expr::constant(5).evaluate(&w), 5);
    assert_eq!(Expr::constant(MODULUS).evaluate(&w), 0);
    assert_eq!(Expr::constant(MODULUS + 3).evaluate(&w), 3);
    assert_eq!(Expr::zero().evaluate(&w), 0);
    assert_eq!(Expr::one().evaluate(&w), 1);
}

#[test]
fn variables_read_the_window() {
    let w = RowWindow {
        local: vec![10, 11],
        next: vec![20, 21, 22],
        public_values: vec![30],
        is_first_row: true,
        is_last_row: false,
        is_transition: true,
    };
    assert_eq!(Expr::var(Var::Local(1)).evaluate(&w), 11);
    assert_eq!(Expr::var(Var::Next(2)).evaluate(&w), 22);
    assert_eq!(Expr::var(Var::Public(0)).evaluate(&w), 30);
    assert_eq!(Expr::var(Var::IsFirstRow).evaluate(&w), 1);
    assert_eq!(Expr::var(Var::IsLastRow).evaluate(&w), 0);
    assert_eq!(Expr::var(Var::IsTransition).evaluate(&w), 1);
    // A column that the window does not have reads as zero.
    assert_eq!(Expr::var(Var::Local(2)).evaluate(&w), 0);
    assert_eq!(Expr::var(Var::Public(7)).evaluate(&w), 0);
}

#[test]
fn a_window_is_well_formed_if_its_cells_are_canonical() {
    let mut w = window_with(vec![1, 2, 3]);
    assert!(w.is_well_formed());
    w.next = vec![MODULUS];
    assert!(!w.is_well_formed());
    w.next = vec![MODULUS - 1];
    assert!(w.is_well_formed());
    w.public_values = vec![u32::MAX];
    assert!(!w.is_well_formed());
}

#[test]
fn a_clone_of_an_expression_is_the_expression() {
    let e = col(0).plus(col(1).times(Expr::constant(3))).minus(Expr::one());
    let c = e.clone();
    assert_eq!(e, c);
    let w = window_with(vec![4, 5]);
    assert_eq!(c.evaluate(&w), 4 + 15 - 1);
}
