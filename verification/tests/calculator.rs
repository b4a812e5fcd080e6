use pda_ledger::calculator::{Calculator, Operation, OperationType};

#[test]
fn signs_are_rendered() {
    assert_eq!(OperationType::Addition.get_sign(), "+");
    assert_eq!(OperationType::Subtraction.get_sign(), "-");
    assert_eq!(OperationType::Multiplication.get_sign(), "*");
}

#[test]
fn perform_computes_exact_results() {
    assert_eq!(OperationType::Addition.perform(5, 3), Some(8));
    assert_eq!(OperationType::Subtraction.perform(10, 2), Some(8));
    assert_eq!(OperationType::Multiplication.perform(-4, 6), Some(-24));
}

#[test]
fn perform_refuses_overflow() {
    assert_eq!(OperationType::Addition.perform(i64::MAX, 1), None);
    assert_eq!(OperationType::Subtraction.perform(i64::MIN, 1), None);
    assert_eq!(OperationType::Multiplication.perform(i64::MAX, 2), None);
    assert_eq!(OperationType::Addition.perform(i64::MAX, 0), Some(i64::MAX));
}

#[test]
fn operation_new_keeps_fields() {
    let op = Operation::new(7, -2, OperationType::Multiplication);
    assert_eq!(op.first_num, 7);
    assert_eq!(op.second_num, -2);
    assert!(matches!(op.operation_type, OperationType::Multiplication));
}

#[test]
fn successful_operations_enter_history() {
    let mut c = Calculator::new();
    assert_eq!(c.addition(5, 3), Some(8));
    assert_eq!(c.subtraction(10, 2), Some(8));
    assert_eq!(c.history.len(), 2);
}

#[test]
fn failed_operations_stay_out_of_history() {
    let mut c = Calculator::new();
    assert_eq!(c.addition(i64::MAX, 1), None);
    assert_eq!(c.multiplication(i64::MIN, -1), None);
    assert_eq!(c.history.len(), 0);
}

#[test]
fn history_renders_line_by_line() {
    let mut c = Calculator::new();
    c.addition(5, 3);
    c.subtraction(10, 2);
    assert_eq!(c.show_history(), "0: 5 + 3 = 8\n1: 10 - 2 = 8\n");
}

#[test]
fn empty_history_renders_empty() {
    let c = Calculator::new();
    assert_eq!(c.show_history(), "");
}

#[test]
fn repeat_appends_a_new_entry() {
    let mut c = Calculator::new();
    c.multiplication(6, 7);
    assert_eq!(c.repeat(0), Some(42));
    assert_eq!(c.history.len(), 2);
    assert_eq!(c.show_history(), "0: 6 * 7 = 42\n1: 6 * 7 = 42\n");
}

#[test]
fn repeat_refuses_an_invalid_index() {
    let mut c = Calculator::new();
    c.addition(1, 1);
    assert_eq!(c.repeat(5), None);
    assert_eq!(c.history.len(), 1);
}

#[test]
fn clear_history_empties_the_record() {
    let mut c = Calculator::new();
    c.addition(1, 2);
    c.addition(3, 4);
    c.clear_history();
    assert_eq!(c.history.len(), 0);
    assert_eq!(c.show_history(), "");
}
