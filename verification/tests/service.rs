use query_service::error::ErrorKind;
use query_service::operation::{int_argument, operands_of_add, resolve, Operation};
use query_service::request::{Argument, Request, Value};
use query_service::service::{
    begin, execute, execute_with, finish, sum, ProbeOutcome, Response, Step,
};
use std::cell::Cell;

fn add_request(a: i32, b: i32) -> Request {
    Request::new("add", vec![Argument::integer("a", a), Argument::integer("b", b)])
}

fn probe_request() -> Request {
    Request::new("probe", vec![])
}

#[test]
fn add_two_and_three_is_five() {
    assert_eq!(execute(&add_request(2, 3)), Response::Value(5));
}

#[test]
fn add_minus_one_and_one_is_zero() {
    assert_eq!(execute(&add_request(-1, 1)), Response::Value(0));
}

#[test]
fn add_of_zeros_is_zero() {
    assert_eq!(execute(&add_request(0, 0)), Response::Value(0));
}

#[test]
fn add_of_negatives() {
    assert_eq!(execute(&add_request(-7, -35)), Response::Value(-42));
}

#[test]
fn add_is_exact_at_the_upper_limit() {
    assert_eq!(execute(&add_request(i32::MAX, i32::MAX)), Response::Value(4294967294));
    assert_eq!(execute(&add_request(i32::MAX, 1)), Response::Value(2147483648));
}

#[test]
fn add_is_exact_at_the_lower_limit() {
    assert_eq!(execute(&add_request(i32::MIN, i32::MIN)), Response::Value(-4294967296));
    assert_eq!(execute(&add_request(i32::MIN, -1)), Response::Value(-2147483649));
}

#[test]
fn add_takes_its_arguments_in_either_order() {
    let swapped = Request::new("add", vec![Argument::integer("b", 3), Argument::integer("a", 10)]);
    assert_eq!(execute(&swapped), Response::Value(13));
    assert_eq!(resolve(&swapped), Ok(Operation::Add { a: 10, b: 3 }));
    assert_eq!(execute(&swapped), execute(&add_request(10, 3)));
}

#[test]
fn add_does_not_depend_on_the_source() {
    let request = add_request(20, 22);
    assert_eq!(begin(&request, false), Step::Reply(Response::Value(42)));
    assert_eq!(begin(&request, true), Step::Reply(Response::Value(42)));
}

#[test]
fn add_calls_are_independent() {
    let first = add_request(1, 2);
    let second = add_request(100, 200);
    let before = execute(&first);
    assert_eq!(execute(&second), Response::Value(300));
    assert_eq!(execute(&first), before);
    assert_eq!(before, Response::Value(3));
}

#[test]
fn unknown_operation_is_not_found() {
    let request = Request::new("unknown", vec![]);
    assert_eq!(execute(&request), Response::Error(ErrorKind::NotFound));
    assert_eq!(resolve(&request), Err(ErrorKind::NotFound));
}

#[test]
fn unknown_operation_with_arguments_is_not_found() {
    let request =
        Request::new("subtract", vec![Argument::integer("a", 1), Argument::integer("b", 2)]);
    assert_eq!(execute(&request), Response::Error(ErrorKind::NotFound));
    assert_eq!(begin(&request, true), Step::Reply(Response::Error(ErrorKind::NotFound)));
}

#[test]
fn operation_names_are_case_sensitive() {
    let request = Request::new("Add", vec![Argument::integer("a", 1), Argument::integer("b", 2)]);
    assert_eq!(execute(&request), Response::Error(ErrorKind::NotFound));
    assert_eq!(execute(&Request::new("", vec![])), Response::Error(ErrorKind::NotFound));
}

#[test]
fn add_with_text_argument_is_invalid() {
    let request = Request::new("add", vec![Argument::text("a", "x")]);
    assert_eq!(execute(&request), Response::Error(ErrorKind::InvalidArgument));
}

#[test]
fn add_with_text_in_place_of_one_operand_is_invalid() {
    let request = Request::new("add", vec![Argument::integer("a", 1), Argument::text("b", "2")]);
    assert_eq!(execute(&request), Response::Error(ErrorKind::InvalidArgument));
    let request = Request::new("add", vec![Argument::text("a", "1"), Argument::integer("b", 2)]);
    assert_eq!(execute(&request), Response::Error(ErrorKind::InvalidArgument));
}

#[test]
fn add_with_other_kinds_of_value_is_invalid() {
    for value in [Value::Bool(true), Value::Null, Value::Unsupported] {
        let request = Request::new(
            "add",
            vec![Argument::integer("a", 1), Argument::new("b".to_string(), value)],
        );
        assert_eq!(execute(&request), Response::Error(ErrorKind::InvalidArgument));
    }
}

#[test]
fn add_without_arguments_is_invalid() {
    assert_eq!(execute(&Request::new("add", vec![])), Response::Error(ErrorKind::InvalidArgument));
}

#[test]
fn add_with_a_missing_operand_is_invalid() {
    let request = Request::new("add", vec![Argument::integer("a", 1)]);
    assert_eq!(execute(&request), Response::Error(ErrorKind::InvalidArgument));
}

#[test]
fn add_with_an_extra_argument_is_invalid() {
    let request = Request::new(
        "add",
        vec![Argument::integer("a", 1), Argument::integer("b", 2), Argument::integer("c", 3)],
    );
    assert_eq!(execute(&request), Response::Error(ErrorKind::InvalidArgument));
}

#[test]
fn add_with_a_repeated_operand_is_invalid() {
    let request = Request::new("add", vec![Argument::integer("a", 1), Argument::integer("a", 2)]);
    assert_eq!(execute(&request), Response::Error(ErrorKind::InvalidArgument));
    let request = Request::new("add", vec![Argument::integer("b", 1), Argument::integer("b", 2)]);
    assert_eq!(execute(&request), Response::Error(ErrorKind::InvalidArgument));
}

#[test]
fn add_with_wrongly_named_operands_is_invalid() {
    let request = Request::new("add", vec![Argument::integer("x", 1), Argument::integer("y", 2)]);
    assert_eq!(execute(&request), Response::Error(ErrorKind::InvalidArgument));
    let request = Request::new("add", vec![Argument::integer("a", 1), Argument::integer("B", 2)]);
    assert_eq!(execute(&request), Response::Error(ErrorKind::InvalidArgument));
}

#[test]
fn probe_asks_the_source_where_there_is_one() {
    assert_eq!(begin(&probe_request(), true), Step::Probe);
    assert_eq!(resolve(&probe_request()), Ok(Operation::Probe));
}

#[test]
fn probe_without_a_source_is_unavailable() {
    assert_eq!(
        begin(&probe_request(), false),
        Step::Reply(Response::Error(ErrorKind::Unavailable))
    );
    assert_eq!(execute(&probe_request()), Response::Error(ErrorKind::Unavailable));
}

#[test]
fn probe_with_arguments_is_invalid() {
    let request = Request::new("probe", vec![Argument::integer("a", 1)]);
    assert_eq!(begin(&request, true), Step::Reply(Response::Error(ErrorKind::InvalidArgument)));
    assert_eq!(execute(&request), Response::Error(ErrorKind::InvalidArgument));
}

#[test]
fn unreachable_source_is_unavailable() {
    assert_eq!(finish(ProbeOutcome::Unreachable), Response::Error(ErrorKind::Unavailable));
    let out = execute_with(&probe_request(), || ProbeOutcome::Unreachable);
    assert_eq!(out, Response::Error(ErrorKind::Unavailable));
}

#[test]
fn exhausted_pool_and_timeout_are_unavailable() {
    assert_eq!(finish(ProbeOutcome::PoolExhausted), Response::Error(ErrorKind::Unavailable));
    assert_eq!(finish(ProbeOutcome::TimedOut), Response::Error(ErrorKind::Unavailable));
}

#[test]
fn unexpected_failures_are_internal() {
    assert_eq!(finish(ProbeOutcome::Failed), Response::Error(ErrorKind::Internal));
    assert_eq!(finish(ProbeOutcome::Empty), Response::Error(ErrorKind::Internal));
}

#[test]
fn probe_returns_the_scalar_it_retrieved() {
    assert_eq!(finish(ProbeOutcome::Scalar(1)), Response::Value(1));
    assert_eq!(finish(ProbeOutcome::Scalar(-17)), Response::Value(-17));
    assert_eq!(finish(ProbeOutcome::Scalar(i32::MIN)), Response::Value(-2147483648));
    let out = execute_with(&probe_request(), || ProbeOutcome::Scalar(7));
    assert_eq!(out, Response::Value(7));
}

#[test]
fn source_is_asked_once_for_probe() {
    let calls = Cell::new(0u32);
    let out = execute_with(&probe_request(), || {
        calls.set(calls.get() + 1);
        ProbeOutcome::Scalar(1)
    });
    assert_eq!(out, Response::Value(1));
    assert_eq!(calls.get(), 1);
}

#[test]
fn source_is_not_asked_for_other_requests() {
    let calls = Cell::new(0u32);
    let touch = || {
        calls.set(calls.get() + 1);
        ProbeOutcome::Failed
    };
    assert_eq!(execute_with(&add_request(2, 3), touch), Response::Value(5));
    let unknown = Request::new("unknown", vec![]);
    assert_eq!(execute_with(&unknown, touch), Response::Error(ErrorKind::NotFound));
    let bad = Request::new("probe", vec![Argument::text("a", "x")]);
    assert_eq!(execute_with(&bad, touch), Response::Error(ErrorKind::InvalidArgument));
    assert_eq!(calls.get(), 0);
}

#[test]
fn sum_is_exact() {
    assert_eq!(sum(2, 3), 5);
    assert_eq!(sum(-1, 1), 0);
    assert_eq!(sum(i32::MAX, i32::MAX), 4294967294);
    assert_eq!(sum(i32::MIN, i32::MIN), -4294967296);
}

#[test]
fn int_argument_wants_the_name_and_an_integer() {
    assert_eq!(int_argument(&Argument::integer("a", 5), "a"), Some(5));
    assert_eq!(int_argument(&Argument::integer("a", 5), "b"), None);
    assert_eq!(int_argument(&Argument::text("a", "5"), "a"), None);
}

#[test]
fn operands_of_add_in_both_orders() {
    let straight = vec![Argument::integer("a", 1), Argument::integer("b", 2)];
    let swapped = vec![Argument::integer("b", 2), Argument::integer("a", 1)];
    assert_eq!(operands_of_add(&straight), Some((1, 2)));
    assert_eq!(operands_of_add(&swapped), Some((1, 2)));
    assert_eq!(operands_of_add(&vec![Argument::integer("a", 1)]), None);
}

#[test]
fn operations_know_their_names_and_needs() {
    assert_eq!(Operation::Add { a: 1, b: 2 }.name(), "add");
    assert_eq!(Operation::Probe.name(), "probe");
    assert!(!Operation::Add { a: 1, b: 2 }.needs_source());
    assert!(Operation::Probe.needs_source());
}

#[test]
fn error_kinds_have_their_names() {
    assert_eq!(ErrorKind::InvalidArgument.name(), "InvalidArgument");
    assert_eq!(ErrorKind::NotFound.name(), "NotFound");
    assert_eq!(ErrorKind::Unavailable.name(), "Unavailable");
    assert_eq!(ErrorKind::Internal.name(), "Internal");
}

#[test]
fn request_hands_out_what_it_holds() {
    let request = add_request(4, 5);
    assert_eq!(request.op(), "add");
    assert_eq!(request.arity(), 2);
    let first = request.arg(0).unwrap();
    assert_eq!(first.name, "a");
    assert!(matches!(first.value, Value::Int(4)));
    let second = request.arg(1).unwrap();
    assert_eq!(second.name, "b");
    assert!(matches!(second.value, Value::Int(5)));
    assert!(request.arg(2).is_none());
}

#[test]
fn integers_beyond_32_bits_are_no_integer_arguments() {
    assert!(matches!(Value::from_integer(5), Value::Int(5)));
    assert!(matches!(Value::from_integer(-2147483648), Value::Int(i32::MIN)));
    assert!(matches!(Value::from_integer(2147483647), Value::Int(i32::MAX)));
    assert!(matches!(Value::from_integer(2147483648), Value::Unsupported));
    assert!(matches!(Value::from_integer(-2147483649), Value::Unsupported));
    let request = Request::new(
        "add",
        vec![
            Argument::new("a".to_string(), Value::from_integer(4294967296)),
            Argument::integer("b", 1),
        ],
    );
    assert_eq!(execute(&request), Response::Error(ErrorKind::InvalidArgument));
}
