//! What holds of the service for every request.

use vstd::prelude::*;
use crate::error::ErrorKind;
use crate::operation::{add_operands, int_for, lemma_names_differ, resolution, Operation};
use crate::request::{ArgumentView, RequestView, ValueView};
use crate::service::{conclusion, first_step, reply, ProbeOutcome, Response, Step};

verus! {

/// Some argument of `args` is the integer `value` under the name `name`.
pub open spec fn binds(args: Seq<ArgumentView>, name: Seq<char>, value: i32) -> bool {
    exists|i: int|
        0 <= i < args.len() && #[trigger] args[i] == (ArgumentView {
            name,
            value: ValueView::Int(value),
        })
}

/// `args` are the arguments of `add` for the operands `a` and `b`: two
/// arguments, among them the integer `a` named `a` and the integer `b`
/// named `b`.
pub open spec fn gives_add(args: Seq<ArgumentView>, a: i32, b: i32) -> bool {
    args.len() == 2 && binds(args, "a"@, a) && binds(args, "b"@, b)
}

/// Some argument of `args` does not hold an integer.
pub open spec fn has_non_integer(args: Seq<ArgumentView>) -> bool {
    exists|i: int| 0 <= i < args.len() && !((#[trigger] args[i]).value is Int)
}

/// The operands of `add` are found exactly in the arguments that give them,
/// whichever of the two comes first.
pub proof fn law_add_operands(args: Seq<ArgumentView>, a: i32, b: i32)
    ensures
        add_operands(args) == Some((a, b)) <==> gives_add(args, a, b),
{
    lemma_names_differ();
    if add_operands(args) == Some((a, b)) {
        if int_for(args[0], "a"@).is_some() && int_for(args[1], "b"@).is_some() {
            assert(args[0] == (ArgumentView { name: "a"@, value: ValueView::Int(a) }));
            assert(args[1] == (ArgumentView { name: "b"@, value: ValueView::Int(b) }));
        } else {
            assert(args[1] == (ArgumentView { name: "a"@, value: ValueView::Int(a) }));
            assert(args[0] == (ArgumentView { name: "b"@, value: ValueView::Int(b) }));
        }
    }
    if gives_add(args, a, b) {
        let i = choose|i: int|
            0 <= i < args.len() && #[trigger] args[i] == (ArgumentView {
                name: "a"@,
                value: ValueView::Int(a),
            });
        let j = choose|j: int|
            0 <= j < args.len() && #[trigger] args[j] == (ArgumentView {
                name: "b"@,
                value: ValueView::Int(b),
            });
        assert(i != j);
    }
}

/// `add` returns the exact sum of its operands, negative ones and zero
/// included, with or without an external data source.
pub proof fn law_add_is_exact(request: RequestView, a: i32, b: i32, source: bool)
    requires
        request.op == "add"@,
        gives_add(request.args, a, b),
    ensures
        first_step(request, source) matches Step::Reply(Response::Value(v)) && v == a + b,
        reply(request) matches Response::Value(v) && v == a + b,
{
    law_add_operands(request.args, a, b);
}

/// The response to `add` depends on its two operands alone: not on the order
/// of the arguments, not on the external data source, and not on any other
/// request.
pub proof fn law_add_depends_on_operands_alone(
    first: RequestView,
    second: RequestView,
    a: i32,
    b: i32,
    first_source: bool,
    second_source: bool,
)
    requires
        first.op == "add"@,
        second.op == "add"@,
        gives_add(first.args, a, b),
        gives_add(second.args, a, b),
    ensures
        first_step(first, first_source) == first_step(second, second_source),
        reply(first) == reply(second),
{
    law_add_is_exact(first, a, b, first_source);
    law_add_is_exact(second, a, b, second_source);
}

/// A request for a name that no operation has is answered `NotFound`,
/// whatever its arguments are, and the external data source is not asked.
pub proof fn law_unknown_name_is_not_found(request: RequestView, source: bool)
    requires
        request.op != "add"@,
        request.op != "probe"@,
    ensures
        resolution(request) == Err::<Operation, ErrorKind>(ErrorKind::NotFound),
        first_step(request, source) == Step::Reply(Response::Error(ErrorKind::NotFound)),
        reply(request) == Response::Error(ErrorKind::NotFound),
{
}

/// `add` with an argument missing, with one too many, or with one that is
/// not an integer is answered `InvalidArgument`.
pub proof fn law_add_rejects_wrong_shape(request: RequestView, source: bool)
    requires
        request.op == "add"@,
        request.args.len() != 2 || has_non_integer(request.args),
    ensures
        first_step(request, source) == Step::Reply(Response::Error(ErrorKind::InvalidArgument)),
        reply(request) == Response::Error(ErrorKind::InvalidArgument),
{
}

/// `add` with arguments that do not give it two operands is answered
/// `InvalidArgument`, and with arguments that do, never.
pub proof fn law_add_invalid_argument(request: RequestView, source: bool)
    requires
        request.op == "add"@,
    ensures
        first_step(request, source) == Step::Reply(Response::Error(ErrorKind::InvalidArgument))
            <==> !exists|a: i32, b: i32| gives_add(request.args, a, b),
{
    if add_operands(request.args).is_some() {
        let (a, b) = add_operands(request.args).unwrap();
        law_add_operands(request.args, a, b);
    }
    if exists|a: i32, b: i32| gives_add(request.args, a, b) {
        let (a, b) = choose|a: i32, b: i32| gives_add(request.args, a, b);
        law_add_operands(request.args, a, b);
    }
}

/// The external data source is asked only for a valid `probe` request in a
/// service that has a source: every invalid request is rejected before, and
/// `add` never waits for it.
pub proof fn law_source_asked_only_for_probe(request: RequestView, source: bool)
    ensures
        first_step(request, source) == Step::Probe <==> source && request.op == "probe"@
            && request.args.len() == 0,
{
    lemma_names_differ();
}

/// Whether the service has an external data source matters to `probe`
/// alone: every other request gets the response it would get without one.
pub proof fn law_source_matters_only_for_probe(request: RequestView, source: bool)
    requires
        resolution(request) != Ok::<Operation, ErrorKind>(Operation::Probe),
    ensures
        first_step(request, source) == Step::Reply(reply(request)),
{
}

/// A source that cannot be reached, a pool without a free connection and a
/// timeout all end in `Unavailable`; only an integer from the source ends in
/// a value, and that value is the integer.
pub proof fn law_probe_conclusions(outcome: ProbeOutcome)
    ensures
        (outcome is Unreachable || outcome is PoolExhausted || outcome is TimedOut)
            <==> conclusion(outcome) == Response::Error(ErrorKind::Unavailable),
        (outcome is Empty || outcome is Failed)
            <==> conclusion(outcome) == Response::Error(ErrorKind::Internal),
        forall|n: i32| outcome == ProbeOutcome::Scalar(n)
            <==> conclusion(outcome) == Response::Value(n as i64),
        !(conclusion(outcome) == Response::Error(ErrorKind::NotFound)),
        !(conclusion(outcome) == Response::Error(ErrorKind::InvalidArgument)),
{
}

/// Without an external data source, `probe` is answered `Unavailable`.
pub proof fn law_probe_without_source(request: RequestView)
    requires
        request.op == "probe"@,
        request.args.len() == 0,
    ensures
        reply(request) == Response::Error(ErrorKind::Unavailable),
{
    lemma_names_differ();
}

} // verus!
