//! The closed set of operations, and how a request is matched against it.

use vstd::prelude::*;
use crate::error::ErrorKind;
use crate::request::{Argument, ArgumentView, Request, RequestView, Value, ValueView};

verus! {

/// An operation together with the arguments it was asked with.
#[derive(Clone, Copy, Debug, PartialEq, Eq, Structural)]
pub enum Operation {
    /// The sum of two integers. Needs nothing outside the service.
    Add { a: i32, b: i32 },
    /// A fixed read-only question to the external data source, which answers
    /// with one integer. Takes no arguments.
    Probe,
}

impl Operation {
    /// The name by which a request asks for this operation.
    pub open spec fn spec_name(self) -> Seq<char> {
        match self {
            Operation::Add { .. } => "add"@,
            Operation::Probe => "probe"@,
        }
    }

    /// The name by which a request asks for this operation.
    pub fn name(&self) -> (out: &'static str)
        ensures
            out@ == self.spec_name(),
    {
        match self {
            Operation::Add { .. } => "add",
            Operation::Probe => "probe",
        }
    }

    /// Whether the operation has to ask the external data source.
    pub open spec fn spec_needs_source(self) -> bool {
        self is Probe
    }

    /// Whether the operation has to ask the external data source.
    pub fn needs_source(&self) -> (out: bool)
        ensures
            out == self.spec_needs_source(),
    {
        match self {
            Operation::Add { .. } => false,
            Operation::Probe => true,
        }
    }
}

/// The integer that `arg` gives to the parameter `name`: `Some` exactly when
/// the argument has that name and holds an integer.
pub open spec fn int_for(arg: ArgumentView, name: Seq<char>) -> Option<i32> {
    match arg.value {
        ValueView::Int(n) if arg.name == name => Some(n),
        _ => None,
    }
}

/// The operands `(a, b)` that `args` give to `add`: `Some` exactly when there
/// are two arguments, one an integer named `a` and the other an integer named
/// `b`, in either order.
pub open spec fn add_operands(args: Seq<ArgumentView>) -> Option<(i32, i32)> {
    if args.len() != 2 {
        None
    } else if int_for(args[0], "a"@).is_some() && int_for(args[1], "b"@).is_some() {
        Some((int_for(args[0], "a"@).unwrap(), int_for(args[1], "b"@).unwrap()))
    } else if int_for(args[1], "a"@).is_some() && int_for(args[0], "b"@).is_some() {
        Some((int_for(args[1], "a"@).unwrap(), int_for(args[0], "b"@).unwrap()))
    } else {
        None
    }
}

/// What a request resolves to. The name is looked at first: an unknown name
/// is `NotFound` whatever the arguments are. Arguments that do not fit the
/// named operation are `InvalidArgument`.
pub open spec fn resolution(request: RequestView) -> Result<Operation, ErrorKind> {
    if request.op == "add"@ {
        match add_operands(request.args) {
            Some((a, b)) => Ok(Operation::Add { a, b }),
            None => Err(ErrorKind::InvalidArgument),
        }
    } else if request.op == "probe"@ {
        if request.args.len() == 0 {
            Ok(Operation::Probe)
        } else {
            Err(ErrorKind::InvalidArgument)
        }
    } else {
        Err(ErrorKind::NotFound)
    }
}

/// The two operations have different names, and so have the two operands
/// of `add`.
pub proof fn lemma_names_differ()
    ensures
        "add"@ != "probe"@,
        "a"@ != "b"@,
{
    reveal_strlit("add");
    reveal_strlit("probe");
    reveal_strlit("a");
    reveal_strlit("b");
    assert("add"@.len() == 3);
    assert("probe"@.len() == 5);
    assert("a"@[0] == 'a');
    assert("b"@[0] == 'b');
}

/// Whether `text` reads exactly as `word`.
fn reads_as(text: &String, word: &str) -> (out: bool)
    ensures
        out == (text@ == word@),
{
    let owned: String = word.to_owned();
    *text == owned
}

/// The integer that `arg` gives to the parameter `name`, if it gives one.
pub fn int_argument(arg: &Argument, name: &str) -> (out: Option<i32>)
    ensures
        out == int_for(arg@, name@),
{
    match &arg.value {
        Value::Int(n) => {
            if reads_as(&arg.name, name) {
                Some(*n)
            } else {
                None
            }
        },
        _ => None,
    }
}

/// The operands that `args` give to `add`, if they have its shape.
pub fn operands_of_add(args: &Vec<Argument>) -> (out: Option<(i32, i32)>)
    ensures
        out == add_operands(args@.map_values(|a: Argument| a@)),
{
    if args.len() != 2 {
        return None;
    }
    let first = &args[0];
    let second = &args[1];
    match (int_argument(first, "a"), int_argument(second, "b")) {
        (Some(a), Some(b)) => Some((a, b)),
        _ => match (int_argument(second, "a"), int_argument(first, "b")) {
            (Some(a), Some(b)) => Some((a, b)),
            _ => None,
        },
    }
}

/// Matches a request against the set of operations.
///
/// Returns the operation with its arguments, `NotFound` where no operation
/// has the requested name, and `InvalidArgument` where the name is known and
/// the arguments do not fit it.
pub fn resolve(request: &Request) -> (out: Result<Operation, ErrorKind>)
    ensures
        out == resolution(request@),
{
    if reads_as(&request.op, "add") {
        match operands_of_add(&request.args) {
            Some((a, b)) => Ok(Operation::Add { a, b }),
            None => Err(ErrorKind::InvalidArgument),
        }
    } else if reads_as(&request.op, "probe") {
        if request.args.len() == 0 {
            Ok(Operation::Probe)
        } else {
            Err(ErrorKind::InvalidArgument)
        }
    } else {
        Err(ErrorKind::NotFound)
    }
}

} // verus!
