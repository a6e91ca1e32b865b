//! Requests: the name of an operation and the arguments handed to it.

use vstd::prelude::*;

verus! {

/// The value of one argument, as the transport decoded it.
#[derive(Clone, Debug)]
pub enum Value {
    /// A signed 32-bit integer.
    Int(i32),
    /// A truth value.
    Bool(bool),
    /// A piece of text.
    Text(String),
    /// An explicit absence of a value.
    Null,
    /// Anything else the transport can carry: a fraction, an integer that
    /// does not fit 32 bits, a list, a nested object.
    Unsupported,
}

/// What a [`Value`] stands for in contracts.
pub ghost enum ValueView {
    Int(i32),
    Bool(bool),
    Text(Seq<char>),
    Null,
    Unsupported,
}

impl View for Value {
    type V = ValueView;

    open spec fn view(&self) -> ValueView {
        match self {
            Value::Int(n) => ValueView::Int(*n),
            Value::Bool(b) => ValueView::Bool(*b),
            Value::Text(s) => ValueView::Text(s@),
            Value::Null => ValueView::Null,
            Value::Unsupported => ValueView::Unsupported,
        }
    }
}

impl Value {
    /// The argument value for an integer of any size: an integer argument
    /// where it fits 32 bits, and `Unsupported` where it does not.
    pub fn from_integer(n: i64) -> (out: Value)
        ensures
            out@ == (if i32::MIN <= n <= i32::MAX {
                ValueView::Int(n as i32)
            } else {
                ValueView::Unsupported
            }),
    {
        if -2147483648 <= n && n <= 2147483647 {
            Value::Int(n as i32)
        } else {
            Value::Unsupported
        }
    }
}

/// One named argument of a request.
#[derive(Clone, Debug)]
pub struct Argument {
    pub name: String,
    pub value: Value,
}

/// What an [`Argument`] stands for in contracts.
pub ghost struct ArgumentView {
    pub name: Seq<char>,
    pub value: ValueView,
}

impl View for Argument {
    type V = ArgumentView;

    open spec fn view(&self) -> ArgumentView {
        ArgumentView { name: self.name@, value: self.value@ }
    }
}

impl Argument {
    /// An argument with the given name and value.
    pub fn new(name: String, value: Value) -> (out: Argument)
        ensures
            out@ == (ArgumentView { name: name@, value: value@ }),
    {
        Argument { name, value }
    }

    /// An integer argument with the given name.
    pub fn integer(name: &str, value: i32) -> (out: Argument)
        ensures
            out@ == (ArgumentView { name: name@, value: ValueView::Int(value) }),
    {
        Argument { name: name.to_owned(), value: Value::Int(value) }
    }

    /// A text argument with the given name.
    pub fn text(name: &str, value: &str) -> (out: Argument)
        ensures
            out@ == (ArgumentView { name: name@, value: ValueView::Text(value@) }),
    {
        Argument { name: name.to_owned(), value: Value::Text(value.to_owned()) }
    }
}

/// A request: the name of the operation asked for, and its arguments in the
/// order in which the caller gave them.
#[derive(Clone, Debug)]
pub struct Request {
    pub op: String,
    pub args: Vec<Argument>,
}

/// What a [`Request`] stands for in contracts.
pub ghost struct RequestView {
    pub op: Seq<char>,
    pub args: Seq<ArgumentView>,
}

impl View for Request {
    type V = RequestView;

    open spec fn view(&self) -> RequestView {
        RequestView { op: self.op@, args: self.args@.map_values(|a: Argument| a@) }
    }
}

impl Request {
    /// A request for the operation `op` with the arguments `args`.
    pub fn new(op: &str, args: Vec<Argument>) -> (out: Request)
        ensures
            out@.op == op@,
            out@.args == args@.map_values(|a: Argument| a@),
    {
        Request { op: op.to_owned(), args }
    }

    /// The name of the operation asked for.
    pub fn op(&self) -> (out: &String)
        ensures
            out@ == self@.op,
    {
        &self.op
    }

    /// How many arguments the request carries.
    pub fn arity(&self) -> (out: usize)
        ensures
            out == self@.args.len(),
    {
        self.args.len()
    }

    /// The argument at position `i`, if the request has that many.
    pub fn arg(&self, i: usize) -> (out: Option<&Argument>)
        ensures
            i < self@.args.len() ==> out.is_some() && out.unwrap()@ == self@.args[i as int],
            i >= self@.args.len() ==> out.is_none(),
    {
        if i < self.args.len() {
            Some(&self.args[i])
        } else {
            None
        }
    }
}

} // verus!
