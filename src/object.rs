use vstd::prelude::*;
use vstd::string::*;
use crate::error::RakiError;

verus! {

/// A runtime value. Numbers are of type `N`: the arithmetic on them is
/// left to the caller, which receives it as an `Evaluation::Numeric` or
/// `Evaluation::Negate` request.
#[derive(Debug, PartialEq, Clone)]
pub enum Object<N> {
    Number(N),
    String(String),
    Boolean(bool),
    Nil,
}

/// A runtime value, with its text as a sequence of characters.
pub enum ObjectView<N> {
    Number(N),
    String(Seq<char>),
    Boolean(bool),
    Nil,
}

impl<N> View for Object<N> {
    type V = ObjectView<N>;

    open spec fn view(&self) -> ObjectView<N> {
        match self {
            Object::Number(n) => ObjectView::Number(*n),
            Object::String(s) => ObjectView::String(s@),
            Object::Boolean(b) => ObjectView::Boolean(*b),
            Object::Nil => ObjectView::Nil,
        }
    }
}

/// An operation on two numbers.
#[derive(Debug, PartialEq, Eq, Clone, Copy, Structural)]
pub enum NumericOp {
    Add,
    Sub,
    Mul,
    Div,
    Greater,
    GreaterEqual,
    Less,
    LessEqual,
    Equal,
    NotEqual,
}

/// The result of applying an operator to values: a value, or the numeric
/// operation that gives it.
#[derive(Debug, PartialEq, Clone)]
pub enum Evaluation<N> {
    Done(Object<N>),
    Negate(N),
    Numeric(NumericOp, N, N),
}

/// What applying an operator yields, as mathematical values; `Fails` is a
/// runtime error.
pub enum Outcome<N> {
    Done(ObjectView<N>),
    Negate(N),
    Numeric(NumericOp, N, N),
    Fails,
}

pub open spec fn outcome<N>(r: Result<Evaluation<N>, RakiError>) -> Outcome<N> {
    match r {
        Ok(Evaluation::Done(o)) => Outcome::Done(o@),
        Ok(Evaluation::Negate(n)) => Outcome::Negate(n),
        Ok(Evaluation::Numeric(op, a, b)) => Outcome::Numeric(op, a, b),
        Err(_) => Outcome::Fails,
    }
}

/// Whether `r` is a runtime error or not an error at all.
pub open spec fn fails_at_runtime<T>(r: Result<T, RakiError>) -> bool {
    match r {
        Ok(_) => true,
        Err(e) => e == RakiError::Runtime {  },
    }
}

/// An arithmetic operator that takes two numbers.
pub open spec fn numeric_rule<N>(op: NumericOp, l: ObjectView<N>, r: ObjectView<N>) -> Outcome<N> {
    match (l, r) {
        (ObjectView::Number(a), ObjectView::Number(b)) => Outcome::Numeric(op, a, b),
        _ => Outcome::Fails,
    }
}

/// `+`: numbers are added, strings joined.
pub open spec fn add_rule<N>(l: ObjectView<N>, r: ObjectView<N>) -> Outcome<N> {
    match (l, r) {
        (ObjectView::Number(a), ObjectView::Number(b)) => Outcome::Numeric(NumericOp::Add, a, b),
        (ObjectView::String(a), ObjectView::String(b)) => Outcome::Done(ObjectView::String(a + b)),
        _ => Outcome::Fails,
    }
}

/// `==`: numbers are compared as numbers; other values are equal when they
/// are of one kind and hold the same value.
pub open spec fn equal_rule<N>(l: ObjectView<N>, r: ObjectView<N>) -> Outcome<N> {
    match (l, r) {
        (ObjectView::Number(a), ObjectView::Number(b)) => Outcome::Numeric(NumericOp::Equal, a, b),
        _ => Outcome::Done(ObjectView::Boolean(l == r)),
    }
}

/// `!=`: the negation of `==`.
pub open spec fn not_equal_rule<N>(l: ObjectView<N>, r: ObjectView<N>) -> Outcome<N> {
    match (l, r) {
        (ObjectView::Number(a), ObjectView::Number(b)) => Outcome::Numeric(NumericOp::NotEqual, a, b),
        _ => Outcome::Done(ObjectView::Boolean(l != r)),
    }
}

fn runtime_error() -> (r: RakiError)
    ensures
        r == (RakiError::Runtime {  }),
{
    RakiError::Runtime {  }
}

impl<N> Object<N> {
    /// `self + rhs`.
    pub fn add(self, rhs: Object<N>) -> (r: Result<Evaluation<N>, RakiError>)
        ensures
            outcome(r) == add_rule(self@, rhs@),
            fails_at_runtime(r),
    {
        match (self, rhs) {
            (Object::Number(a), Object::Number(b)) => Ok(Evaluation::Numeric(NumericOp::Add, a, b)),
            (Object::String(a), Object::String(b)) => {
                let mut s = a;
                s.append(b.as_str());
                Ok(Evaluation::Done(Object::String(s)))
            },
            _ => Err(runtime_error()),
        }
    }

    /// Applies `op`, which takes two numbers, to `self` and `rhs`.
    pub fn numeric(self, op: NumericOp, rhs: Object<N>) -> (r: Result<Evaluation<N>, RakiError>)
        ensures
            outcome(r) == numeric_rule(op, self@, rhs@),
            fails_at_runtime(r),
    {
        match (self, rhs) {
            (Object::Number(a), Object::Number(b)) => Ok(Evaluation::Numeric(op, a, b)),
            _ => Err(runtime_error()),
        }
    }

    /// `self == rhs`.
    pub fn equals(self, rhs: Object<N>) -> (r: Evaluation<N>)
        ensures
            outcome::<N>(Ok(r)) == equal_rule(self@, rhs@),
    {
        match (self, rhs) {
            (Object::Number(a), Object::Number(b)) => Evaluation::Numeric(NumericOp::Equal, a, b),
            (Object::String(a), Object::String(b)) => Evaluation::Done(Object::Boolean(a == b)),
            (Object::Boolean(a), Object::Boolean(b)) => Evaluation::Done(Object::Boolean(a == b)),
            (Object::Nil, Object::Nil) => Evaluation::Done(Object::Boolean(true)),
            _ => Evaluation::Done(Object::Boolean(false)),
        }
    }

    /// `self != rhs`.
    pub fn not_equals(self, rhs: Object<N>) -> (r: Evaluation<N>)
        ensures
            outcome::<N>(Ok(r)) == not_equal_rule(self@, rhs@),
    {
        match (self, rhs) {
            (Object::Number(a), Object::Number(b)) => Evaluation::Numeric(NumericOp::NotEqual, a, b),
            (Object::String(a), Object::String(b)) => Evaluation::Done(Object::Boolean(a != b)),
            (Object::Boolean(a), Object::Boolean(b)) => Evaluation::Done(Object::Boolean(a != b)),
            (Object::Nil, Object::Nil) => Evaluation::Done(Object::Boolean(false)),
            _ => Evaluation::Done(Object::Boolean(true)),
        }
    }
}

} // verus!
