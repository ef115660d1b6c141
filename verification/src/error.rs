//! Classified failures: build-time (malformed declarations) and run-time
//! (argument resolution), plus the error a built-in call surfaces to the
//! interpreter.

use vstd::prelude::*;
use crate::value::ValueType;

verus! {

/// A failure while analyzing a native function's declaration. These abort
/// generation for that function at build time; they never reach a running
/// script.
#[derive(Debug, PartialEq, Eq)]
pub enum BuildError {
    /// The text of the annotation list does not follow the annotation
    /// syntax.
    MalformedAnnotationSyntax,
    /// The parameter at `position` is an implicit receiver (a self-like
    /// first parameter), which the binding mechanism does not support.
    ReceiverParameter { position: usize },
    /// The parameter at `position` is bound by a pattern that is not a
    /// simple identifier (for example a destructuring pattern).
    NonIdentifierPattern { position: usize },
    /// A binding annotation references `name`, which is not the identifier
    /// of any declared parameter.
    UnknownAnnotationTarget { name: String },
}

/// A classified failure while locating or converting one argument at run
/// time. The binding prologue returns the first such error without running
/// the function body.
#[derive(Debug, PartialEq, Eq)]
pub enum ResolutionError {
    /// A required positional parameter had no value at its position: the
    /// call supplied `got` positional arguments where the function requires
    /// `expected`. This is the wrong-argument-count failure.
    MissingRequiredPositional { expected: usize, got: usize },
    /// No value was supplied under `name` for a required named parameter
    /// (for a maybe-named parameter: neither under its name nor at its
    /// position).
    MissingRequiredNamed { name: String },
    /// A value was supplied but its dynamic type does not convert to the
    /// declared type without truncation or reinterpretation.
    WrongType { expected: ValueType, found: ValueType },
}

/// The mathematical content of a [`ResolutionError`]: strings as character
/// sequences, counts as unbounded integers.
pub enum ResolutionErrorView {
    MissingRequiredPositional { expected: int, got: int },
    MissingRequiredNamed { name: Seq<char> },
    WrongType { expected: ValueType, found: ValueType },
}

impl View for ResolutionError {
    type V = ResolutionErrorView;

    open spec fn view(&self) -> ResolutionErrorView {
        match self {
            ResolutionError::MissingRequiredPositional { expected, got } => {
                ResolutionErrorView::MissingRequiredPositional {
                    expected: *expected as int,
                    got: *got as int,
                }
            },
            ResolutionError::MissingRequiredNamed { name } => {
                ResolutionErrorView::MissingRequiredNamed { name: name@ }
            },
            ResolutionError::WrongType { expected, found } => {
                ResolutionErrorView::WrongType { expected: *expected, found: *found }
            },
        }
    }
}

/// A failure surfaced to the interpreter by a built-in function call.
/// Binding failures (`Argument`) and structurally invalid argument values
/// (`WrongArgument`) are scripting errors; `Dirty` failures are opaque
/// run-time conditions raised by the body after binding succeeded.
#[derive(Debug, PartialEq, Eq)]
pub enum FnError {
    /// Argument resolution failed; the function body never ran.
    Argument(ResolutionError),
    /// The body rejected an argument whose shape is invalid, such as an
    /// unrecognized enumerated value.
    WrongArgument(String),
    /// An opaque validation failure raised by the body.
    Dirty(String),
}

} // verus!
