//! The runtime resolver: six operations, one per combination of binding
//! kind and optionality, each locating a value in the register and checking
//! its dynamic type against the declared one.

use vstd::prelude::*;
use vstd::string::StringExecFns;
use crate::error::ResolutionError;
use crate::error::ResolutionErrorView;
use crate::generate::BindingStep;
use crate::generate::ResolverOp;
use crate::register::Register;
use crate::register::RegisterView;
use crate::value::NaslValue;
use crate::value::ValueType;

verus! {

/// What resolving a required positional parameter returns: the value at
/// `position` if it exists and has the declared type; the wrong-argument-count
/// error if it does not exist; the wrong-type error otherwise.
pub open spec fn positional_model(
    reg: RegisterView,
    position: usize,
    required_count: usize,
    expected: ValueType,
) -> Result<NaslValue, ResolutionErrorView> {
    if position < reg.positional.len() {
        let v = reg.positional[position as int];
        if v.type_of() == expected {
            Ok(v)
        } else {
            Err(ResolutionErrorView::WrongType { expected, found: v.type_of() })
        }
    } else {
        Err(ResolutionErrorView::MissingRequiredPositional {
            expected: required_count as int,
            got: reg.positional.len() as int,
        })
    }
}

/// As [`positional_model`], but an absent value resolves to the empty value.
pub open spec fn optional_positional_model(
    reg: RegisterView,
    position: usize,
    expected: ValueType,
) -> Result<Option<NaslValue>, ResolutionErrorView> {
    if position < reg.positional.len() {
        let v = reg.positional[position as int];
        if v.type_of() == expected {
            Ok(Some(v))
        } else {
            Err(ResolutionErrorView::WrongType { expected, found: v.type_of() })
        }
    } else {
        Ok(None)
    }
}

/// What resolving a required named parameter returns: the value under
/// `name`, the missing-required-named error if none was supplied, the
/// wrong-type error if one was but does not convert.
pub open spec fn named_model(reg: RegisterView, name: Seq<char>, expected: ValueType) -> Result<
    NaslValue,
    ResolutionErrorView,
> {
    if reg.named.contains_key(name) {
        let v = reg.named[name];
        if v.type_of() == expected {
            Ok(v)
        } else {
            Err(ResolutionErrorView::WrongType { expected, found: v.type_of() })
        }
    } else {
        Err(ResolutionErrorView::MissingRequiredNamed { name })
    }
}

/// As [`named_model`], but an absent value resolves to the empty value.
pub open spec fn optional_named_model(
    reg: RegisterView,
    name: Seq<char>,
    expected: ValueType,
) -> Result<Option<NaslValue>, ResolutionErrorView> {
    if reg.named.contains_key(name) {
        let v = reg.named[name];
        if v.type_of() == expected {
            Ok(Some(v))
        } else {
            Err(ResolutionErrorView::WrongType { expected, found: v.type_of() })
        }
    } else {
        Ok(None)
    }
}

/// What resolving a required maybe-named parameter returns: the value under
/// `name` if one was supplied, else the value at `position`; the named value
/// wins when both are supplied. Missing only when both lookups miss.
pub open spec fn maybe_named_model(
    reg: RegisterView,
    name: Seq<char>,
    position: usize,
    expected: ValueType,
) -> Result<NaslValue, ResolutionErrorView> {
    if reg.named.contains_key(name) {
        named_model(reg, name, expected)
    } else if position < reg.positional.len() {
        let v = reg.positional[position as int];
        if v.type_of() == expected {
            Ok(v)
        } else {
            Err(ResolutionErrorView::WrongType { expected, found: v.type_of() })
        }
    } else {
        Err(ResolutionErrorView::MissingRequiredNamed { name })
    }
}

/// As [`maybe_named_model`], with the same name-first precedence, but both
/// lookups missing resolves to the empty value.
pub open spec fn optional_maybe_named_model(
    reg: RegisterView,
    name: Seq<char>,
    position: usize,
    expected: ValueType,
) -> Result<Option<NaslValue>, ResolutionErrorView> {
    if reg.named.contains_key(name) {
        optional_named_model(reg, name, expected)
    } else if position < reg.positional.len() {
        let v = reg.positional[position as int];
        if v.type_of() == expected {
            Ok(Some(v))
        } else {
            Err(ResolutionErrorView::WrongType { expected, found: v.type_of() })
        }
    } else {
        Ok(None)
    }
}

/// What one binding step resolves to: the six operations above, with a
/// required parameter's value wrapped as a present one.
pub open spec fn resolve_model(step: BindingStep, reg: RegisterView) -> Result<
    Option<NaslValue>,
    ResolutionErrorView,
> {
    match step.op {
        ResolverOp::Positional { position, required_count } => {
            match positional_model(reg, position, required_count, step.expected) {
                Ok(v) => Ok(Some(v)),
                Err(e) => Err(e),
            }
        },
        ResolverOp::OptionalPositional { position } => {
            optional_positional_model(reg, position, step.expected)
        },
        ResolverOp::Named { name } => {
            match named_model(reg, name@, step.expected) {
                Ok(v) => Ok(Some(v)),
                Err(e) => Err(e),
            }
        },
        ResolverOp::OptionalNamed { name } => optional_named_model(reg, name@, step.expected),
        ResolverOp::MaybeNamed { name, position } => {
            match maybe_named_model(reg, name@, position, step.expected) {
                Ok(v) => Ok(Some(v)),
                Err(e) => Err(e),
            }
        },
        ResolverOp::OptionalMaybeNamed { name, position } => {
            optional_maybe_named_model(reg, name@, position, step.expected)
        },
    }
}

/// Whether an executable resolution result agrees with a model one: values
/// exactly, errors by their mathematical content.
pub open spec fn agrees(
    r: Result<NaslValue, ResolutionError>,
    m: Result<NaslValue, ResolutionErrorView>,
) -> bool {
    match r {
        Ok(v) => m == Ok::<NaslValue, ResolutionErrorView>(v),
        Err(e) => m == Err::<NaslValue, ResolutionErrorView>(e@),
    }
}

/// As [`agrees`], for the operations whose value may be absent.
pub open spec fn agrees_optional(
    r: Result<Option<NaslValue>, ResolutionError>,
    m: Result<Option<NaslValue>, ResolutionErrorView>,
) -> bool {
    match r {
        Ok(v) => m == Ok::<Option<NaslValue>, ResolutionErrorView>(v),
        Err(e) => m == Err::<Option<NaslValue>, ResolutionErrorView>(e@),
    }
}

/// Resolve a required positional parameter.
pub fn resolve_positional(
    reg: &Register,
    position: usize,
    required_count: usize,
    expected: ValueType,
) -> (r: Result<NaslValue, ResolutionError>)
    ensures
        agrees(r, positional_model(reg@, position, required_count, expected)),
{
    match reg.get_positional(position) {
        Some(v) => {
            if v.has_type(expected) {
                Ok(v.clone())
            } else {
                Err(ResolutionError::WrongType { expected, found: v.type_tag() })
            }
        },
        None => Err(
            ResolutionError::MissingRequiredPositional {
                expected: required_count,
                got: reg.num_positional(),
            },
        ),
    }
}

/// Resolve an optional positional parameter.
pub fn resolve_optional_positional(reg: &Register, position: usize, expected: ValueType) -> (r:
    Result<Option<NaslValue>, ResolutionError>)
    ensures
        agrees_optional(r, optional_positional_model(reg@, position, expected)),
{
    match reg.get_positional(position) {
        Some(v) => {
            if v.has_type(expected) {
                Ok(Some(v.clone()))
            } else {
                Err(ResolutionError::WrongType { expected, found: v.type_tag() })
            }
        },
        None => Ok(None),
    }
}

/// Resolve a required named parameter.
pub fn resolve_named(reg: &Register, name: &str, expected: ValueType) -> (r: Result<
    NaslValue,
    ResolutionError,
>)
    ensures
        agrees(r, named_model(reg@, name@, expected)),
{
    match reg.get_named(name) {
        Some(v) => {
            if v.has_type(expected) {
                Ok(v.clone())
            } else {
                Err(ResolutionError::WrongType { expected, found: v.type_tag() })
            }
        },
        None => Err(ResolutionError::MissingRequiredNamed { name: String::from_str(name) }),
    }
}

/// Resolve an optional named parameter.
pub fn resolve_optional_named(reg: &Register, name: &str, expected: ValueType) -> (r: Result<
    Option<NaslValue>,
    ResolutionError,
>)
    ensures
        agrees_optional(r, optional_named_model(reg@, name@, expected)),
{
    match reg.get_named(name) {
        Some(v) => {
            if v.has_type(expected) {
                Ok(Some(v.clone()))
            } else {
                Err(ResolutionError::WrongType { expected, found: v.type_tag() })
            }
        },
        None => Ok(None),
    }
}

/// Resolve a required maybe-named parameter: by name first, then by
/// position.
pub fn resolve_maybe_named(reg: &Register, name: &str, position: usize, expected: ValueType) -> (r:
    Result<NaslValue, ResolutionError>)
    ensures
        agrees(r, maybe_named_model(reg@, name@, position, expected)),
{
    match reg.get_named(name) {
        Some(_) => resolve_named(reg, name, expected),
        None => {
            match reg.get_positional(position) {
                Some(v) => {
                    if v.has_type(expected) {
                        Ok(v.clone())
                    } else {
                        Err(ResolutionError::WrongType { expected, found: v.type_tag() })
                    }
                },
                None => Err(
                    ResolutionError::MissingRequiredNamed { name: String::from_str(name) },
                ),
            }
        },
    }
}

/// Resolve an optional maybe-named parameter.
pub fn resolve_optional_maybe_named(
    reg: &Register,
    name: &str,
    position: usize,
    expected: ValueType,
) -> (r: Result<Option<NaslValue>, ResolutionError>)
    ensures
        agrees_optional(r, optional_maybe_named_model(reg@, name@, position, expected)),
{
    match reg.get_named(name) {
        Some(_) => resolve_optional_named(reg, name, expected),
        None => {
            match reg.get_positional(position) {
                Some(v) => {
                    if v.has_type(expected) {
                        Ok(Some(v.clone()))
                    } else {
                        Err(ResolutionError::WrongType { expected, found: v.type_tag() })
                    }
                },
                None => Ok(None),
            }
        },
    }
}

} // verus!
