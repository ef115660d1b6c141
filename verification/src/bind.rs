//! Running a generated binding prologue against one call's register.

use vstd::prelude::*;
use crate::error::ResolutionError;
use crate::error::ResolutionErrorView;
use crate::generate::BindingStep;
use crate::generate::ResolverOp;
use crate::register::Register;
use crate::resolve::resolve_maybe_named;
use crate::resolve::resolve_model;
use crate::resolve::resolve_named;
use crate::resolve::resolve_optional_maybe_named;
use crate::resolve::resolve_optional_named;
use crate::resolve::resolve_optional_positional;
use crate::resolve::resolve_positional;
use crate::value::NaslValue;

verus! {

/// One bound parameter: its identifier and the value it resolved to. `None`
/// is the explicit empty value an absent optional argument resolves to; a
/// required parameter always binds `Some` value.
#[derive(Debug, PartialEq, Eq)]
pub struct BoundArg {
    pub identifier: String,
    pub value: Option<NaslValue>,
}

/// Run a binding prologue: resolve each step, in declaration order, against
/// the register. The first failure propagates at once, before any later step
/// is resolved, so the original body never begins on a malformed call.
pub fn bind_arguments(steps: &Vec<BindingStep>, reg: &Register) -> (r: Result<
    Vec<BoundArg>,
    ResolutionError,
>)
    ensures
        match r {
            Ok(bound) => {
                &&& bound@.len() == steps@.len()
                &&& forall|i: int|
                    0 <= i < steps@.len() ==> #[trigger] bound@[i].identifier
                        == steps@[i].identifier
                &&& forall|i: int|
                    0 <= i < steps@.len() ==> resolve_model(#[trigger] steps@[i], reg@)
                        == Ok::<Option<NaslValue>, ResolutionErrorView>(bound@[i].value)
            },
            Err(e) => exists|i: int|
                0 <= i < steps@.len() && resolve_model(#[trigger] steps@[i], reg@) == Err::<
                    Option<NaslValue>,
                    ResolutionErrorView,
                >(e@) && (forall|j: int|
                    0 <= j < i ==> !(resolve_model(#[trigger] steps@[j], reg@) is Err)),
        },
{
    let n = steps.len();
    let mut bound: Vec<BoundArg> = Vec::new();
    let mut i: usize = 0;
    while i < n
        invariant
            i <= n,
            n == steps@.len(),
            bound@.len() == i,
            forall|j: int|
                0 <= j < i ==> #[trigger] bound@[j].identifier == steps@[j].identifier,
            forall|j: int|
                0 <= j < i ==> resolve_model(#[trigger] steps@[j], reg@) == Ok::<
                    Option<NaslValue>,
                    ResolutionErrorView,
                >(bound@[j].value),
        decreases n - i,
    {
        let step = &steps[i];
        let value: Option<NaslValue> = match &step.op {
            ResolverOp::Positional { position, required_count } => {
                match resolve_positional(reg, *position, *required_count, step.expected) {
                    Ok(v) => Some(v),
                    Err(e) => {
                        return Err(e);
                    },
                }
            },
            ResolverOp::OptionalPositional { position } => {
                match resolve_optional_positional(reg, *position, step.expected) {
                    Ok(v) => v,
                    Err(e) => {
                        return Err(e);
                    },
                }
            },
            ResolverOp::Named { name } => {
                match resolve_named(reg, name.as_str(), step.expected) {
                    Ok(v) => Some(v),
                    Err(e) => {
                        return Err(e);
                    },
                }
            },
            ResolverOp::OptionalNamed { name } => {
                match resolve_optional_named(reg, name.as_str(), step.expected) {
                    Ok(v) => v,
                    Err(e) => {
                        return Err(e);
                    },
                }
            },
            ResolverOp::MaybeNamed { name, position } => {
                match resolve_maybe_named(reg, name.as_str(), *position, step.expected) {
                    Ok(v) => Some(v),
                    Err(e) => {
                        return Err(e);
                    },
                }
            },
            ResolverOp::OptionalMaybeNamed { name, position } => {
                match resolve_optional_maybe_named(reg, name.as_str(), *position, step.expected) {
                    Ok(v) => v,
                    Err(e) => {
                        return Err(e);
                    },
                }
            },
        };
        bound.push(BoundArg { identifier: step.identifier.clone(), value });
        i += 1;
    }
    Ok(bound)
}

} // verus!
