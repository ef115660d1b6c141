//! Code generation: from a function binding specification to the binding
//! prologue of the transformed function, one resolver step per parameter.
//!
//! The transformed function keeps its name and return type but takes exactly
//! two parameters, the argument register and the execution context; its body
//! is prefixed by these steps, in declaration order, and the original body
//! follows. Generation is pure: the same specification always yields the
//! same steps.

use vstd::prelude::*;
use crate::bindspec::BindingKind;
use crate::bindspec::FunctionBindingSpec;
use crate::bindspec::ParameterSpec;
use crate::value::ValueType;

verus! {

/// Which resolver operation a binding step invokes: one operation per
/// combination of binding kind and optionality.
#[derive(Debug, PartialEq, Eq)]
pub enum ResolverOp {
    Positional { position: usize, required_count: usize },
    OptionalPositional { position: usize },
    Named { name: String },
    OptionalNamed { name: String },
    MaybeNamed { name: String, position: usize },
    OptionalMaybeNamed { name: String, position: usize },
}

/// One generated binding statement: resolve by `op`, convert to `expected`,
/// and bind the result to `identifier`.
#[derive(Debug, PartialEq, Eq)]
pub struct BindingStep {
    pub identifier: String,
    pub expected: ValueType,
    pub op: ResolverOp,
}

/// A transformed function: its original name and the binding prologue that
/// now precedes its body behind the uniform two-argument calling convention.
#[derive(Debug, PartialEq, Eq)]
pub struct GeneratedFunction {
    pub name: String,
    pub steps: Vec<BindingStep>,
}

/// The binding step generated for one parameter, given the function's
/// required positional count.
pub open spec fn step_for(p: ParameterSpec, required_count: usize) -> BindingStep {
    BindingStep {
        identifier: p.identifier,
        expected: p.declared_type,
        op: match p.kind {
            BindingKind::Positional { position } => {
                if p.optional {
                    ResolverOp::OptionalPositional { position }
                } else {
                    ResolverOp::Positional { position, required_count }
                }
            },
            BindingKind::Named { name } => {
                if p.optional {
                    ResolverOp::OptionalNamed { name }
                } else {
                    ResolverOp::Named { name }
                }
            },
            BindingKind::MaybeNamed { position, name } => {
                if p.optional {
                    ResolverOp::OptionalMaybeNamed { name, position }
                } else {
                    ResolverOp::MaybeNamed { name, position }
                }
            },
        },
    }
}

/// Emit the binding steps of a specification, one per parameter, in
/// declaration order.
pub fn binding_steps(bspec: &FunctionBindingSpec) -> (steps: Vec<BindingStep>)
    ensures
        steps@.len() == bspec.params@.len(),
        forall|i: int|
            0 <= i < bspec.params@.len() ==> #[trigger] steps@[i] == step_for(
                bspec.params@[i],
                bspec.required_positional_count,
            ),
{
    let n = bspec.params.len();
    let required_count = bspec.required_positional_count;
    let mut steps: Vec<BindingStep> = Vec::new();
    let mut i: usize = 0;
    while i < n
        invariant
            i <= n,
            n == bspec.params@.len(),
            required_count == bspec.required_positional_count,
            steps@.len() == i,
            forall|j: int|
                0 <= j < i ==> #[trigger] steps@[j] == step_for(
                    bspec.params@[j],
                    bspec.required_positional_count,
                ),
        decreases n - i,
    {
        let p = &bspec.params[i];
        let op = match &p.kind {
            BindingKind::Positional { position } => {
                if p.optional {
                    ResolverOp::OptionalPositional { position: *position }
                } else {
                    ResolverOp::Positional { position: *position, required_count }
                }
            },
            BindingKind::Named { name } => {
                if p.optional {
                    ResolverOp::OptionalNamed { name: name.clone() }
                } else {
                    ResolverOp::Named { name: name.clone() }
                }
            },
            BindingKind::MaybeNamed { position, name } => {
                if p.optional {
                    ResolverOp::OptionalMaybeNamed { name: name.clone(), position: *position }
                } else {
                    ResolverOp::MaybeNamed { name: name.clone(), position: *position }
                }
            },
        };
        steps.push(
            BindingStep { identifier: p.identifier.clone(), expected: p.declared_type, op },
        );
        i += 1;
    }
    steps
}

/// Transform one analyzed function: same name, two-argument calling
/// convention, the binding prologue in front of the original body.
pub fn generate(name: &String, bspec: &FunctionBindingSpec) -> (g: GeneratedFunction)
    ensures
        g.name == *name,
        g.steps@.len() == bspec.params@.len(),
        forall|i: int|
            0 <= i < bspec.params@.len() ==> #[trigger] g.steps@[i] == step_for(
                bspec.params@[i],
                bspec.required_positional_count,
            ),
{
    GeneratedFunction { name: name.clone(), steps: binding_steps(bspec) }
}

} // verus!
