//! The binding protocol's laws, stated over the resolver's mathematical
//! model and proved once for all registers and specifications.

use vstd::prelude::*;
use crate::bindspec::BindingKind;
use crate::bindspec::FunctionBindingSpec;
use crate::bindspec::ParameterSpec;
use crate::bindspec::count_required_positional;
use crate::error::ResolutionErrorView;
use crate::generate::step_for;
use crate::register::RegisterView;
use crate::register::named_map;
use crate::resolve::maybe_named_model;
use crate::resolve::optional_maybe_named_model;
use crate::resolve::resolve_model;
use crate::value::NaslValue;
use crate::value::ValueType;

verus! {

/// The value the register supplies for a parameter under the parameter's
/// own lookup rule: positional parameters by position, named ones by name,
/// maybe-named ones by name first and position second.
pub open spec fn present_value(reg: RegisterView, p: ParameterSpec) -> Option<NaslValue> {
    match p.kind {
        BindingKind::Positional { position } => {
            if position < reg.positional.len() {
                Some(reg.positional[position as int])
            } else {
                None
            }
        },
        BindingKind::Named { name } => {
            if reg.named.contains_key(name@) {
                Some(reg.named[name@])
            } else {
                None
            }
        },
        BindingKind::MaybeNamed { position, name } => {
            if reg.named.contains_key(name@) {
                Some(reg.named[name@])
            } else if position < reg.positional.len() {
                Some(reg.positional[position as int])
            } else {
                None
            }
        },
    }
}

/// The register supplies a value of the parameter's declared type.
pub open spec fn supplies(reg: RegisterView, p: ParameterSpec) -> bool {
    match present_value(reg, p) {
        Some(v) => v.type_of() == p.declared_type,
        None => false,
    }
}

/// The call leaves the parameter without a value.
pub open spec fn omitted(reg: RegisterView, p: ParameterSpec) -> bool {
    present_value(reg, p) is None
}

/// The required positional count never exceeds the parameter count.
proof fn lemma_count_le_len(params: Seq<ParameterSpec>)
    ensures
        0 <= count_required_positional(params) <= params.len(),
    decreases params.len(),
{
    if params.len() > 0 {
        lemma_count_le_len(params.drop_last());
    }
}

/// If no parameter at index `bound` or beyond is required positional, the
/// required positional count is at most `bound`.
proof fn lemma_count_bounded(params: Seq<ParameterSpec>, bound: int)
    requires
        0 <= bound,
        forall|i: int|
            bound <= i < params.len() ==> !(#[trigger] params[i]).is_required_positional(),
    ensures
        count_required_positional(params) <= bound,
    decreases params.len(),
{
    if params.len() <= bound {
        lemma_count_le_len(params);
    } else {
        assert(!params[params.len() - 1].is_required_positional());
        assert forall|i: int|
            bound <= i < params.drop_last().len() implies !(#[trigger] params.drop_last()[i]).is_required_positional() by {
            assert(params.drop_last()[i] == params[i]);
        }
        lemma_count_bounded(params.drop_last(), bound);
    }
}

/// Law: a call that supplies fewer positional arguments than the function's
/// required positional count cannot bind. Some parameter's binding step —
/// in fact a required positional one, whose position the call left
/// unfilled — resolves to the missing-required-positional
/// (wrong-argument-count) error, so the prologue fails before the body runs.
pub proof fn lemma_fewer_positionals_fail(bspec: FunctionBindingSpec, reg: RegisterView)
    requires
        bspec.wf(),
        reg.positional.len() < bspec.required_positional_count,
    ensures
        exists|i: int|
            0 <= i < bspec.params@.len() && resolve_model(
                step_for(#[trigger] bspec.params@[i], bspec.required_positional_count),
                reg,
            ) == Err::<Option<NaslValue>, ResolutionErrorView>(
                ResolutionErrorView::MissingRequiredPositional {
                    expected: bspec.required_positional_count as int,
                    got: reg.positional.len() as int,
                },
            ),
{
    let params = bspec.params@;
    let bound = reg.positional.len() as int;
    if forall|i: int| bound <= i < params.len() ==> !(#[trigger] params[i]).is_required_positional() {
        lemma_count_bounded(params, bound);
        assert(false);
    }
    let i = choose|i: int|
        bound <= i < params.len() && (#[trigger] params[i]).is_required_positional();
    assert(params[i].wf_at(i));
    assert(resolve_model(step_for(params[i], bspec.required_positional_count), reg) == Err::<
        Option<NaslValue>,
        ResolutionErrorView,
    >(
        ResolutionErrorView::MissingRequiredPositional {
            expected: bspec.required_positional_count as int,
            got: reg.positional.len() as int,
        },
    ));
}

/// Law: a call that supplies, for every parameter, a value of the declared
/// type under that parameter's lookup rule — or omits a parameter that is
/// optional — resolves every binding step successfully: the required set
/// suffices, and binding then reaches the body.
pub proof fn lemma_satisfied_call_binds(bspec: FunctionBindingSpec, reg: RegisterView)
    requires
        bspec.wf(),
        forall|i: int|
            0 <= i < bspec.params@.len() ==> supplies(reg, #[trigger] bspec.params@[i]) || (
            bspec.params@[i].optional && omitted(reg, bspec.params@[i])),
    ensures
        forall|i: int|
            0 <= i < bspec.params@.len() ==> !(resolve_model(
                step_for(#[trigger] bspec.params@[i], bspec.required_positional_count),
                reg,
            ) is Err),
{
    assert forall|i: int| 0 <= i < bspec.params@.len() implies !(resolve_model(
        step_for(#[trigger] bspec.params@[i], bspec.required_positional_count),
        reg,
    ) is Err) by {
        let p = bspec.params@[i];
        assert(supplies(reg, p) || (p.optional && omitted(reg, p)));
    }
}

/// Law: an absent optional argument resolves to the explicit empty value,
/// whatever the parameter's binding kind; and an optional parameter never
/// raises a missing-argument error — even a supplied value of the wrong
/// type yields the wrong-type error instead.
pub proof fn lemma_optional_never_missing(
    p: ParameterSpec,
    required_count: usize,
    reg: RegisterView,
)
    requires
        p.optional,
    ensures
        omitted(reg, p) ==> resolve_model(step_for(p, required_count), reg) == Ok::<
            Option<NaslValue>,
            ResolutionErrorView,
        >(None),
        !(resolve_model(step_for(p, required_count), reg) matches Err(
            ResolutionErrorView::MissingRequiredPositional { .. },
        )),
        !(resolve_model(step_for(p, required_count), reg) matches Err(
            ResolutionErrorView::MissingRequiredNamed { .. },
        )),
{
}

/// Law: the bound value of a named argument does not depend on call-site
/// order. Supplying two named arguments under distinct names in either
/// order yields one and the same name-to-value mapping, and resolution of a
/// named parameter reads only that mapping (see
/// [`lemma_named_resolution_by_map`]).
pub proof fn lemma_named_order_immaterial(
    entries: Seq<(String, NaslValue)>,
    a: (String, NaslValue),
    b: (String, NaslValue),
)
    requires
        a.0@ != b.0@,
    ensures
        named_map(entries.push(a).push(b)) == named_map(entries.push(b).push(a)),
{
    let ab = entries.push(a).push(b);
    let ba = entries.push(b).push(a);
    assert(ab.drop_last() =~= entries.push(a));
    assert(ba.drop_last() =~= entries.push(b));
    assert(entries.push(a).drop_last() =~= entries);
    assert(entries.push(b).drop_last() =~= entries);
    assert(ab.last() == b && ba.last() == a);
    assert(entries.push(a).last() == a && entries.push(b).last() == b);
    assert(named_map(ab) == named_map(ab.drop_last()).insert(b.0@, b.1));
    assert(named_map(entries.push(a)) == named_map(entries).insert(a.0@, a.1));
    assert(named_map(ba) == named_map(ba.drop_last()).insert(a.0@, a.1));
    assert(named_map(entries.push(b)) == named_map(entries).insert(b.0@, b.1));
    assert(named_map(entries).insert(a.0@, a.1).insert(b.0@, b.1) =~= named_map(entries).insert(
        b.0@,
        b.1,
    ).insert(a.0@, a.1));
}

/// Law: resolving a named or maybe-named parameter depends only on the
/// register's contents as position- and name-indexed mappings, never on the
/// order in which the call supplied them.
pub proof fn lemma_named_resolution_by_map(
    p: ParameterSpec,
    required_count: usize,
    reg1: RegisterView,
    reg2: RegisterView,
)
    requires
        reg1.named == reg2.named,
        reg1.positional == reg2.positional,
    ensures
        resolve_model(step_for(p, required_count), reg1) == resolve_model(
            step_for(p, required_count),
            reg2,
        ),
{
}

/// Law: when a value is supplied under a maybe-named parameter's name, that
/// value is the one bound — whether or not a positional value stands at the
/// parameter's position. In particular the named value wins when both are
/// supplied, and supplying only the named value succeeds.
pub proof fn lemma_maybe_named_name_wins(
    reg: RegisterView,
    name: Seq<char>,
    position: usize,
    expected: ValueType,
)
    requires
        reg.named.contains_key(name),
        reg.named[name].type_of() == expected,
    ensures
        maybe_named_model(reg, name, position, expected) == Ok::<NaslValue, ResolutionErrorView>(
            reg.named[name],
        ),
        optional_maybe_named_model(reg, name, position, expected) == Ok::<
            Option<NaslValue>,
            ResolutionErrorView,
        >(Some(reg.named[name])),
{
}

/// Law: when nothing is supplied under a maybe-named parameter's name but a
/// value stands at its position, that positional value is the one bound:
/// supplying only the positional value succeeds.
pub proof fn lemma_maybe_named_positional_fallback(
    reg: RegisterView,
    name: Seq<char>,
    position: usize,
    expected: ValueType,
)
    requires
        !reg.named.contains_key(name),
        position < reg.positional.len(),
        reg.positional[position as int].type_of() == expected,
    ensures
        maybe_named_model(reg, name, position, expected) == Ok::<NaslValue, ResolutionErrorView>(
            reg.positional[position as int],
        ),
        optional_maybe_named_model(reg, name, position, expected) == Ok::<
            Option<NaslValue>,
            ResolutionErrorView,
        >(Some(reg.positional[position as int])),
{
}

/// Law: a supplied value whose dynamic type is not the declared one
/// resolves to the wrong-type error — a constructor distinct from both
/// missing-argument errors — whatever the binding kind and optionality.
pub proof fn lemma_type_mismatch_classified(
    p: ParameterSpec,
    required_count: usize,
    reg: RegisterView,
    v: NaslValue,
)
    requires
        present_value(reg, p) == Some(v),
        v.type_of() != p.declared_type,
    ensures
        resolve_model(step_for(p, required_count), reg) == Err::<
            Option<NaslValue>,
            ResolutionErrorView,
        >(ResolutionErrorView::WrongType { expected: p.declared_type, found: v.type_of() }),
{
}

} // verus!
