//! Build-time analysis: from a native function's declared parameter list and
//! its binding annotations to a function binding specification.

use vstd::prelude::*;
use crate::error::BuildError;
use crate::strutil::str_eq;
use crate::value::ValueType;

verus! {

/// What a binding annotation declares for the parameter it references.
#[derive(Clone, Copy, Debug, PartialEq, Eq, Structural)]
pub enum AnnotationKind {
    /// The parameter is resolved solely by call-site name.
    Named,
    /// The parameter is resolved by name, falling back to position.
    MaybeNamed,
}

/// One binding annotation of a function declaration: `named(ident)` or
/// `maybe_named(ident)`, where `ident` must be the identifier of one of the
/// function's parameters.
#[derive(Debug, PartialEq, Eq)]
pub struct Annotation {
    pub kind: AnnotationKind,
    pub ident: String,
}

/// How one declared parameter is bound in the source: by a simple
/// identifier, by an implicit receiver, or by some other pattern (such as a
/// destructuring pattern). Only identifiers are supported.
#[derive(Debug, PartialEq, Eq)]
pub enum ParamPattern {
    /// A self-like first parameter.
    Receiver,
    /// A plain identifier.
    Ident(String),
    /// Any other binding pattern.
    Other,
}

/// A parameter's declared type. Optionality is structural: a type written
/// inside the optional-value wrapper marks the parameter optional, and the
/// wrapped type is its effective type.
#[derive(Clone, Copy, Debug, PartialEq, Eq, Structural)]
pub enum DeclaredType {
    Required(ValueType),
    Optional(ValueType),
}

/// One declared parameter of a native function.
#[derive(Debug, PartialEq, Eq)]
pub struct ParamDecl {
    pub pattern: ParamPattern,
    pub ty: DeclaredType,
}

/// A native function's declaration, as the analyzer sees it.
#[derive(Debug, PartialEq, Eq)]
pub struct FunctionDecl {
    pub name: String,
    pub params: Vec<ParamDecl>,
}

/// The policy by which a parameter's value is located in the register.
/// Positions are the parameter's declaration-order index among *all*
/// parameters of the function, not renumbered after excluding named ones.
#[derive(Debug, PartialEq, Eq)]
pub enum BindingKind {
    /// Resolved solely by call-site position.
    Positional { position: usize },
    /// Resolved solely by call-site name; the name is the parameter's own
    /// identifier.
    Named { name: String },
    /// Resolved by name, falling back to position.
    MaybeNamed { position: usize, name: String },
}

/// The binding specification of one parameter: built once per native
/// function at build time, never mutated afterwards.
#[derive(Debug, PartialEq, Eq)]
pub struct ParameterSpec {
    pub identifier: String,
    pub declared_type: ValueType,
    pub optional: bool,
    pub kind: BindingKind,
}

/// The ordered binding specification of one native function, in declaration
/// order, with the derived count of required positional parameters.
/// Maybe-named parameters do not count toward `required_positional_count`.
#[derive(Debug, PartialEq, Eq)]
pub struct FunctionBindingSpec {
    pub params: Vec<ParameterSpec>,
    pub required_positional_count: usize,
}

impl ParameterSpec {
    /// Whether this parameter counts toward the required positional count.
    pub open spec fn is_required_positional(self) -> bool {
        !self.optional && self.kind matches BindingKind::Positional { .. }
    }

    /// Internal consistency at declaration index `position`: positions
    /// stored in the kind are the declaration index, and names are the
    /// parameter's own identifier.
    pub open spec fn wf_at(self, position: int) -> bool {
        match self.kind {
            BindingKind::Positional { position: p } => p == position,
            BindingKind::Named { name } => name@ == self.identifier@,
            BindingKind::MaybeNamed { position: p, name } => p == position && name@
                == self.identifier@,
        }
    }
}

/// How many parameters of `params` are required positional.
pub open spec fn count_required_positional(params: Seq<ParameterSpec>) -> int
    decreases params.len(),
{
    if params.len() == 0 {
        0
    } else {
        count_required_positional(params.drop_last()) + if params.last().is_required_positional() {
            1int
        } else {
            0int
        }
    }
}

impl FunctionBindingSpec {
    /// Internal consistency of a built specification.
    pub open spec fn wf(self) -> bool {
        &&& self.required_positional_count as int == count_required_positional(self.params@)
        &&& forall|i: int| 0 <= i < self.params@.len() ==> #[trigger] self.params@[i].wf_at(i)
    }
}

/// The first annotation referencing `ident`, if any.
pub open spec fn find_annotation(annots: Seq<Annotation>, ident: Seq<char>) -> Option<
    AnnotationKind,
>
    decreases annots.len(),
{
    if annots.len() == 0 {
        None
    } else if annots[0].ident@ == ident {
        Some(annots[0].kind)
    } else {
        find_annotation(annots.drop_first(), ident)
    }
}

/// The binding kind the classifier assigns to a parameter named `ident` at
/// declaration index `position`: no annotation means positional; a `named`
/// annotation means named; a `maybe_named` annotation means maybe-named. The
/// call-site name is always the parameter's own identifier.
pub open spec fn classify_model(
    annots: Seq<Annotation>,
    ident: String,
    position: usize,
) -> BindingKind {
    match find_annotation(annots, ident@) {
        None => BindingKind::Positional { position },
        Some(AnnotationKind::Named) => BindingKind::Named { name: ident },
        Some(AnnotationKind::MaybeNamed) => BindingKind::MaybeNamed { position, name: ident },
    }
}

/// The binding kind classifier: look the identifier up among the function's
/// annotations; the first annotation referencing it decides.
pub fn binding_kind(annots: &Vec<Annotation>, ident: &String, position: usize) -> (r: BindingKind)
    ensures
        r == classify_model(annots@, *ident, position),
{
    let n = annots.len();
    let mut i: usize = 0;
    proof {
        assert(annots@.skip(0) =~= annots@);
    }
    while i < n
        invariant
            i <= n,
            n == annots@.len(),
            find_annotation(annots@, ident@) == find_annotation(
                annots@.skip(i as int),
                ident@,
            ),
        decreases n - i,
    {
        let a = &annots[i];
        proof {
            assert(annots@.skip(i as int)[0] == annots@[i as int]);
        }
        if str_eq(a.ident.as_str(), ident.as_str()) {
            return match a.kind {
                AnnotationKind::Named => BindingKind::Named { name: ident.clone() },
                AnnotationKind::MaybeNamed => BindingKind::MaybeNamed {
                    position,
                    name: ident.clone(),
                },
            };
        }
        proof {
            assert(annots@.skip(i as int).drop_first() =~= annots@.skip(i as int + 1));
        }
        i += 1;
    }
    proof {
        assert(annots@.skip(n as int) =~= Seq::<Annotation>::empty());
    }
    BindingKind::Positional { position }
}

/// Whether a declared parameter is bound by a simple identifier.
pub open spec fn param_ok(d: ParamDecl) -> bool {
    d.pattern matches ParamPattern::Ident(_)
}

/// The identifier of a parameter bound by one.
pub open spec fn param_name(d: ParamDecl) -> String
    recommends
        param_ok(d),
{
    match d.pattern {
        ParamPattern::Ident(name) => name,
        _ => arbitrary(),
    }
}

/// The parameter specification the analyzer builds for a well-formed
/// declared parameter at declaration index `position`.
pub open spec fn param_model(d: ParamDecl, annots: Seq<Annotation>, position: usize) -> ParameterSpec
    recommends
        param_ok(d),
{
    let name = param_name(d);
    ParameterSpec {
        identifier: name,
        declared_type: match d.ty {
            DeclaredType::Required(t) => t,
            DeclaredType::Optional(t) => t,
        },
        optional: d.ty matches DeclaredType::Optional(_),
        kind: classify_model(annots, name, position),
    }
}

/// Whether an annotation references the identifier of some declared
/// parameter.
pub open spec fn annotation_known(a: Annotation, params: Seq<ParamDecl>) -> bool {
    exists|i: int|
        0 <= i < params.len() && #[trigger] param_ok(params[i]) && param_name(params[i])@
            == a.ident@
}

/// The build error an unsupported parameter pattern raises.
pub open spec fn bad_param_error(d: ParamDecl, position: usize) -> BuildError {
    match d.pattern {
        ParamPattern::Receiver => BuildError::ReceiverParameter { position },
        ParamPattern::Other => BuildError::NonIdentifierPattern { position },
        ParamPattern::Ident(_) => arbitrary(),
    }
}

/// The signature analyzer: walk the declared parameters in order, reject
/// receivers and non-identifier patterns, detect optionality structurally,
/// classify each parameter's binding kind, check that every annotation
/// references a declared parameter, and derive the required positional
/// count. Succeeds exactly when every parameter is bound by an identifier
/// and every annotation is known; the first offending parameter (or, with
/// all parameters well-formed, the first unknown annotation) decides the
/// error.
pub fn analyze(decl: &FunctionDecl, annots: &Vec<Annotation>) -> (r: Result<
    FunctionBindingSpec,
    BuildError,
>)
    ensures
        match r {
            Ok(bspec) => {
                &&& forall|i: int| 0 <= i < decl.params@.len() ==> param_ok(#[trigger] decl.params@[i])
                &&& forall|k: int|
                    0 <= k < annots@.len() ==> annotation_known(#[trigger] annots@[k], decl.params@)
                &&& bspec.params@.len() == decl.params@.len()
                &&& forall|i: int|
                    0 <= i < decl.params@.len() ==> #[trigger] bspec.params@[i] == param_model(
                        decl.params@[i],
                        annots@,
                        i as usize,
                    )
                &&& bspec.wf()
            },
            Err(e) => {
                ||| exists|i: int|
                    0 <= i < decl.params@.len() && !param_ok(#[trigger] decl.params@[i]) && (
                    forall|j: int| 0 <= j < i ==> param_ok(#[trigger] decl.params@[j])) && e
                        == bad_param_error(decl.params@[i], i as usize)
                ||| {
                    &&& forall|i: int|
                        0 <= i < decl.params@.len() ==> param_ok(#[trigger] decl.params@[i])
                    &&& exists|k: int|
                        0 <= k < annots@.len() && !annotation_known(
                            #[trigger] annots@[k],
                            decl.params@,
                        ) && (forall|l: int|
                            0 <= l < k ==> annotation_known(#[trigger] annots@[l], decl.params@))
                            && e == (BuildError::UnknownAnnotationTarget { name: annots@[k].ident })
                }
            },
        },
{
    let n = decl.params.len();
    let mut params: Vec<ParameterSpec> = Vec::new();
    let mut i: usize = 0;
    while i < n
        invariant
            i <= n,
            n == decl.params@.len(),
            params@.len() == i,
            forall|j: int| 0 <= j < i ==> param_ok(#[trigger] decl.params@[j]),
            forall|j: int|
                0 <= j < i ==> #[trigger] params@[j] == param_model(
                    decl.params@[j],
                    annots@,
                    j as usize,
                ),
        decreases n - i,
    {
        let d = &decl.params[i];
        match &d.pattern {
            ParamPattern::Receiver => {
                return Err(BuildError::ReceiverParameter { position: i });
            },
            ParamPattern::Other => {
                return Err(BuildError::NonIdentifierPattern { position: i });
            },
            ParamPattern::Ident(name) => {
                let optional = match &d.ty {
                    DeclaredType::Optional(_) => true,
                    DeclaredType::Required(_) => false,
                };
                let declared_type = match &d.ty {
                    DeclaredType::Optional(t) => *t,
                    DeclaredType::Required(t) => *t,
                };
                let kind = binding_kind(annots, name, i);
                params.push(
                    ParameterSpec { identifier: name.clone(), declared_type, optional, kind },
                );
            },
        }
        i += 1;
    }
    let m = annots.len();
    let mut k: usize = 0;
    while k < m
        invariant
            k <= m,
            m == annots@.len(),
            n == decl.params@.len(),
            params@.len() == n,
            forall|j: int| 0 <= j < n ==> param_ok(#[trigger] decl.params@[j]),
            forall|j: int|
                0 <= j < n ==> #[trigger] params@[j] == param_model(
                    decl.params@[j],
                    annots@,
                    j as usize,
                ),
            forall|l: int| 0 <= l < k ==> annotation_known(#[trigger] annots@[l], decl.params@),
        decreases m - k,
    {
        let a = &annots[k];
        let mut found = false;
        let mut j: usize = 0;
        while j < n
            invariant
                j <= n,
                n == decl.params@.len(),
                params@.len() == n,
                k < m,
                m == annots@.len(),
                forall|t: int| 0 <= t < n ==> param_ok(#[trigger] decl.params@[t]),
                forall|t: int|
                    0 <= t < n ==> #[trigger] params@[t] == param_model(
                        decl.params@[t],
                        annots@,
                        t as usize,
                    ),
                found ==> annotation_known(annots@[k as int], decl.params@),
                !found ==> forall|t: int|
                    0 <= t < j ==> #[trigger] params@[t].identifier@ != annots@[k as int].ident@,
            decreases n - j,
        {
            if !found {
                let eq = str_eq(params[j].identifier.as_str(), annots[k].ident.as_str());
                proof {
                    assert(params@[j as int] == param_model(
                        decl.params@[j as int],
                        annots@,
                        j as usize,
                    ));
                    assert(eq == (params@[j as int].identifier@ == annots@[k as int].ident@));
                }
                if eq {
                    found = true;
                    proof {
                        assert(param_ok(decl.params@[j as int]) && param_name(
                            decl.params@[j as int],
                        )@ == annots@[k as int].ident@);
                    }
                }
            }
            j += 1;
        }
        if !found {
            proof {
                assert forall|t: int| 0 <= t < n implies !(#[trigger] param_ok(decl.params@[t])
                    && param_name(decl.params@[t])@ == annots@[k as int].ident@) by {
                    assert(params@[t].identifier@ != annots@[k as int].ident@);
                }
            }
            return Err(BuildError::UnknownAnnotationTarget { name: a.ident.clone() });
        }
        k += 1;
    }
    let mut count: usize = 0;
    let mut i2: usize = 0;
    while i2 < n
        invariant
            i2 <= n,
            n == decl.params@.len(),
            params@.len() == n,
            count <= i2,
            count as int == count_required_positional(params@.take(i2 as int)),
            forall|j: int| 0 <= j < n ==> param_ok(#[trigger] decl.params@[j]),
            forall|j: int|
                0 <= j < n ==> #[trigger] params@[j] == param_model(
                    decl.params@[j],
                    annots@,
                    j as usize,
                ),
            forall|l: int| 0 <= l < m ==> annotation_known(#[trigger] annots@[l], decl.params@),
            m == annots@.len(),
        decreases n - i2,
    {
        let p = &params[i2];
        let is_rp = !p.optional && match &p.kind {
            BindingKind::Positional { .. } => true,
            _ => false,
        };
        proof {
            assert(params@.take(i2 as int + 1).drop_last() =~= params@.take(i2 as int));
            assert(params@.take(i2 as int + 1).last() == params@[i2 as int]);
        }
        if is_rp {
            count += 1;
        }
        i2 += 1;
    }
    proof {
        assert(params@.take(n as int) =~= params@);
    }
    let result = FunctionBindingSpec { params, required_positional_count: count };
    proof {
        assert forall|i3: int| 0 <= i3 < result.params@.len() implies #[trigger] result.params@[i3].wf_at(
            i3,
        ) by {
            assert(result.params@[i3] == param_model(decl.params@[i3], annots@, i3 as usize));
        }
    }
    Ok(result)
}

} // verus!
