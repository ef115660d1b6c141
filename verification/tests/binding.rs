//! The analyzer, the classifier, the generator and the runtime resolver,
//! exercised together through the public interface.

use nasl_function::bind::bind_arguments;
use nasl_function::bindspec::analyze;
use nasl_function::bindspec::Annotation;
use nasl_function::bindspec::AnnotationKind;
use nasl_function::bindspec::BindingKind;
use nasl_function::bindspec::DeclaredType;
use nasl_function::bindspec::FunctionDecl;
use nasl_function::bindspec::ParamDecl;
use nasl_function::bindspec::ParamPattern;
use nasl_function::error::BuildError;
use nasl_function::error::ResolutionError;
use nasl_function::generate::binding_steps;
use nasl_function::generate::generate;
use nasl_function::generate::ResolverOp;
use nasl_function::register::Register;
use nasl_function::value::NaslValue;
use nasl_function::value::ValueType;

fn ident(name: &str, ty: DeclaredType) -> ParamDecl {
    ParamDecl { pattern: ParamPattern::Ident(name.to_string()), ty }
}

fn decl(name: &str, params: Vec<ParamDecl>) -> FunctionDecl {
    FunctionDecl { name: name.to_string(), params }
}

fn named(name: &str) -> Annotation {
    Annotation { kind: AnnotationKind::Named, ident: name.to_string() }
}

fn maybe_named(name: &str) -> Annotation {
    Annotation { kind: AnnotationKind::MaybeNamed, ident: name.to_string() }
}

#[test]
fn classifier_defaults_to_positional() {
    let d = decl(
        "f",
        vec![
            ident("a", DeclaredType::Required(ValueType::Number)),
            ident("b", DeclaredType::Required(ValueType::Str)),
        ],
    );
    let fspec = analyze(&d, &vec![named("b")]).unwrap();
    assert_eq!(fspec.params[0].kind, BindingKind::Positional { position: 0 });
    assert_eq!(fspec.params[1].kind, BindingKind::Named { name: "b".to_string() });
    assert_eq!(fspec.required_positional_count, 1);
}

#[test]
fn positions_are_declaration_indices() {
    // The maybe-named parameter keeps its declaration index even though an
    // earlier parameter is named.
    let d = decl(
        "f",
        vec![
            ident("a", DeclaredType::Required(ValueType::Number)),
            ident("b", DeclaredType::Required(ValueType::Number)),
            ident("c", DeclaredType::Required(ValueType::Number)),
        ],
    );
    let fspec = analyze(&d, &vec![named("b"), maybe_named("c")]).unwrap();
    assert_eq!(fspec.params[2].kind, BindingKind::MaybeNamed { position: 2, name: "c".to_string() });
    // Maybe-named and named parameters do not count toward the required
    // positional count.
    assert_eq!(fspec.required_positional_count, 1);
}

#[test]
fn optionality_is_structural() {
    let d = decl(
        "f",
        vec![
            ident("a", DeclaredType::Optional(ValueType::Str)),
            ident("b", DeclaredType::Required(ValueType::Str)),
        ],
    );
    let fspec = analyze(&d, &vec![]).unwrap();
    assert!(fspec.params[0].optional);
    assert_eq!(fspec.params[0].declared_type, ValueType::Str);
    assert!(!fspec.params[1].optional);
    assert_eq!(fspec.required_positional_count, 1);
}

#[test]
fn receiver_parameter_fails_the_build() {
    let d = decl(
        "f",
        vec![
            ParamDecl { pattern: ParamPattern::Receiver, ty: DeclaredType::Required(ValueType::Number) },
        ],
    );
    assert_eq!(analyze(&d, &vec![]), Err(BuildError::ReceiverParameter { position: 0 }));
}

#[test]
fn non_identifier_pattern_fails_the_build() {
    let d = decl(
        "f",
        vec![
            ident("a", DeclaredType::Required(ValueType::Number)),
            ParamDecl { pattern: ParamPattern::Other, ty: DeclaredType::Required(ValueType::Number) },
        ],
    );
    assert_eq!(analyze(&d, &vec![]), Err(BuildError::NonIdentifierPattern { position: 1 }));
}

#[test]
fn unknown_annotation_fails_the_build() {
    let d = decl("f", vec![ident("a", DeclaredType::Required(ValueType::Number))]);
    assert_eq!(
        analyze(&d, &vec![named("nope")]),
        Err(BuildError::UnknownAnnotationTarget { name: "nope".to_string() })
    );
}

#[test]
fn generated_steps_mirror_parameters() {
    let d = decl(
        "f",
        vec![
            ident("a", DeclaredType::Required(ValueType::Number)),
            ident("b", DeclaredType::Optional(ValueType::Str)),
            ident("c", DeclaredType::Required(ValueType::Boolean)),
        ],
    );
    let fspec = analyze(&d, &vec![named("b"), maybe_named("c")]).unwrap();
    let g = generate(&d.name, &fspec);
    assert_eq!(g.name, "f".to_string());
    assert_eq!(g.steps.len(), 3);
    assert_eq!(g.steps[0].identifier, "a".to_string());
    assert_eq!(g.steps[0].op, ResolverOp::Positional { position: 0, required_count: 1 });
    assert_eq!(g.steps[1].op, ResolverOp::OptionalNamed { name: "b".to_string() });
    assert_eq!(g.steps[2].op, ResolverOp::MaybeNamed { name: "c".to_string(), position: 2 });
}

#[test]
fn missing_required_positional() {
    // f(a, b), both required positional: one supplied argument is too few,
    // two are exactly the required set.
    let d = decl(
        "f",
        vec![
            ident("a", DeclaredType::Required(ValueType::Number)),
            ident("b", DeclaredType::Required(ValueType::Number)),
        ],
    );
    let fspec = analyze(&d, &vec![]).unwrap();
    let steps = binding_steps(&fspec);

    let mut reg = Register::new();
    reg.push_positional(NaslValue::Number(1));
    assert_eq!(
        bind_arguments(&steps, &reg),
        Err(ResolutionError::MissingRequiredPositional { expected: 2, got: 1 })
    );

    reg.push_positional(NaslValue::Number(2));
    let bound = bind_arguments(&steps, &reg).unwrap();
    assert_eq!(bound.len(), 2);
    assert_eq!(bound[0].value, Some(NaslValue::Number(1)));
    assert_eq!(bound[1].value, Some(NaslValue::Number(2)));
}

#[test]
fn optional_absent_is_empty_for_every_kind() {
    let d = decl(
        "f",
        vec![
            ident("a", DeclaredType::Optional(ValueType::Number)),
            ident("b", DeclaredType::Optional(ValueType::Number)),
            ident("c", DeclaredType::Optional(ValueType::Number)),
        ],
    );
    let fspec = analyze(&d, &vec![named("b"), maybe_named("c")]).unwrap();
    let steps = binding_steps(&fspec);
    let reg = Register::new();
    let bound = bind_arguments(&steps, &reg).unwrap();
    assert_eq!(bound.len(), 3);
    assert_eq!(bound[0].value, None);
    assert_eq!(bound[1].value, None);
    assert_eq!(bound[2].value, None);
}

#[test]
fn named_arguments_bind_in_any_order() {
    // f(a: 2, b: 1) and f(b: 1, a: 2) bind identically.
    let d = decl(
        "f",
        vec![
            ident("a", DeclaredType::Required(ValueType::Number)),
            ident("b", DeclaredType::Required(ValueType::Number)),
        ],
    );
    let fspec = analyze(&d, &vec![named("a"), named("b")]).unwrap();
    let steps = binding_steps(&fspec);

    let mut reg1 = Register::new();
    reg1.add_named("a".to_string(), NaslValue::Number(2));
    reg1.add_named("b".to_string(), NaslValue::Number(1));
    let mut reg2 = Register::new();
    reg2.add_named("b".to_string(), NaslValue::Number(1));
    reg2.add_named("a".to_string(), NaslValue::Number(2));

    let bound1 = bind_arguments(&steps, &reg1).unwrap();
    let bound2 = bind_arguments(&steps, &reg2).unwrap();
    assert_eq!(bound1, bound2);
    assert_eq!(bound1[0].value, Some(NaslValue::Number(2)));
    assert_eq!(bound1[1].value, Some(NaslValue::Number(1)));
}

#[test]
fn maybe_named_prefers_the_named_value() {
    let d = decl("f", vec![ident("a", DeclaredType::Required(ValueType::Number))]);
    let fspec = analyze(&d, &vec![maybe_named("a")]).unwrap();
    let steps = binding_steps(&fspec);

    let mut reg = Register::new();
    reg.push_positional(NaslValue::Number(1));
    reg.add_named("a".to_string(), NaslValue::Number(2));
    let bound = bind_arguments(&steps, &reg).unwrap();
    assert_eq!(bound[0].value, Some(NaslValue::Number(2)));
}

#[test]
fn maybe_named_accepts_either_source_alone() {
    let d = decl("f", vec![ident("a", DeclaredType::Required(ValueType::Number))]);
    let fspec = analyze(&d, &vec![maybe_named("a")]).unwrap();
    let steps = binding_steps(&fspec);

    let mut reg = Register::new();
    reg.push_positional(NaslValue::Number(1));
    let bound = bind_arguments(&steps, &reg).unwrap();
    assert_eq!(bound[0].value, Some(NaslValue::Number(1)));

    let mut reg = Register::new();
    reg.add_named("a".to_string(), NaslValue::Number(2));
    let bound = bind_arguments(&steps, &reg).unwrap();
    assert_eq!(bound[0].value, Some(NaslValue::Number(2)));

    let reg = Register::new();
    assert_eq!(
        bind_arguments(&steps, &reg),
        Err(ResolutionError::MissingRequiredNamed { name: "a".to_string() })
    );
}

#[test]
fn wrong_type_is_distinct_from_missing() {
    let d = decl(
        "f",
        vec![
            ident("a", DeclaredType::Required(ValueType::Number)),
            ident("b", DeclaredType::Required(ValueType::Str)),
        ],
    );
    let fspec = analyze(&d, &vec![named("b")]).unwrap();
    let steps = binding_steps(&fspec);

    let mut reg = Register::new();
    reg.push_positional(NaslValue::Str("oops".to_string()));
    reg.add_named("b".to_string(), NaslValue::Str("fine".to_string()));
    assert_eq!(
        bind_arguments(&steps, &reg),
        Err(ResolutionError::WrongType { expected: ValueType::Number, found: ValueType::Str })
    );

    let mut reg = Register::new();
    reg.push_positional(NaslValue::Number(1));
    reg.add_named("b".to_string(), NaslValue::Boolean(true));
    assert_eq!(
        bind_arguments(&steps, &reg),
        Err(ResolutionError::WrongType { expected: ValueType::Str, found: ValueType::Boolean })
    );
}

#[test]
fn optional_with_wrong_type_is_still_wrong_type() {
    // An optional parameter never raises a missing-argument error, but a
    // supplied value of the wrong type is still rejected.
    let d = decl("f", vec![ident("a", DeclaredType::Optional(ValueType::Number))]);
    let fspec = analyze(&d, &vec![named("a")]).unwrap();
    let steps = binding_steps(&fspec);
    let mut reg = Register::new();
    reg.add_named("a".to_string(), NaslValue::Str("oops".to_string()));
    assert_eq!(
        bind_arguments(&steps, &reg),
        Err(ResolutionError::WrongType { expected: ValueType::Number, found: ValueType::Str })
    );
}

#[test]
fn missing_required_named() {
    let d = decl("f", vec![ident("a", DeclaredType::Required(ValueType::Number))]);
    let fspec = analyze(&d, &vec![named("a")]).unwrap();
    let steps = binding_steps(&fspec);
    let reg = Register::new();
    assert_eq!(
        bind_arguments(&steps, &reg),
        Err(ResolutionError::MissingRequiredNamed { name: "a".to_string() })
    );
}

#[test]
fn later_named_entry_wins() {
    let d = decl("f", vec![ident("a", DeclaredType::Required(ValueType::Number))]);
    let fspec = analyze(&d, &vec![named("a")]).unwrap();
    let steps = binding_steps(&fspec);
    let mut reg = Register::new();
    reg.add_named("a".to_string(), NaslValue::Number(1));
    reg.add_named("a".to_string(), NaslValue::Number(2));
    let bound = bind_arguments(&steps, &reg).unwrap();
    assert_eq!(bound[0].value, Some(NaslValue::Number(2)));
}

#[test]
fn first_failure_propagates() {
    // Both parameters are unsatisfied; the first one's error is reported.
    let d = decl(
        "f",
        vec![
            ident("a", DeclaredType::Required(ValueType::Number)),
            ident("b", DeclaredType::Required(ValueType::Number)),
        ],
    );
    let fspec = analyze(&d, &vec![named("a"), named("b")]).unwrap();
    let steps = binding_steps(&fspec);
    let reg = Register::new();
    assert_eq!(
        bind_arguments(&steps, &reg),
        Err(ResolutionError::MissingRequiredNamed { name: "a".to_string() })
    );
}

#[test]
fn bound_identifiers_carry_over() {
    let d = decl(
        "f",
        vec![
            ident("port", DeclaredType::Optional(ValueType::Number)),
            ident("keytype", DeclaredType::Optional(ValueType::Str)),
        ],
    );
    let fspec = analyze(&d, &vec![named("port"), named("keytype")]).unwrap();
    let steps = binding_steps(&fspec);
    let mut reg = Register::new();
    reg.add_named("port".to_string(), NaslValue::Number(22));
    let bound = bind_arguments(&steps, &reg).unwrap();
    assert_eq!(bound[0].identifier, "port".to_string());
    assert_eq!(bound[0].value, Some(NaslValue::Number(22)));
    assert_eq!(bound[1].identifier, "keytype".to_string());
    assert_eq!(bound[1].value, None);
}
