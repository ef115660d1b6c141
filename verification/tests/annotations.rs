//! The annotation-syntax parser.

use nasl_function::attrparse::parse_annotations;
use nasl_function::bindspec::Annotation;
use nasl_function::bindspec::AnnotationKind;
use nasl_function::error::BuildError;

#[test]
fn annotation_list_parses() {
    let annots = parse_annotations("named(keytype), maybe_named(port)").unwrap();
    assert_eq!(
        annots,
        vec![
            Annotation { kind: AnnotationKind::Named, ident: "keytype".to_string() },
            Annotation { kind: AnnotationKind::MaybeNamed, ident: "port".to_string() },
        ]
    );
}

#[test]
fn annotation_list_may_be_empty() {
    assert_eq!(parse_annotations("").unwrap(), vec![]);
    assert_eq!(parse_annotations("   ").unwrap(), vec![]);
}

#[test]
fn annotation_list_allows_a_trailing_comma() {
    let annots = parse_annotations("named(a),").unwrap();
    assert_eq!(annots, vec![Annotation { kind: AnnotationKind::Named, ident: "a".to_string() }]);
}

#[test]
fn annotation_spacing_is_free() {
    let annots = parse_annotations("  maybe_named ( sock_fd ) , named(x)  ").unwrap();
    assert_eq!(annots.len(), 2);
    assert_eq!(annots[0].kind, AnnotationKind::MaybeNamed);
    assert_eq!(annots[0].ident, "sock_fd".to_string());
    assert_eq!(annots[1].ident, "x".to_string());
}

#[test]
fn malformed_annotations_fail_the_build() {
    for text in [
        "named",
        "named(",
        "named()",
        "named(a",
        "named(a))",
        "named(a) named(b)",
        "named(a,b)",
        "named(1a)",
        "bogus(a)",
        "namedx(a)",
        ",named(a)",
        "named(a),,",
    ] {
        assert_eq!(
            parse_annotations(text),
            Err(BuildError::MalformedAnnotationSyntax),
            "accepted: {:?}",
            text
        );
    }
}
