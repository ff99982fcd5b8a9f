use edgedb_tokio_ext::cache::QueryCell;
use edgedb_tokio_ext::compiler::{projection_text, Registry};
use edgedb_tokio_ext::model::{
    AnnotationEntry, DeclaredType, DefinitionError, FieldDefinition, FieldSpec, ProjectionKind,
    RecordType,
};
use edgedb_tokio_ext::parser::{derive_shape, parse_field};
use edgedb_tokio_ext::template::{derive_shaped_query, is_space_char};

fn named(n: &str) -> DeclaredType {
    DeclaredType::Named(n.to_string())
}

fn entry(key: &str, value: Option<&str>) -> AnnotationEntry {
    AnnotationEntry { key: key.to_string(), value: value.map(|v| v.to_string()) }
}

fn def(name: &str, ty: DeclaredType, annotations: Vec<AnnotationEntry>) -> FieldDefinition {
    FieldDefinition { name: name.to_string(), declared_type: ty, annotations }
}

fn plain(name: &str) -> FieldSpec {
    FieldSpec { name: name.to_string(), kind: ProjectionKind::PlainName, nested: None }
}

fn organization() -> RecordType {
    RecordType { name: "Organization".to_string(), fields: vec![plain("id"), plain("name")] }
}

fn fragment_of(f: &FieldSpec, inner: &str) -> String {
    let mut out = String::new();
    projection_text(f, inner, &mut out);
    out
}

fn user_registry() -> Registry {
    let mut reg = Registry::new();
    reg.register(RecordType { name: "User".to_string(), fields: vec![plain("id"), plain("name")] });
    reg
}

#[test]
fn shape_test_macro_output() {
    let defs = vec![
        def("id", named("Uuid"), vec![]),
        def("org_name", named("String"), vec![entry("exp", Some(".org.name"))]),
        def("manager", named("User"), vec![entry("nested", None)]),
        def(
            "organizations",
            DeclaredType::Collection(Box::new(named("Organization"))),
            vec![entry("alias", Some("org")), entry("nested", None)],
        ),
    ];
    let user = derive_shape("User", &defs).unwrap();
    let output = fragment_of(&user.fields[0], "");
    assert!(output.contains("id, "));
}

#[test]
fn plain_fields_concatenate_in_order() {
    let mut reg = Registry::new();
    reg.register(RecordType {
        name: "Person".to_string(),
        fields: vec![plain("id"), plain("first"), plain("last"), plain("age")],
    });
    assert_eq!(reg.shape("Person").unwrap(), "id, first, last, age, ");
}

#[test]
fn record_without_fields_has_empty_shape() {
    let mut reg = Registry::new();
    reg.register(RecordType { name: "Empty".to_string(), fields: vec![] });
    assert_eq!(reg.shape("Empty").unwrap(), "");
}

#[test]
fn alias_fragment() {
    let f = parse_field(&def("age_value", named("i64"), vec![entry("alias", Some("age"))])).unwrap();
    assert_eq!(f.kind, ProjectionKind::Alias("age".to_string()));
    assert_eq!(fragment_of(&f, ""), "age_value := .age, ");
}

#[test]
fn expression_fragment() {
    let f = parse_field(&def("org_name", named("String"), vec![entry("exp", Some(".org.name"))])).unwrap();
    assert_eq!(fragment_of(&f, ""), "org_name := .org.name, ");
}

#[test]
fn nested_alias_composes_nested_shape() {
    let f = parse_field(&def(
        "organization",
        named("Organization"),
        vec![entry("alias", Some("org")), entry("nested", None)],
    ))
    .unwrap();
    let mut reg = Registry::new();
    reg.register(organization());
    reg.register(RecordType { name: "Member".to_string(), fields: vec![plain("id"), f] });
    let org_shape = reg.shape("Organization").unwrap();
    assert_eq!(org_shape, "id, name, ");
    assert_eq!(
        reg.shape("Member").unwrap(),
        format!("id, organization := .org {{ {} }}, ", org_shape)
    );
}

#[test]
fn nested_plain_field_projects_own_name() {
    let f = parse_field(&def("org", named("Organization"), vec![entry("nested", None)])).unwrap();
    let mut reg = Registry::new();
    reg.register(organization());
    reg.register(RecordType { name: "Member".to_string(), fields: vec![f] });
    assert_eq!(reg.shape("Member").unwrap(), "org := .org { id, name,  }, ");
}

#[test]
fn nested_option_resolves_inner_type() {
    let f = parse_field(&def(
        "organization",
        DeclaredType::Optional(Box::new(named("Organization"))),
        vec![entry("nested", None)],
    ))
    .unwrap();
    assert_eq!(f.nested, Some("Organization".to_string()));
}

#[test]
fn nested_collection_resolves_inner_type() {
    let f = parse_field(&def(
        "organizations",
        DeclaredType::Collection(Box::new(named("Organization"))),
        vec![entry("alias", Some("org")), entry("nested", None)],
    ))
    .unwrap();
    assert_eq!(f.nested, Some("Organization".to_string()));
    assert_eq!(f.kind, ProjectionKind::Alias("org".to_string()));
}

#[test]
fn nested_double_wrapper_is_rejected() {
    let r = parse_field(&def(
        "groups",
        DeclaredType::Collection(Box::new(DeclaredType::Optional(Box::new(named("Organization"))))),
        vec![entry("nested", None)],
    ));
    assert_eq!(r, Err(DefinitionError::NestedNotTypeReference { field: "groups".to_string() }));
}

#[test]
fn compiling_twice_gives_same_text() {
    let mut reg = Registry::new();
    reg.register(organization());
    let a = reg.shape("Organization").unwrap();
    let b = reg.shape("Organization").unwrap();
    assert_eq!(a, b);
}

#[test]
fn template_expansion() {
    let reg = user_registry();
    assert_eq!(reg.shape("User").unwrap(), "id, name, ");
    let r = derive_shaped_query("select User { shape::User }", &reg).unwrap();
    assert_eq!(r, "select User { id, name,  }");
}

#[test]
fn template_without_placeholders_is_unchanged() {
    let reg = user_registry();
    assert_eq!(derive_shaped_query("select 1", &reg).unwrap(), "select 1");
    assert_eq!(derive_shaped_query("", &reg).unwrap(), "");
    assert_eq!(derive_shaped_query("shape:: User", &reg).unwrap(), "shape:: User");
}

#[test]
fn template_with_several_placeholders() {
    let mut reg = user_registry();
    reg.register(organization());
    let r = derive_shaped_query("a shape::User b shape::Organization\nc shape::User", &reg).unwrap();
    assert_eq!(r, "a id, name,  b id, name, \nc id, name, ");
}

#[test]
fn inserted_text_is_not_rescanned() {
    let mut reg = Registry::new();
    reg.register(RecordType { name: "Outer".to_string(), fields: vec![plain("shape::Inner")] });
    let r = derive_shaped_query("{ shape::Outer }", &reg).unwrap();
    assert_eq!(r, "{ shape::Inner,  }");
}

#[test]
fn unknown_placeholder_fails() {
    let reg = user_registry();
    let r = derive_shaped_query("select Post { shape::Post }", &reg);
    assert_eq!(r, Err(DefinitionError::UnknownRecord { name: "Post".to_string() }));
}

#[test]
fn cache_cell_expands_once() {
    let reg = user_registry();
    let mut cell = QueryCell::new();
    assert_eq!(cell.get(), None);
    let first = cell.get_or_expand("select User { shape::User }", &reg).unwrap();
    let second = cell.get_or_expand("select User { shape::User }", &reg).unwrap();
    assert_eq!(first, second);
    assert_eq!(cell.expansions(), 1);
    let empty = Registry::new();
    let third = cell.get_or_expand("select User { shape::User }", &empty).unwrap();
    assert_eq!(third, first);
    assert_eq!(cell.expansions(), 1);
    assert_eq!(cell.get(), Some(first));
}

#[test]
fn separate_cells_are_independent() {
    let reg = user_registry();
    let mut a = QueryCell::new();
    let mut b = QueryCell::new();
    a.get_or_expand("shape::User", &reg).unwrap();
    assert_eq!(b.get(), None);
    assert_eq!(b.get_or_expand("shape::User", &reg).unwrap(), "id, name, ");
    assert_eq!(a.expansions(), 1);
    assert_eq!(b.expansions(), 1);
}

#[test]
fn failed_expansion_leaves_cell_empty() {
    let reg = user_registry();
    let mut cell = QueryCell::new();
    assert!(cell.get_or_expand("shape::Nope", &reg).is_err());
    assert_eq!(cell.get(), None);
    assert_eq!(cell.get_or_expand("shape::User", &reg).unwrap(), "id, name, ");
    assert_eq!(cell.expansions(), 2);
}

#[test]
fn alias_and_exp_conflict() {
    let r = parse_field(&def(
        "x",
        named("String"),
        vec![entry("alias", Some("a")), entry("exp", Some(".b"))],
    ));
    assert_eq!(r, Err(DefinitionError::ConflictingProjection { field: "x".to_string() }));
}

#[test]
fn empty_alias_fails() {
    let r = parse_field(&def("x", named("String"), vec![entry("alias", Some(""))]));
    assert_eq!(r, Err(DefinitionError::EmptyAlias { field: "x".to_string() }));
}

#[test]
fn empty_expression_fails() {
    let r = parse_field(&def("x", named("String"), vec![entry("exp", Some(""))]));
    assert_eq!(r, Err(DefinitionError::EmptyExpression { field: "x".to_string() }));
}

#[test]
fn unknown_annotation_fails() {
    let r = parse_field(&def("x", named("String"), vec![entry("rename", Some("y"))]));
    assert_eq!(
        r,
        Err(DefinitionError::UnknownAnnotation { field: "x".to_string(), key: "rename".to_string() })
    );
}

#[test]
fn alias_without_value_fails() {
    let r = parse_field(&def("x", named("String"), vec![entry("alias", None)]));
    assert_eq!(r, Err(DefinitionError::MissingValue { field: "x".to_string(), key: "alias".to_string() }));
}

#[test]
fn nested_with_value_fails() {
    let r = parse_field(&def("x", named("Org"), vec![entry("nested", Some("yes"))]));
    assert_eq!(r, Err(DefinitionError::UnexpectedValue { field: "x".to_string(), key: "nested".to_string() }));
}

#[test]
fn nested_on_non_path_type_fails() {
    let r = parse_field(&def("pair", DeclaredType::Other, vec![entry("nested", None)]));
    assert_eq!(r, Err(DefinitionError::NestedNotTypeReference { field: "pair".to_string() }));
}

#[test]
fn derive_shape_reports_first_bad_field() {
    let defs = vec![
        def("id", named("Uuid"), vec![]),
        def("a", named("String"), vec![entry("alias", Some(""))]),
        def("b", DeclaredType::Other, vec![entry("nested", None)]),
    ];
    assert_eq!(derive_shape("T", &defs), Err(DefinitionError::EmptyAlias { field: "a".to_string() }));
}

#[test]
fn unannotated_field_is_plain() {
    let f = parse_field(&def("id", named("Uuid"), vec![])).unwrap();
    assert_eq!(f, plain("id"));
}

#[test]
fn expression_ignores_nested() {
    let f = parse_field(&def(
        "org_name",
        named("Organization"),
        vec![entry("exp", Some(".org.name")), entry("nested", None)],
    ))
    .unwrap();
    let mut reg = Registry::new();
    reg.register(RecordType { name: "T".to_string(), fields: vec![f] });
    assert_eq!(reg.shape("T").unwrap(), "org_name := .org.name, ");
}

#[test]
fn unregistered_nested_type_fails() {
    let f = parse_field(&def("org", named("Organization"), vec![entry("nested", None)])).unwrap();
    let mut reg = Registry::new();
    reg.register(RecordType { name: "T".to_string(), fields: vec![f] });
    assert_eq!(reg.shape("T"), Err(DefinitionError::UnknownRecord { name: "Organization".to_string() }));
    assert_eq!(reg.shape("Nope"), Err(DefinitionError::UnknownRecord { name: "Nope".to_string() }));
}

#[test]
fn self_reference_is_a_cycle() {
    let f = parse_field(&def("manager", named("User"), vec![entry("nested", None)])).unwrap();
    let mut reg = Registry::new();
    reg.register(RecordType { name: "User".to_string(), fields: vec![plain("id"), f] });
    assert_eq!(reg.shape("User"), Err(DefinitionError::NestingCycle { name: "User".to_string() }));
}

#[test]
fn mutual_reference_is_a_cycle() {
    let to_b = parse_field(&def("b", named("B"), vec![entry("nested", None)])).unwrap();
    let to_a = parse_field(&def("a", named("A"), vec![entry("nested", None)])).unwrap();
    let mut reg = Registry::new();
    reg.register(RecordType { name: "A".to_string(), fields: vec![to_b] });
    reg.register(RecordType { name: "B".to_string(), fields: vec![to_a] });
    assert!(matches!(reg.shape("A"), Err(DefinitionError::NestingCycle { .. })));
}

#[test]
fn deep_acyclic_chain_resolves() {
    let mut reg = Registry::new();
    reg.register(RecordType {
        name: "A".to_string(),
        fields: vec![parse_field(&def("b", named("B"), vec![entry("nested", None)])).unwrap()],
    });
    reg.register(RecordType {
        name: "B".to_string(),
        fields: vec![parse_field(&def("c", named("C"), vec![entry("nested", None)])).unwrap()],
    });
    reg.register(RecordType { name: "C".to_string(), fields: vec![plain("id")] });
    assert_eq!(reg.shape("A").unwrap(), "b := .b { c := .c { id,  },  }, ");
}

#[test]
fn white_space_classification() {
    assert!(is_space_char(' '));
    assert!(is_space_char('\n'));
    assert!(is_space_char('\u{3000}'));
    assert!(!is_space_char('x'));
    assert!(!is_space_char('}'));
}

#[test]
fn repeated_alias_conflicts() {
    let r = parse_field(&def(
        "x",
        named("String"),
        vec![entry("alias", Some("a")), entry("alias", Some("b"))],
    ));
    assert_eq!(r, Err(DefinitionError::ConflictingProjection { field: "x".to_string() }));
}

#[test]
fn placeholder_name_ends_at_white_space() {
    let reg = user_registry();
    assert_eq!(derive_shaped_query("shape::User\tx", &reg).unwrap(), "id, name, \tx");
    assert_eq!(derive_shaped_query("{shape::User", &reg).unwrap(), "{id, name, ");
    let r = derive_shaped_query("{ shape::User}", &reg);
    assert_eq!(r, Err(DefinitionError::UnknownRecord { name: "User}".to_string() }));
}

#[test]
fn non_ascii_text_is_kept() {
    let reg = user_registry();
    let r = derive_shaped_query("sélect ✓ { shape::User }", &reg).unwrap();
    assert_eq!(r, "sélect ✓ { id, name,  }");
}
