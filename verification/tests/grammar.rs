use slash_commands::ast::{Attribute, Ident, Lit, LitKind, Meta, NestedMeta, Path, PathSegment, Span};
use slash_commands::attributes::{
    is_form_acceptable, parse, parse_values, to_ident, validate, ValueKind, Values,
};
use slash_commands::error::DefinitionError;
use slash_commands::utils::AsOption;

fn sp(n: usize) -> Span {
    Span { lo: n, hi: n + 1 }
}

fn seg(s: &str) -> PathSegment {
    PathSegment { ident: s.to_string(), has_arguments: false }
}

fn path1(s: &str, n: usize) -> Path {
    Path { segments: vec![seg(s)], span: sp(n) }
}

fn lit_str(s: &str, n: usize) -> Lit {
    Lit { kind: LitKind::Str(s.to_string()), span: sp(n) }
}

fn lit_int(v: u64, n: usize) -> Lit {
    Lit { kind: LitKind::Int(v), span: sp(n) }
}

fn lit_bool(b: bool, n: usize) -> Lit {
    Lit { kind: LitKind::Bool(b), span: sp(n) }
}

fn values1(name: &str, kind: ValueKind, lit: Lit) -> Values {
    Values::new(name.to_string(), kind, vec![lit], sp(0))
}

#[test]
fn bare_annotation_parses_to_name_form() {
    let attr = Attribute { meta: Meta::Path(path1("default_permission", 1)), span: sp(9) };
    let v = parse_values(attr).unwrap();
    assert_eq!(v.name, "default_permission");
    assert_eq!(v.kind, ValueKind::Name);
    assert!(v.literals.is_empty());
    assert_eq!(v.span, sp(9));
}

#[test]
fn name_value_annotation_parses_to_equals_form() {
    let attr = Attribute {
        meta: Meta::NameValue { path: path1("description", 1), lit: lit_str("hello", 2) },
        span: sp(9),
    };
    let v = parse_values(attr).unwrap();
    assert_eq!(v.kind, ValueKind::Equals);
    assert_eq!(v.literals, vec![lit_str("hello", 2)]);
}

#[test]
fn one_element_group_is_single_list() {
    let attr = Attribute {
        meta: Meta::List {
            path: path1("guild", 1),
            nested: vec![NestedMeta::Lit(lit_int(5, 2))],
        },
        span: sp(9),
    };
    let v = parse_values(attr).unwrap();
    assert_eq!(v.kind, ValueKind::SingleList);
    assert_eq!(v.literals, vec![lit_int(5, 2)]);
}

#[test]
fn two_element_group_is_list() {
    let attr = Attribute {
        meta: Meta::List {
            path: path1("guild", 1),
            nested: vec![NestedMeta::Lit(lit_int(5, 2)), NestedMeta::Lit(lit_int(6, 3))],
        },
        span: sp(9),
    };
    let v = parse_values(attr).unwrap();
    assert_eq!(v.kind, ValueKind::List);
    assert_eq!(v.literals, vec![lit_int(5, 2), lit_int(6, 3)]);
}

#[test]
fn empty_group_is_fatal_empty_list_error() {
    let attr = Attribute {
        meta: Meta::List { path: path1("guild", 1), nested: vec![] },
        span: sp(9),
    };
    assert_eq!(parse_values(attr), Err(DefinitionError::EmptyList { span: sp(9) }));
}

#[test]
fn bare_identifier_in_group_becomes_string_literal() {
    let attr = Attribute {
        meta: Meta::List {
            path: path1("permission", 1),
            nested: vec![NestedMeta::Meta(Meta::Path(path1("admin_only", 4)))],
        },
        span: sp(9),
    };
    let v = parse_values(attr).unwrap();
    assert_eq!(v.literals, vec![lit_str("admin_only", 4)]);
}

#[test]
fn nested_group_is_rejected() {
    let inner = Meta::List { path: path1("x", 2), nested: vec![NestedMeta::Lit(lit_int(1, 3))] };
    let attr = Attribute {
        meta: Meta::List { path: path1("guild", 1), nested: vec![NestedMeta::Meta(inner)] },
        span: sp(9),
    };
    assert_eq!(parse_values(attr), Err(DefinitionError::NestedList { span: sp(9) }));
}

#[test]
fn multi_segment_path_is_rejected() {
    let p = Path { segments: vec![seg("a"), seg("b")], span: sp(4) };
    assert_eq!(to_ident(p), Err(DefinitionError::MultiSegmentPath { span: sp(4) }));
}

#[test]
fn empty_path_is_rejected() {
    let p = Path { segments: vec![], span: sp(4) };
    assert_eq!(to_ident(p), Err(DefinitionError::EmptyPath { span: sp(4) }));
}

#[test]
fn path_with_generic_arguments_is_rejected() {
    let p = Path {
        segments: vec![PathSegment { ident: "a".to_string(), has_arguments: true }],
        span: sp(4),
    };
    assert_eq!(to_ident(p), Err(DefinitionError::PathArguments { span: sp(4) }));
}

#[test]
fn single_list_is_accepted_where_list_is_expected() {
    assert!(is_form_acceptable(&vec![ValueKind::List], ValueKind::SingleList));
}

#[test]
fn list_is_not_accepted_where_only_single_list_is_expected() {
    assert!(!is_form_acceptable(&vec![ValueKind::SingleList], ValueKind::List));
}

#[test]
fn validate_rejects_unacceptable_form_with_span() {
    let v = Values::new("guild".to_string(), ValueKind::Equals, vec![lit_int(5, 2)], sp(7));
    assert_eq!(
        validate(&v, &vec![ValueKind::SingleList]),
        Err(DefinitionError::UnacceptableForm { span: sp(7), found: ValueKind::Equals })
    );
}

#[test]
fn bare_boolean_coerces_to_true() {
    let v = Values::new("default_permission".to_string(), ValueKind::Name, vec![], sp(0));
    assert_eq!(parse::<bool>(v), Ok(true));
}

#[test]
fn false_literal_coerces_to_false() {
    let v = values1("default_permission", ValueKind::SingleList, lit_bool(false, 1));
    assert_eq!(parse::<bool>(v), Ok(false));
}

#[test]
fn boolean_accepts_string_spellings() {
    let t = values1("default_permission", ValueKind::SingleList, lit_str("true", 1));
    assert_eq!(parse::<bool>(t), Ok(true));
    let f = values1("default_permission", ValueKind::SingleList, lit_str("false", 1));
    assert_eq!(parse::<bool>(f), Ok(false));
    let bad = values1("default_permission", ValueKind::SingleList, lit_str("yes", 1));
    assert_eq!(parse::<bool>(bad), Err(DefinitionError::NotBoolLiteral { span: sp(1) }));
}

#[test]
fn string_coercion_takes_equals_and_single_list_only() {
    let ok = values1("description", ValueKind::Equals, lit_str("hi", 1));
    assert_eq!(parse::<String>(ok), Ok("hi".to_string()));
    let wrong_form = Values::new("description".to_string(), ValueKind::Name, vec![], sp(3));
    assert_eq!(
        parse::<String>(wrong_form),
        Err(DefinitionError::UnacceptableForm { span: sp(3), found: ValueKind::Name })
    );
    let not_str = values1("description", ValueKind::Equals, lit_int(3, 2));
    assert_eq!(parse::<String>(not_str), Err(DefinitionError::NotStringLiteral { span: sp(2) }));
}

#[test]
fn integer_coercion_takes_native_and_decimal_strings() {
    let native = values1("guild", ValueKind::SingleList, lit_int(123, 1));
    assert_eq!(parse::<u64>(native), Ok(123));
    let as_string = values1("guild", ValueKind::SingleList, lit_str("456", 1));
    assert_eq!(parse::<u64>(as_string), Ok(456));
    let max = values1("guild", ValueKind::SingleList, lit_str("18446744073709551615", 1));
    assert_eq!(parse::<u64>(max), Ok(u64::MAX));
}

#[test]
fn integer_coercion_rejects_bad_and_overflowing_strings() {
    let bad = values1("guild", ValueKind::SingleList, lit_str("12a", 1));
    assert_eq!(parse::<u64>(bad), Err(DefinitionError::InvalidInteger { span: sp(1) }));
    let too_big = values1("guild", ValueKind::SingleList, lit_str("18446744073709551616", 1));
    assert_eq!(parse::<u64>(too_big), Err(DefinitionError::InvalidInteger { span: sp(1) }));
    let empty = values1("guild", ValueKind::SingleList, lit_str("", 1));
    assert_eq!(parse::<u64>(empty), Err(DefinitionError::InvalidInteger { span: sp(1) }));
}

#[test]
fn identifier_coercion_checks_validity() {
    let ok = values1("permission", ValueKind::SingleList, lit_str("admin_only", 1));
    assert_eq!(parse::<Ident>(ok), Ok(Ident("admin_only".to_string())));
    let bad = values1("permission", ValueKind::SingleList, lit_str("1abc", 1));
    assert_eq!(parse::<Ident>(bad), Err(DefinitionError::InvalidIdentifier { span: sp(1) }));
    let underscore = values1("permission", ValueKind::SingleList, lit_str("_", 1));
    assert_eq!(
        parse::<Ident>(underscore),
        Err(DefinitionError::InvalidIdentifier { span: sp(1) })
    );
}

#[test]
fn list_coercion_converts_each_element() {
    let v = Values::new(
        "guild".to_string(),
        ValueKind::List,
        vec![lit_int(1, 1), lit_str("2", 2)],
        sp(0),
    );
    assert_eq!(parse::<Vec<u64>>(v), Ok(vec![1, 2]));
    let v = Values::new(
        "guild".to_string(),
        ValueKind::List,
        vec![lit_int(1, 1), lit_str("x", 2)],
        sp(0),
    );
    assert_eq!(parse::<Vec<u64>>(v), Err(DefinitionError::InvalidInteger { span: sp(2) }));
}

#[test]
fn optional_string_maps_absence_to_none() {
    let none = Values::new("name".to_string(), ValueKind::Name, vec![], sp(0));
    assert_eq!(parse::<Option<String>>(none), Ok(None));
    let some = values1("name", ValueKind::Equals, lit_str("x", 1));
    assert_eq!(parse::<Option<String>>(some), Ok(Some("x".to_string())));
}

#[test]
fn as_option_wraps_the_inner_coercion() {
    let v = values1("description", ValueKind::SingleList, lit_str("hi", 1));
    let r: AsOption<String> = parse::<AsOption<String>>(v).unwrap();
    assert_eq!(r.0, Some("hi".to_string()));
}

#[test]
fn error_span_accessor_returns_the_carried_span() {
    assert_eq!(DefinitionError::EmptyList { span: sp(3) }.span(), sp(3));
    assert_eq!(
        DefinitionError::UnknownAttribute { span: sp(4), name: "x".to_string() }.span(),
        sp(4)
    );
}

#[test]
fn form_descriptions_match_the_annotation_shapes() {
    assert_eq!(ValueKind::Name.describe(), "`#[<name>]`");
    assert_eq!(ValueKind::Equals.describe(), "`#[<name> = <value>]`");
    assert_eq!(ValueKind::List.describe(), "`#[<name>([<value>, <value>, <value>, ...])]`");
    assert_eq!(ValueKind::SingleList.describe(), "`#[<name>(<value>)]`");
}

#[test]
fn a_required_literal_cannot_be_absent() {
    let v = Values::new("description".to_string(), ValueKind::Equals, vec![], sp(0));
    assert_eq!(
        parse::<String>(v),
        Err(DefinitionError::MissingLiteral { span: Span { lo: 0, hi: 0 } })
    );
}

#[test]
fn as_option_maps_its_wrapped_value() {
    let some: AsOption<u64> = AsOption(Some(20));
    assert_eq!(some.map(|x| x + 1).0, Some(21));
    let none: AsOption<u64> = AsOption(None);
    assert_eq!(none.map(|x| x + 1).0, None);
    let defaulted: AsOption<u64> = AsOption::default();
    assert_eq!(defaulted.0, None);
}
