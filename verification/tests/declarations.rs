use slash_commands::ast::{
    Attribute, FnArg, Lit, LitKind, Meta, NestedMeta, Pat, Path, PathSegment, Span, Stmt, Type,
    Visibility,
};
use slash_commands::error::DefinitionError;
use slash_commands::structures::{is_cooked, parse_argument, remove_cooked, Options, SlashCommandFun};
use slash_commands::synth::{slash_command, SynthesizedCommand};
use slash_commands::utils::{
    append_line, create_declaration_validations, with_suffix, Argument, AsOption,
};

fn sp(n: usize) -> Span {
    Span { lo: n, hi: n + 1 }
}

fn path1(s: &str, n: usize) -> Path {
    Path {
        segments: vec![PathSegment { ident: s.to_string(), has_arguments: false }],
        span: sp(n),
    }
}

fn lit_str(s: &str, n: usize) -> Lit {
    Lit { kind: LitKind::Str(s.to_string()), span: sp(n) }
}

fn named(t: &str) -> Type {
    Type::Named { name: t.to_string() }
}

fn reference(t: &str) -> Type {
    Type::Reference { lifetime: None, inner: Box::new(named(t)) }
}

fn context_ty() -> Type {
    reference("serenity::client::Context")
}

fn arg(name: &str, ty: Type) -> Argument {
    Argument { mutable: false, name: name.to_string(), kind: ty }
}

fn single(name: &str, item: NestedMeta, n: usize) -> Attribute {
    Attribute { meta: Meta::List { path: path1(name, n), nested: vec![item] }, span: sp(n) }
}

fn fun_with(attributes: Vec<Attribute>, args: Vec<Argument>) -> SlashCommandFun {
    SlashCommandFun {
        attributes,
        cooked: vec![],
        visibility: Visibility::Public,
        name: "quit".to_string(),
        args,
        ret: named("serenity::Result<()>"),
        body: vec![Stmt::Code { text: "shutdown()".to_string() }],
    }
}

#[test]
fn typed_binding_becomes_argument() {
    let a = FnArg::Typed {
        pat: Pat::Ident { name: "ctx".to_string(), mutable: true },
        ty: context_ty(),
        span: sp(1),
    };
    let r = parse_argument(a).unwrap();
    assert_eq!(r.name, "ctx");
    assert!(r.mutable);
    assert_eq!(r.kind, context_ty());
}

#[test]
fn wildcard_becomes_underscore_argument() {
    let a = FnArg::Typed { pat: Pat::Wild, ty: context_ty(), span: sp(1) };
    let r = parse_argument(a).unwrap();
    assert_eq!(r.name, "_");
    assert!(!r.mutable);
}

#[test]
fn self_receiver_is_rejected() {
    let a = FnArg::Receiver { span: sp(2) };
    assert_eq!(parse_argument(a), Err(DefinitionError::SelfArgument { span: sp(2) }));
}

#[test]
fn exotic_pattern_is_rejected() {
    let a = FnArg::Typed { pat: Pat::Other { span: sp(3) }, ty: context_ty(), span: sp(1) };
    assert_eq!(parse_argument(a), Err(DefinitionError::UnsupportedPattern { span: sp(3) }));
}

#[test]
fn cooked_annotations_are_split_off_in_order() {
    let cfg = Attribute { meta: Meta::Path(path1("cfg", 1)), span: sp(1) };
    let desc = Attribute {
        meta: Meta::NameValue { path: path1("description", 2), lit: lit_str("d", 2) },
        span: sp(2),
    };
    let allow = Attribute { meta: Meta::Path(path1("allow", 3)), span: sp(3) };
    assert!(is_cooked(&cfg));
    assert!(!is_cooked(&desc));
    let mut attrs = vec![cfg, desc, allow];
    let cooked = remove_cooked(&mut attrs);
    assert_eq!(cooked.len(), 2);
    assert!(matches!(&cooked[0].meta, Meta::Path(p) if p.segments[0].ident == "cfg"));
    assert!(matches!(&cooked[1].meta, Meta::Path(p) if p.segments[0].ident == "allow"));
    assert_eq!(attrs.len(), 1);
    assert!(matches!(&attrs[0].meta, Meta::NameValue { path, .. } if path.segments[0].ident == "description"));
}

#[test]
fn missing_return_type_is_fatal() {
    let r = SlashCommandFun::from_parts(
        vec![],
        Visibility::Public,
        "quit".to_string(),
        vec![],
        None,
        vec![],
        sp(8),
    );
    assert!(matches!(r, Err(DefinitionError::MissingReturnType { span }) if span == sp(8)));
}

#[test]
fn zero_parameters_are_auto_filled() {
    let mut f = fun_with(vec![], vec![]);
    f.attributes = vec![];
    assert!(create_declaration_validations(&mut f).is_ok());
    assert_eq!(f.args.len(), 2);
    assert_eq!(f.args[0].name, "_ctx");
    assert_eq!(f.args[0].kind, context_ty());
    assert_eq!(f.args[1].name, "_interaction");
    assert_eq!(
        f.args[1].kind,
        reference("serenity::model::interactions::application_command::ApplicationCommandInteraction")
    );
    // no type-mismatch assertion is injected for synthesized parameters
    assert_eq!(f.body.len(), 1);
}

#[test]
fn one_parameter_keeps_its_own_and_fills_the_payload() {
    let mut f = fun_with(vec![], vec![arg("ctx", context_ty())]);
    assert!(create_declaration_validations(&mut f).is_ok());
    assert_eq!(f.args.len(), 2);
    assert_eq!(f.args[0].name, "ctx");
    assert_eq!(f.args[1].name, "_interaction");
    // one injected assertion checks the declared parameter's type
    assert_eq!(f.body.len(), 2);
    assert!(matches!(&f.body[0], Stmt::TypeAssertEq { have, expect }
        if *have == context_ty() && *expect == context_ty()));
}

#[test]
fn two_parameters_get_two_type_assertions() {
    let mut f = fun_with(vec![], vec![arg("ctx", context_ty()), arg("i", named("Foo"))]);
    assert!(create_declaration_validations(&mut f).is_ok());
    assert_eq!(f.args.len(), 2);
    assert_eq!(f.body.len(), 3);
    assert!(matches!(&f.body[0], Stmt::TypeAssertEq { have, .. } if *have == named("Foo")));
    assert!(matches!(&f.body[1], Stmt::TypeAssertEq { have, .. } if *have == context_ty()));
}

#[test]
fn three_parameters_are_an_arity_error() {
    let mut f = fun_with(
        vec![],
        vec![arg("a", named("A")), arg("b", named("B")), arg("c", named("C"))],
    );
    let r = create_declaration_validations(&mut f);
    assert!(matches!(r, Err(DefinitionError::TooManyArguments { .. })));
    assert_eq!(f.args.len(), 3);
}

#[test]
fn plain_description_lines_join_with_a_newline() {
    let mut desc: AsOption<String> = AsOption(None);
    append_line(&mut desc, "Shuts down".to_string());
    append_line(&mut desc, "the bot".to_string());
    assert_eq!(desc.0, Some("Shuts down\nthe bot\n".to_string()));
}

#[test]
fn continuation_marker_joins_with_a_single_space() {
    let mut desc: AsOption<String> = AsOption(None);
    append_line(&mut desc, "Shuts down\\$".to_string());
    append_line(&mut desc, " the bot".to_string());
    assert_eq!(desc.0, Some("Shuts down the bot\n".to_string()));
}

#[test]
fn one_leading_space_is_stripped_per_line() {
    let mut desc: AsOption<String> = AsOption(None);
    append_line(&mut desc, "  indented".to_string());
    assert_eq!(desc.0, Some(" indented\n".to_string()));
}

#[test]
fn marker_line_is_trimmed_of_trailing_whitespace() {
    let mut desc: AsOption<String> = AsOption(None);
    append_line(&mut desc, "keep going   \\$".to_string());
    assert_eq!(desc.0, Some("keep going ".to_string()));
}

#[test]
fn with_suffix_uppercases_and_joins() {
    assert_eq!(with_suffix("ping", "COMMAND"), "PING_COMMAND");
    assert_eq!(with_suffix("r#try", "COMMAND"), "TRY_COMMAND");
}

#[test]
fn options_start_with_default_permission_granted() {
    let o = Options::new();
    assert!(o.description.0.is_none());
    assert!(o.guild_ids.is_empty());
    assert!(o.default_permission);
    assert!(o.permissions.is_empty());
    assert!(o.options.is_empty());
}

#[test]
fn synthesis_folds_every_recognized_key() {
    let attrs = vec![
        Attribute {
            meta: Meta::NameValue { path: path1("description", 1), lit: lit_str("Shuts down", 1) },
            span: sp(1),
        },
        single("guild", NestedMeta::Lit(Lit { kind: LitKind::Int(123), span: sp(2) }), 2),
        single("default_permission", NestedMeta::Lit(Lit { kind: LitKind::Bool(false), span: sp(3) }), 3),
        single("permission", NestedMeta::Lit(lit_str("p_admin", 4)), 4),
        single("option", NestedMeta::Lit(lit_str("o_target", 5)), 5),
    ];
    let f = fun_with(attrs, vec![arg("ctx", context_ty())]);
    let sc: SynthesizedCommand = slash_command(None, f).unwrap();
    assert_eq!(sc.name, "quit");
    assert_eq!(sc.struct_name, "QUIT_COMMAND");
    assert_eq!(sc.visibility, Visibility::Public);
    assert_eq!(sc.guilds, Some(vec![123]));
    assert_eq!(sc.description, Some("Shuts down\n".to_string()));
    assert!(!sc.default_permission);
    assert_eq!(sc.permissions.len(), 1);
    assert_eq!(sc.permissions[0].0, "p_admin");
    assert_eq!(sc.options.len(), 1);
    assert_eq!(sc.options[0].0, "o_target");
    // the declared parameter keeps its place and gains the async lifetime
    assert_eq!(sc.args.len(), 2);
    assert!(matches!(&sc.args[0].kind, Type::Reference { lifetime: Some(l), .. } if l == "'async_trait"));
    assert_eq!(sc.args[1].name, "_interaction");
    // the body leads with the return-type check, then the parameter check
    assert_eq!(sc.body.len(), 3);
    assert!(matches!(&sc.body[0], Stmt::TypeAssertEq { have, expect }
        if *have == named("serenity::Result<()>") && *expect == named("serenity::Result<()>")));
    assert!(matches!(&sc.body[1], Stmt::TypeAssertEq { have, .. } if *have == context_ty()));
    assert!(matches!(&sc.body[2], Stmt::Code { text } if text == "shutdown()"));
}

#[test]
fn no_scope_annotation_makes_the_command_global() {
    let f = fun_with(vec![], vec![]);
    let sc = slash_command(None, f).unwrap();
    assert_eq!(sc.guilds, None);
}

#[test]
fn one_scope_annotation_yields_exactly_that_scope() {
    let attrs = vec![single(
        "guild",
        NestedMeta::Lit(Lit { kind: LitKind::Int(77), span: sp(2) }),
        2,
    )];
    let f = fun_with(attrs, vec![]);
    let sc = slash_command(None, f).unwrap();
    assert_eq!(sc.guilds, Some(vec![77]));
}

#[test]
fn explicit_name_literal_overrides_the_declaration_name() {
    let f = fun_with(vec![], vec![]);
    let sc = slash_command(Some(lit_str("halt", 1)), f).unwrap();
    assert_eq!(sc.name, "halt");
    assert_eq!(sc.struct_name, "QUIT_COMMAND");
}

#[test]
fn raw_declaration_name_loses_its_prefix() {
    let mut f = fun_with(vec![], vec![]);
    f.name = "r#loop".to_string();
    let sc = slash_command(None, f).unwrap();
    assert_eq!(sc.name, "loop");
    assert_eq!(sc.struct_name, "LOOP_COMMAND");
}

#[test]
fn unknown_annotation_key_is_fatal() {
    let attrs = vec![Attribute { meta: Meta::Path(path1("colour", 6)), span: sp(6) }];
    let f = fun_with(attrs, vec![]);
    let e = slash_command(None, f).unwrap_err();
    assert_eq!(e, DefinitionError::UnknownAttribute { span: sp(6), name: "colour".to_string() });
}

#[test]
fn multi_line_description_accumulates_across_annotations() {
    let attrs = vec![
        Attribute {
            meta: Meta::NameValue { path: path1("description", 1), lit: lit_str("Shuts down\\$", 1) },
            span: sp(1),
        },
        Attribute {
            meta: Meta::NameValue { path: path1("description", 2), lit: lit_str(" the bot", 2) },
            span: sp(2),
        },
    ];
    let f = fun_with(attrs, vec![]);
    let sc = slash_command(None, f).unwrap();
    assert_eq!(sc.description, Some("Shuts down the bot\n".to_string()));
}

#[test]
fn from_parts_assembles_a_declaration() {
    let cfg = Attribute { meta: Meta::Path(path1("cfg", 1)), span: sp(1) };
    let desc = Attribute {
        meta: Meta::NameValue { path: path1("description", 2), lit: lit_str("d", 2) },
        span: sp(2),
    };
    let f = SlashCommandFun::from_parts(
        vec![cfg, desc],
        Visibility::Inherited,
        "quit".to_string(),
        vec![FnArg::Typed {
            pat: Pat::Ident { name: "ctx".to_string(), mutable: false },
            ty: context_ty(),
            span: sp(3),
        }],
        Some(named("serenity::Result<()>")),
        vec![],
        sp(9),
    )
    .unwrap();
    assert_eq!(f.cooked.len(), 1);
    assert_eq!(f.attributes.len(), 1);
    assert_eq!(f.visibility, Visibility::Inherited);
    assert_eq!(f.name, "quit");
    assert_eq!(f.args.len(), 1);
    assert_eq!(f.args[0].name, "ctx");
    assert_eq!(f.ret, named("serenity::Result<()>"));
}

#[test]
fn from_parts_rejects_a_self_parameter() {
    let r = SlashCommandFun::from_parts(
        vec![],
        Visibility::Public,
        "quit".to_string(),
        vec![FnArg::Receiver { span: sp(4) }],
        Some(named("serenity::Result<()>")),
        vec![],
        sp(9),
    );
    assert!(matches!(r, Err(DefinitionError::SelfArgument { span }) if span == sp(4)));
}
