//! The descriptor synthesizer: folds a declaration's recognized annotations
//! into an [`Options`] record and turns the validated declaration into a
//! [`SynthesizedCommand`] — the immutable artifact holding the command's
//! name, scopes, creation settings, permission and option references, and
//! the callback wrapper's signature and body.

use vstd::prelude::*;
use vstd::string::{StrSliceExecFns, StringExecFns};

use crate::ast::{Attribute, Ident, Lit, Span, Stmt, Type, Visibility};
use crate::attributes::{
    lit_str_spec, lit_to_str, parse, parse_spec_parts, parse_values, values_of_attr,
    AttributeOption,
};
use crate::error::DefinitionError;
use crate::structures::{Options, OptionsView, SlashCommandFun};
use crate::utils::{
    append_line, appended_line, create_declaration_validations, create_return_type_validation,
    fut_lifetime_rel, is_context_type, is_interaction_type, is_result_type, non_raw_spec,
    populate_fut_lifetimes_on_refs, result_type, to_string_non_raw, upper_seq, with_suffix,
    Argument,
};

verus! {

/// The empty options view the fold starts from: no description, no scopes,
/// no unit references, default permission granted.
pub open spec fn initial_options() -> OptionsView {
    OptionsView {
        description: None,
        guild_ids: Seq::empty(),
        default_permission: true,
        permissions: Seq::empty(),
        options: Seq::empty(),
    }
}

/// The description sequence an accumulator holds, empty when none has been
/// set yet.
pub open spec fn opt_desc(d: Option<Seq<char>>) -> Seq<char> {
    match d {
        Some(s) => s,
        None => Seq::empty(),
    }
}

/// What folding one recognized annotation into the accumulator yields:
/// `description` folds a line, `guild` appends a scope id,
/// `default_permission` replaces the flag, `permission` and `option` append
/// a unit reference, and any other key is a fatal unknown-attribute error
/// naming the key.
pub open spec fn apply_attr(acc: OptionsView, attr: Attribute) -> Result<
    OptionsView,
    DefinitionError,
> {
    match values_of_attr(attr) {
        Err(e) => Err(e),
        Ok(t) => {
            let name = t.0;
            let kind = t.1;
            let lits = t.2;
            let span = t.3;
            if name@ == "description"@ {
                match parse_spec_parts::<String>(kind, lits, span) {
                    Err(e) => Err(e),
                    Ok(line) => Ok(
                        OptionsView {
                            description: Some(appended_line(opt_desc(acc.description), line)),
                            ..acc
                        },
                    ),
                }
            } else if name@ == "guild"@ {
                match parse_spec_parts::<u64>(kind, lits, span) {
                    Err(e) => Err(e),
                    Ok(g) => Ok(OptionsView { guild_ids: acc.guild_ids.push(g), ..acc }),
                }
            } else if name@ == "default_permission"@ {
                match parse_spec_parts::<bool>(kind, lits, span) {
                    Err(e) => Err(e),
                    Ok(b) => Ok(OptionsView { default_permission: b, ..acc }),
                }
            } else if name@ == "permission"@ {
                match parse_spec_parts::<Ident>(kind, lits, span) {
                    Err(e) => Err(e),
                    Ok(p) => Ok(OptionsView { permissions: acc.permissions.push(p), ..acc }),
                }
            } else if name@ == "option"@ {
                match parse_spec_parts::<Ident>(kind, lits, span) {
                    Err(e) => Err(e),
                    Ok(o) => Ok(OptionsView { options: acc.options.push(o), ..acc }),
                }
            } else {
                Err(DefinitionError::UnknownAttribute { span, name })
            }
        },
    }
}

/// What folding all recognized annotations, in declaration order, yields:
/// the final accumulator, or the first annotation's error.
pub open spec fn fold_attrs(acc: OptionsView, attrs: Seq<Attribute>) -> Result<
    OptionsView,
    DefinitionError,
>
    decreases attrs.len(),
{
    if attrs.len() == 0 {
        Ok(acc)
    } else {
        match apply_attr(acc, attrs[0]) {
            Err(e) => Err(e),
            Ok(acc2) => fold_attrs(acc2, attrs.drop_first()),
        }
    }
}

/// Fold a declaration's recognized annotations into an [`Options`] record.
#[verifier::loop_isolation(false)]
pub fn fold_options(attrs: Vec<Attribute>) -> (r: Result<Options, DefinitionError>)
    ensures
        (match r {
            Ok(o) => fold_attrs(initial_options(), attrs@) == Ok::<
                OptionsView,
                DefinitionError,
            >(o@),
            Err(e) => fold_attrs(initial_options(), attrs@) == Err::<
                OptionsView,
                DefinitionError,
            >(e),
        }),
{
    let mut options = Options::new();
    proof {
        assert(options@ == initial_options());
    }
    let key_description = String::from_str("description");
    let key_guild = String::from_str("guild");
    let key_default_permission = String::from_str("default_permission");
    let key_permission = String::from_str("permission");
    let key_option = String::from_str("option");
    let ghost orig = attrs@;
    let mut rest = attrs;
    while rest.len() > 0
        invariant
            fold_attrs(initial_options(), orig) == fold_attrs(options@, rest@),
        decreases rest.len(),
    {
        let ghost rest0 = rest@;
        let ghost acc0 = options@;
        let attr = rest.remove(0);
        proof {
            assert(rest0[0] == attr);
            assert(rest@ =~= rest0.drop_first());
        }
        let values = match parse_values(attr) {
            Ok(v) => v,
            Err(e) => {
                proof {
                    assert(apply_attr(acc0, rest0[0]) == Err::<OptionsView, DefinitionError>(e));
                }
                return Err(e);
            },
        };
        if values.name == key_description {
            let line: String = match parse::<String>(values) {
                Ok(l) => l,
                Err(e) => {
                    proof {
                        assert(apply_attr(acc0, rest0[0]) == Err::<OptionsView, DefinitionError>(
                            e,
                        ));
                    }
                    return Err(e);
                },
            };
            append_line(&mut options.description, line);
        } else if values.name == key_guild {
            let guild_id: u64 = match parse::<u64>(values) {
                Ok(g) => g,
                Err(e) => {
                    proof {
                        assert(apply_attr(acc0, rest0[0]) == Err::<OptionsView, DefinitionError>(
                            e,
                        ));
                    }
                    return Err(e);
                },
            };
            options.guild_ids.push(guild_id);
        } else if values.name == key_default_permission {
            let default_permission: bool = match parse::<bool>(values) {
                Ok(b) => b,
                Err(e) => {
                    proof {
                        assert(apply_attr(acc0, rest0[0]) == Err::<OptionsView, DefinitionError>(
                            e,
                        ));
                    }
                    return Err(e);
                },
            };
            options.default_permission = default_permission;
        } else if values.name == key_permission {
            let permission_name: Ident = match parse::<Ident>(values) {
                Ok(p) => p,
                Err(e) => {
                    proof {
                        assert(apply_attr(acc0, rest0[0]) == Err::<OptionsView, DefinitionError>(
                            e,
                        ));
                    }
                    return Err(e);
                },
            };
            let ghost pv = permission_name.deep_view();
            options.permissions.push(permission_name);
            proof {
                assert(options.permissions.deep_view() =~= acc0.permissions.push(pv));
            }
        } else if values.name == key_option {
            let option_name: Ident = match parse::<Ident>(values) {
                Ok(o) => o,
                Err(e) => {
                    proof {
                        assert(apply_attr(acc0, rest0[0]) == Err::<OptionsView, DefinitionError>(
                            e,
                        ));
                    }
                    return Err(e);
                },
            };
            let ghost ov = option_name.deep_view();
            options.options.push(option_name);
            proof {
                assert(options.options.deep_view() =~= acc0.options.push(ov));
            }
        } else {
            let e = DefinitionError::UnknownAttribute { span: values.span, name: values.name };
            proof {
                assert(apply_attr(acc0, rest0[0]) matches Err(e2) && e == e2);
            }
            return Err(e);
        }
        proof {
            assert(apply_attr(acc0, rest0[0]) is Ok);
            assert(apply_attr(acc0, rest0[0])->Ok_0 =~= options@);
        }
    }
    proof {
        assert(fold_attrs(options@, rest@) == Ok::<OptionsView, DefinitionError>(options@));
    }
    Ok(options)
}

/// The immutable synthesized artifact of one command declaration: the
/// pass-through annotations and visibility kept verbatim, the name of the
/// per-command item, the command's name, its scopes (`None` meaning global),
/// its creation settings, its permission and option unit references, and the
/// callback wrapper's validated signature and body.
#[derive(Debug)]
pub struct SynthesizedCommand {
    pub cooked: Vec<Attribute>,
    pub visibility: Visibility,
    pub struct_name: String,
    pub name: String,
    pub guilds: Option<Vec<u64>>,
    pub description: Option<String>,
    pub default_permission: bool,
    pub permissions: Vec<Ident>,
    pub options: Vec<Ident>,
    pub args: Vec<Argument>,
    pub ret: Type,
    pub body: Vec<Stmt>,
}

/// Whether `t` is the context parameter type with the callback's async
/// lifetime filled in.
pub open spec fn is_async_context_type(t: Type) -> bool {
    match t {
        Type::Reference { lifetime, inner } => (lifetime matches Some(l) && l@
            == "'async_trait"@) && match *inner {
            Type::Named { name } => name@ == "serenity::client::Context"@,
            _ => false,
        },
        _ => false,
    }
}

/// Whether `t` is the payload parameter type with the callback's async
/// lifetime filled in.
pub open spec fn is_async_interaction_type(t: Type) -> bool {
    match t {
        Type::Reference { lifetime, inner } => (lifetime matches Some(l) && l@
            == "'async_trait"@) && match *inner {
            Type::Named { name } => name@
                == "serenity::model::interactions::application_command::ApplicationCommandInteraction"@,
            _ => false,
        },
        _ => false,
    }
}

/// How the synthesized callback's parameter list relates to the declared
/// one: the declared parameters come first, each reference among them tied
/// to the callback's async lifetime, and the missing ones are filled with
/// placeholder names and the expected types.
pub open spec fn synthesized_args_ok(decl: Seq<Argument>, out: Seq<Argument>) -> bool {
    let n = decl.len();
    &&& out.len() == 2
    &&& forall|i: int| 0 <= i < n ==> fut_lifetime_rel(decl[i], #[trigger] out[i])
    &&& n == 0 ==> out[0].name@ == "_ctx"@ && is_async_context_type(out[0].kind) && out[1].name@
        == "_interaction"@ && is_async_interaction_type(out[1].kind)
    &&& n == 1 ==> out[1].name@ == "_interaction"@ && is_async_interaction_type(out[1].kind)
}

/// How the synthesized callback's body relates to the declared one: one
/// build-time assertion that the declared return type is the platform's
/// result type, then one per declared parameter asserting its type, then the
/// declared body verbatim.
pub open spec fn synthesized_body_ok(fun: SlashCommandFun, out: Seq<Stmt>) -> bool {
    let n = fun.args@.len();
    &&& out.len() == fun.body@.len() + 1 + n
    &&& out.skip(1 + n as int) == fun.body@
    &&& (out[0] matches Stmt::TypeAssertEq { have, expect } && have == fun.ret && is_result_type(
        expect,
    ))
    &&& n >= 1 ==> (out[1 + (n - 1)] matches Stmt::TypeAssertEq { have, expect } && have
        == fun.args@[0].kind && is_context_type(expect))
    &&& n == 2 ==> (out[1] matches Stmt::TypeAssertEq { have, expect } && have
        == fun.args@[1].kind && is_interaction_type(expect))
}

/// Synthesize the command artifact from a validated declaration. The
/// command's name is the name literal if one was given, else the
/// declaration's own (non-raw) name; the annotations fold into the creation
/// and permission settings; an empty scope list makes the command global;
/// and the declaration's shape is enforced while the callback wrapper is
/// assembled.
pub fn slash_command(attr_name: Option<Lit>, fun: SlashCommandFun) -> (r: Result<
    SynthesizedCommand,
    DefinitionError,
>)
    ensures
        (match r {
            Ok(sc) => {
                &&& (match attr_name {
                    Some(l) => lit_str_spec(l) matches Ok(s) && sc.name == s,
                    None => sc.name@ == non_raw_spec(fun.name@),
                })
                &&& fold_attrs(initial_options(), fun.attributes@) matches Ok(o) && {
                    &&& (match sc.description {
                        Some(d) => o.description == Some(d@),
                        None => o.description is None,
                    })
                    &&& o.guild_ids.len() == 0 ==> sc.guilds is None
                    &&& o.guild_ids.len() > 0 ==> (sc.guilds matches Some(g) && g@ == o.guild_ids)
                    &&& sc.default_permission == o.default_permission
                    &&& sc.permissions.deep_view() == o.permissions
                    &&& sc.options.deep_view() == o.options
                }
                &&& fun.args@.len() <= 2
                &&& sc.struct_name@ == upper_seq(non_raw_spec(fun.name@)) + seq!['_'] + "COMMAND"@
                &&& sc.visibility == fun.visibility
                &&& sc.cooked == fun.cooked
                &&& sc.ret == fun.ret
                &&& synthesized_args_ok(fun.args@, sc.args@)
                &&& synthesized_body_ok(fun, sc.body@)
            },
            Err(e) => ({
                let name_err = attr_name matches Some(l) && lit_str_spec(l) is Err;
                let fold_r = fold_attrs(initial_options(), fun.attributes@);
                &&& name_err ==> (attr_name matches Some(l) && lit_str_spec(l) == Err::<
                    String,
                    DefinitionError,
                >(e))
                &&& !name_err && fold_r is Err ==> fold_r == Err::<OptionsView, DefinitionError>(e)
                &&& !name_err && fold_r is Ok ==> fun.args@.len() > 2 && e == (
                DefinitionError::TooManyArguments { span: Span::absent_spec() })
            }),
        }),
{
    let name = match attr_name {
        Some(l) => match lit_to_str(&l) {
            Ok(s) => s,
            Err(e) => {
                return Err(e);
            },
        },
        None => to_string_non_raw(fun.name.as_str()),
    };

    let SlashCommandFun { attributes, cooked, visibility, name: fn_name, args, ret, body } = fun;

    let options = match fold_options(attributes) {
        Ok(o) => o,
        Err(e) => {
            return Err(e);
        },
    };
    let Options { description, guild_ids, default_permission, permissions, options: opt_refs } =
        options;

    let mut f = SlashCommandFun {
        attributes: Vec::new(),
        cooked,
        visibility,
        name: fn_name,
        args,
        ret,
        body,
    };
    let ghost n = fun.args@.len();
    match create_declaration_validations(&mut f) {
        Ok(_) => {},
        Err(e) => {
            return Err(e);
        },
    }
    let ghost f1 = f;
    create_return_type_validation(&mut f, result_type());
    let ghost f2 = f;

    let struct_name = with_suffix(f.name.as_str(), "COMMAND");
    proof {
        reveal_strlit("COMMAND");
    }

    let guilds: Option<Vec<u64>> = if guild_ids.len() == 0 {
        None
    } else {
        Some(guild_ids)
    };

    populate_fut_lifetimes_on_refs(&mut f.args);

    proof {
        // The callback's parameter list: declared parameters with the async
        // lifetime filled in, then the synthesized placeholders.
        assert(f.args@.len() == 2);
        if n == 0 {
            assert(fut_lifetime_rel(f1.args@[0], f.args@[0]));
            assert(fut_lifetime_rel(f1.args@[1], f.args@[1]));
            assert(f.args@[0].name@ == "_ctx"@);
            assert(is_async_context_type(f.args@[0].kind));
            assert(f.args@[1].name@ == "_interaction"@);
            assert(is_async_interaction_type(f.args@[1].kind));
        } else if n == 1 {
            assert(fut_lifetime_rel(f1.args@[1], f.args@[1]));
            assert(f.args@[1].name@ == "_interaction"@);
            assert(is_async_interaction_type(f.args@[1].kind));
        }
        assert(synthesized_args_ok(fun.args@, f.args@));
        // The callback's body: the return-type assertion, the parameter-type
        // assertions, then the declared body.
        assert(f.body@ == f2.body@);
        assert(f2.body@ =~= seq![f2.body@[0]] + f1.body@);
        assert(f2.body@.skip(1 + n as int) =~= f1.body@.skip(n as int));
        if n == 0 {
            assert(f1.body@.skip(0) =~= f1.body@);
        }
        assert(f2.body@.skip(1 + n as int) == fun.body@);
        assert(synthesized_body_ok(fun, f.body@));
    }

    let SlashCommandFun { cooked, visibility, args, ret, body, .. } = f;
    Ok(
        SynthesizedCommand {
            cooked,
            visibility,
            struct_name,
            name,
            guilds,
            description: description.0,
            default_permission,
            permissions,
            options: opt_refs,
            args,
            ret,
            body,
        },
    )
}

} // verus!
