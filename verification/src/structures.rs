//! The declaration side: converting a declaration's raw parts into a
//! [`SlashCommandFun`] — its annotations split into recognized and
//! pass-through ("cooked") ones, its parameters validated into [`Argument`]s,
//! its return type required — and the [`Options`] accumulator the annotation
//! keys fold into.

use vstd::prelude::*;

use crate::ast::{Attribute, FnArg, Ident, Meta, Pat, Path, Span, Stmt, Type, Visibility};
use crate::error::DefinitionError;
use crate::utils::{Argument, AsOption};

verus! {

/// What validating one declared parameter yields, over the argument's view:
/// its mutability, its name and its type. A `self` receiver and any pattern
/// other than a plain binding or a wildcard are rejected.
pub open spec fn argument_of(arg: FnArg) -> Result<(bool, Seq<char>, Type), DefinitionError> {
    match arg {
        FnArg::Receiver { span } => Err(DefinitionError::SelfArgument { span }),
        FnArg::Typed { pat, ty, span } => match pat {
            Pat::Ident { name, mutable } => Ok((mutable, name@, ty)),
            Pat::Wild => Ok((false, "_"@, ty)),
            Pat::Other { span: pspan } => Err(DefinitionError::UnsupportedPattern { span: pspan }),
        },
    }
}

/// Validate one declared parameter.
pub fn parse_argument(arg: FnArg) -> (r: Result<Argument, DefinitionError>)
    ensures
        (match r {
            Ok(a) => argument_of(arg) matches Ok(t) && a.mutable == t.0 && a.name@ == t.1
                && a.kind == t.2,
            Err(e) => argument_of(arg) matches Err(e2) && e == e2,
        }),
{
    match arg {
        FnArg::Receiver { span } => Err(DefinitionError::SelfArgument { span }),
        FnArg::Typed { pat, ty, span } => match pat {
            Pat::Ident { name, mutable } => Ok(Argument { mutable, name, kind: ty }),
            Pat::Wild => Ok(Argument { mutable: false, name: String::from_str("_"), kind: ty }),
            Pat::Other { span: pspan } => Err(DefinitionError::UnsupportedPattern { span: pspan }),
        },
    }
}

/// The views of a sequence of validated arguments.
pub open spec fn arg_views(args: Seq<Argument>) -> Seq<(bool, Seq<char>, Type)> {
    Seq::new(args.len(), |i: int| (args[i].mutable, args[i].name@, args[i].kind))
}

/// What validating a whole parameter list yields: each parameter in order,
/// or the first parameter's error.
pub open spec fn args_of(args: Seq<FnArg>) -> Result<
    Seq<(bool, Seq<char>, Type)>,
    DefinitionError,
>
    decreases args.len(),
{
    if args.len() == 0 {
        Ok(Seq::empty())
    } else {
        match argument_of(args[0]) {
            Err(e) => Err(e),
            Ok(t) => match args_of(args.drop_first()) {
                Err(e) => Err(e),
                Ok(rest) => Ok(seq![t] + rest),
            },
        }
    }
}

/// Whether `s` is one of the pass-through annotation names that are kept
/// verbatim on the synthesized artifact rather than interpreted: the
/// conditional-compilation and lint-control annotations.
pub open spec fn is_cooked_name(s: Seq<char>) -> bool {
    ||| s == "cfg"@
    ||| s == "cfg_attr"@
    ||| s == "derive"@
    ||| s == "inline"@
    ||| s == "allow"@
    ||| s == "warn"@
    ||| s == "deny"@
    ||| s == "forbid"@
}

/// Whether the annotation is a pass-through one: a single argument-free path
/// segment spelling a pass-through name.
pub open spec fn is_cooked_spec(attr: Attribute) -> bool {
    &&& attr.path_spec().segments@.len() == 1
    &&& !attr.path_spec().segments@[0].has_arguments
    &&& is_cooked_name(attr.path_spec().segments@[0].ident@)
}

fn path_of(attr: &Attribute) -> (p: &Path)
    ensures
        *p == attr.path_spec(),
{
    match &attr.meta {
        Meta::Path(p) => p,
        Meta::List { path, .. } => path,
        Meta::NameValue { path, .. } => path,
    }
}

/// Decide whether the annotation is a pass-through one.
pub fn is_cooked(attr: &Attribute) -> (b: bool)
    ensures
        b == is_cooked_spec(*attr),
{
    let p = path_of(attr);
    if p.segments.len() != 1 {
        return false;
    }
    let seg = &p.segments[0];
    if seg.has_arguments {
        return false;
    }
    let id = &seg.ident;
    *id == String::from_str("cfg") || *id == String::from_str("cfg_attr") || *id
        == String::from_str("derive") || *id == String::from_str("inline") || *id
        == String::from_str("allow") || *id == String::from_str("warn") || *id
        == String::from_str("deny") || *id == String::from_str("forbid")
}

/// The annotations split into the pass-through ones and the rest, both in
/// source order.
pub open spec fn partition_cooked(attrs: Seq<Attribute>) -> (Seq<Attribute>, Seq<Attribute>)
    decreases attrs.len(),
{
    if attrs.len() == 0 {
        (Seq::empty(), Seq::empty())
    } else {
        let (c, k) = partition_cooked(attrs.drop_first());
        if is_cooked_spec(attrs[0]) {
            (seq![attrs[0]] + c, k)
        } else {
            (c, seq![attrs[0]] + k)
        }
    }
}

/// Remove the pass-through annotations from `attrs` and return them, both
/// sides keeping their source order.
#[verifier::loop_isolation(false)]
pub fn remove_cooked(attrs: &mut Vec<Attribute>) -> (cooked: Vec<Attribute>)
    ensures
        cooked@ == partition_cooked(old(attrs)@).0,
        final(attrs)@ == partition_cooked(old(attrs)@).1,
{
    let ghost orig = attrs@;
    let mut kept: Vec<Attribute> = Vec::new();
    let mut cooked: Vec<Attribute> = Vec::new();
    while attrs.len() > 0
        invariant
            partition_cooked(orig) == (
                (
                    cooked@ + partition_cooked(attrs@).0,
                    kept@ + partition_cooked(attrs@).1,
                )
            ),
        decreases attrs.len(),
    {
        let ghost rest0 = attrs@;
        let ghost old_cooked = cooked@;
        let ghost old_kept = kept@;
        let a = attrs.remove(0);
        proof {
            assert(rest0[0] == a);
            assert(attrs@ =~= rest0.drop_first());
        }
        if is_cooked(&a) {
            cooked.push(a);
            proof {
                assert(old_cooked + (seq![rest0[0]] + partition_cooked(attrs@).0) =~= cooked@
                    + partition_cooked(attrs@).0);
            }
        } else {
            kept.push(a);
            proof {
                assert(old_kept + (seq![rest0[0]] + partition_cooked(attrs@).1) =~= kept@
                    + partition_cooked(attrs@).1);
            }
        }
    }
    proof {
        assert(cooked@ + partition_cooked(attrs@).0 =~= cooked@);
        assert(kept@ + partition_cooked(attrs@).1 =~= kept@);
    }
    *attrs = kept;
    cooked
}

/// One command declaration with its parts validated: the recognized
/// annotations, the pass-through ones, and the declaration's visibility,
/// name, parameters, return type and body.
#[derive(Debug)]
pub struct SlashCommandFun {
    pub attributes: Vec<Attribute>,
    pub cooked: Vec<Attribute>,
    pub visibility: Visibility,
    pub name: String,
    pub args: Vec<Argument>,
    pub ret: Type,
    pub body: Vec<Stmt>,
}

impl SlashCommandFun {
    /// Assemble a declaration from its raw parts: split off the pass-through
    /// annotations, require a spelled-out return type, and validate each
    /// parameter; the first failure is the declaration's error.
    #[verifier::loop_isolation(false)]
    pub fn from_parts(
        attributes: Vec<Attribute>,
        visibility: Visibility,
        name: String,
        args: Vec<FnArg>,
        ret: Option<Type>,
        body: Vec<Stmt>,
        span: Span,
    ) -> (r: Result<SlashCommandFun, DefinitionError>)
        ensures
            (match r {
                Ok(f) => {
                    &&& ret matches Some(t) && f.ret == t
                    &&& args_of(args@) matches Ok(ts) && arg_views(f.args@) == ts
                    &&& f.cooked@ == partition_cooked(attributes@).0
                    &&& f.attributes@ == partition_cooked(attributes@).1
                    &&& f.visibility == visibility
                    &&& f.name == name
                    &&& f.body@ == body@
                },
                Err(e) => {
                    &&& ret is None ==> e == (DefinitionError::MissingReturnType { span })
                    &&& ret is Some ==> (args_of(args@) matches Err(e2) && e == e2)
                },
            }),
    {
        let mut attributes = attributes;
        let cooked = remove_cooked(&mut attributes);
        let ret = match ret {
            Some(t) => t,
            None => {
                return Err(DefinitionError::MissingReturnType { span });
            },
        };
        let ghost orig_args = args@;
        let mut rest = args;
        let mut out: Vec<Argument> = Vec::new();
        while rest.len() > 0
            invariant
                args_of(orig_args) == (match args_of(rest@) {
                    Ok(tail) => Ok::<Seq<(bool, Seq<char>, Type)>, DefinitionError>(
                        arg_views(out@) + tail,
                    ),
                    Err(e) => Err::<Seq<(bool, Seq<char>, Type)>, DefinitionError>(e),
                }),
            decreases rest.len(),
        {
            let ghost rest0 = rest@;
            let ghost old_views = arg_views(out@);
            let a = rest.remove(0);
            proof {
                assert(rest0[0] == a);
                assert(rest@ =~= rest0.drop_first());
            }
            let parsed = match parse_argument(a) {
                Ok(p) => p,
                Err(e) => {
                    proof {
                        assert(args_of(rest0) == Err::<
                            Seq<(bool, Seq<char>, Type)>,
                            DefinitionError,
                        >(e));
                    }
                    return Err(e);
                },
            };
            out.push(parsed);
            proof {
                let t = argument_of(rest0[0])->Ok_0;
                assert(arg_views(out@) =~= old_views.push(t));
                if args_of(rest@) is Ok {
                    let tail = args_of(rest@)->Ok_0;
                    assert(old_views + (seq![t] + tail) =~= arg_views(out@) + tail);
                }
            }
        }
        proof {
            assert(args_of(rest@) == Ok::<Seq<(bool, Seq<char>, Type)>, DefinitionError>(
                Seq::empty(),
            ));
            assert(arg_views(out@) + Seq::<(bool, Seq<char>, Type)>::empty() =~= arg_views(out@));
        }
        Ok(SlashCommandFun { attributes, cooked, visibility, name, args: out, ret, body })
    }
}

/// The recognized annotation keys folded into one record: the description
/// accumulated so far, the target scope ids, the default-permission flag,
/// and the referenced permission and option units, each in declaration
/// order.
#[derive(Debug)]
pub struct Options {
    pub description: AsOption<String>,
    pub guild_ids: Vec<u64>,
    pub default_permission: bool,
    pub permissions: Vec<Ident>,
    pub options: Vec<Ident>,
}

/// The abstract view of an [`Options`] record.
#[verifier::ext_equal]
pub ghost struct OptionsView {
    pub description: Option<Seq<char>>,
    pub guild_ids: Seq<u64>,
    pub default_permission: bool,
    pub permissions: Seq<Seq<char>>,
    pub options: Seq<Seq<char>>,
}

impl View for Options {
    type V = OptionsView;

    open spec fn view(&self) -> OptionsView {
        OptionsView {
            description: match self.description.0 {
                Some(s) => Some(s@),
                None => None,
            },
            guild_ids: self.guild_ids@,
            default_permission: self.default_permission,
            permissions: self.permissions.deep_view(),
            options: self.options.deep_view(),
        }
    }
}

impl Options {
    /// The empty record: no description, no scopes, no unit references, and
    /// the default-permission flag at its default of `true`.
    pub fn new() -> (r: Options)
        ensures
            r.description.0 is None,
            r.guild_ids@ == Seq::<u64>::empty(),
            r.default_permission == true,
            r.permissions@ == Seq::<Ident>::empty(),
            r.options@ == Seq::<Ident>::empty(),
    {
        Options {
            description: AsOption(None),
            guild_ids: Vec::new(),
            default_permission: true,
            permissions: Vec::new(),
            options: Vec::new(),
        }
    }
}

} // verus!
