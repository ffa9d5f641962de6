//! The annotation grammar and the value coercion layer.
//!
//! [`parse_values`] turns one raw annotation into a [`Values`]: a name, a
//! form ([`ValueKind`]) and the literals the form carries. A coercion target
//! type implements [`AttributeOption`], declaring which forms it accepts and
//! how a literal becomes a value of the type; [`parse`] ties the two
//! together.

use vstd::prelude::*;

use crate::ast::{Attribute, Ident, Lit, LitKind, Meta, NestedMeta, Path, Span};
use crate::error::DefinitionError;
use crate::utils::{is_valid_ident, is_valid_ident_spec, parse_u64_spec, parse_u64_str, AsOption};
use vstd::string::StringExecFns;

verus! {

/// The form an annotation takes: bare, `name = value`, a list of two or more
/// values, or a parenthesized single value.
#[derive(Debug, Copy, Clone, PartialEq, Eq, Structural)]
pub enum ValueKind {
    Name,
    Equals,
    List,
    SingleList,
}

impl ValueKind {
    /// The human-readable shape of this form, as a caller shows it when
    /// reporting an unacceptable form.
    pub fn describe(&self) -> (r: String)
        ensures
            (match *self {
                ValueKind::Name => r@ == "`#[<name>]`"@,
                ValueKind::Equals => r@ == "`#[<name> = <value>]`"@,
                ValueKind::List => r@ == "`#[<name>([<value>, <value>, <value>, ...])]`"@,
                ValueKind::SingleList => r@ == "`#[<name>(<value>)]`"@,
            }),
    {
        match self {
            ValueKind::Name => String::from_str("`#[<name>]`"),
            ValueKind::Equals => String::from_str("`#[<name> = <value>]`"),
            ValueKind::List => String::from_str("`#[<name>([<value>, <value>, <value>, ...])]`"),
            ValueKind::SingleList => String::from_str("`#[<name>(<value>)]`"),
        }
    }
}

/// One parsed annotation: its name, the form it took, the literals the form
/// carried (in source order), and its span.
#[derive(Debug, Clone, PartialEq)]
pub struct Values {
    pub name: String,
    pub literals: Vec<Lit>,
    pub kind: ValueKind,
    pub span: Span,
}

impl Values {
    pub fn new(name: String, kind: ValueKind, literals: Vec<Lit>, span: Span) -> (r: Values)
        ensures
            r == (Values { name, literals, kind, span }),
    {
        Values { name, literals, kind, span }
    }
}

/// The identifier a path names: defined only for a single argument-free
/// segment, with a distinct error for each malformed shape.
pub open spec fn ident_of_path(p: Path) -> Result<String, DefinitionError> {
    if p.segments@.len() == 0 {
        Err(DefinitionError::EmptyPath { span: p.span })
    } else if p.segments@.len() > 1 {
        Err(DefinitionError::MultiSegmentPath { span: p.span })
    } else if p.segments@[0].has_arguments {
        Err(DefinitionError::PathArguments { span: p.span })
    } else {
        Ok(p.segments@[0].ident)
    }
}

/// Convert a path to the identifier it names.
pub fn to_ident(p: Path) -> (r: Result<String, DefinitionError>)
    ensures
        r == ident_of_path(p),
{
    let Path { mut segments, span } = p;
    if segments.len() == 0 {
        Err(DefinitionError::EmptyPath { span })
    } else if segments.len() > 1 {
        Err(DefinitionError::MultiSegmentPath { span })
    } else {
        let seg = segments.remove(0);
        if seg.has_arguments {
            Err(DefinitionError::PathArguments { span })
        } else {
            Ok(seg.ident)
        }
    }
}

/// The literal one list element contributes: a literal stands for itself, a
/// bare identifier is reinterpreted as a string literal holding its text, and
/// any nested group or `name = value` pair is rejected.
pub open spec fn lit_of_nested(item: NestedMeta, attr_span: Span) -> Result<Lit, DefinitionError> {
    match item {
        NestedMeta::Lit(l) => Ok(l),
        NestedMeta::Meta(m) => match m {
            Meta::Path(p) => match ident_of_path(p) {
                Ok(id) => Ok(Lit { kind: LitKind::Str(id), span: p.span }),
                Err(e) => Err(e),
            },
            Meta::List { .. } => Err(DefinitionError::NestedList { span: attr_span }),
            Meta::NameValue { .. } => Err(DefinitionError::NestedList { span: attr_span }),
        },
    }
}

/// The literals of a whole list, or the first element's error.
pub open spec fn lits_of_nested(items: Seq<NestedMeta>, attr_span: Span) -> Result<
    Seq<Lit>,
    DefinitionError,
>
    decreases items.len(),
{
    if items.len() == 0 {
        Ok(Seq::empty())
    } else {
        match lit_of_nested(items[0], attr_span) {
            Err(e) => Err(e),
            Ok(l) => match lits_of_nested(items.drop_first(), attr_span) {
                Err(e) => Err(e),
                Ok(rest) => Ok(seq![l] + rest),
            },
        }
    }
}

/// What parsing an annotation yields: its name, form, literals and span, or
/// the grammar error. A parenthesized group with one element is the
/// `SingleList` form, with two or more the `List` form, and with none a
/// fatal empty-list error.
pub open spec fn values_of_attr(attr: Attribute) -> Result<
    (String, ValueKind, Seq<Lit>, Span),
    DefinitionError,
> {
    match attr.meta {
        Meta::Path(p) => match ident_of_path(p) {
            Ok(name) => Ok((name, ValueKind::Name, Seq::empty(), attr.span)),
            Err(e) => Err(e),
        },
        Meta::NameValue { path, lit } => match ident_of_path(path) {
            Ok(name) => Ok((name, ValueKind::Equals, seq![lit], attr.span)),
            Err(e) => Err(e),
        },
        Meta::List { path, nested } => match ident_of_path(path) {
            Err(e) => Err(e),
            Ok(name) => if nested@.len() == 0 {
                Err(DefinitionError::EmptyList { span: attr.span })
            } else {
                match lits_of_nested(nested@, attr.span) {
                    Err(e) => Err(e),
                    Ok(lits) => Ok(
                        (
                            name,
                            if lits.len() == 1 {
                                ValueKind::SingleList
                            } else {
                                ValueKind::List
                            },
                            lits,
                            attr.span,
                        ),
                    ),
                }
            },
        },
    }
}

/// Parse one raw annotation into a [`Values`]. A non-empty parenthesized
/// group yields its literals in order, bare identifiers inside it becoming
/// string literals; an empty group is a fatal grammar error.
#[verifier::loop_isolation(false)]
pub fn parse_values(attr: Attribute) -> (r: Result<Values, DefinitionError>)
    ensures
        (match r {
            Ok(v) => values_of_attr(attr) matches Ok(t) && v.name == t.0 && v.kind == t.1
                && v.literals@ == t.2 && v.span == t.3,
            Err(e) => values_of_attr(attr) matches Err(e2) && e == e2,
        }),
        // An empty annotation list never parses: it is the empty-list error.
        (attr.meta matches Meta::List { path, nested } && nested@.len() == 0 && ident_of_path(
            path,
        ) is Ok) ==> r == Err::<Values, DefinitionError>(
            DefinitionError::EmptyList { span: attr.span },
        ),
{
    let Attribute { meta, span } = attr;
    match meta {
        Meta::Path(p) => {
            let name = match to_ident(p) {
                Ok(n) => n,
                Err(e) => {
                    return Err(e);
                },
            };
            Ok(Values::new(name, ValueKind::Name, Vec::new(), span))
        },
        Meta::NameValue { path, lit } => {
            let name = match to_ident(path) {
                Ok(n) => n,
                Err(e) => {
                    return Err(e);
                },
            };
            let mut lits: Vec<Lit> = Vec::new();
            lits.push(lit);
            Ok(Values::new(name, ValueKind::Equals, lits, span))
        },
        Meta::List { path, nested } => {
            let name = match to_ident(path) {
                Ok(n) => n,
                Err(e) => {
                    return Err(e);
                },
            };
            if nested.len() == 0 {
                return Err(DefinitionError::EmptyList { span });
            }
            let ghost orig = nested@;
            let mut rest = nested;
            let mut lits: Vec<Lit> = Vec::new();
            while rest.len() > 0
                invariant
                    lits_of_nested(orig, span) == (match lits_of_nested(rest@, span) {
                        Ok(tail) => Ok::<Seq<Lit>, DefinitionError>(lits@ + tail),
                        Err(e) => Err::<Seq<Lit>, DefinitionError>(e),
                    }),
                decreases rest.len(),
            {
                let ghost rest0 = rest@;
                let ghost old_lits = lits@;
                let item = rest.remove(0);
                proof {
                    assert(rest0[0] == item);
                    assert(rest@ =~= rest0.drop_first());
                }
                match item {
                    NestedMeta::Lit(l) => {
                        lits.push(l);
                    },
                    NestedMeta::Meta(m) => match m {
                        Meta::Path(p) => {
                            let pspan = p.span;
                            let i = match to_ident(p) {
                                Ok(i) => i,
                                Err(e) => {
                                    proof {
                                        assert(lits_of_nested(rest0, span) == Err::<
                                            Seq<Lit>,
                                            DefinitionError,
                                        >(e));
                                    }
                                    return Err(e);
                                },
                            };
                            lits.push(Lit { kind: LitKind::Str(i), span: pspan });
                        },
                        Meta::List { .. } => {
                            proof {
                                assert(lits_of_nested(rest0, span) == Err::<
                                    Seq<Lit>,
                                    DefinitionError,
                                >(DefinitionError::NestedList { span }));
                            }
                            return Err(DefinitionError::NestedList { span });
                        },
                        Meta::NameValue { .. } => {
                            proof {
                                assert(lits_of_nested(rest0, span) == Err::<
                                    Seq<Lit>,
                                    DefinitionError,
                                >(DefinitionError::NestedList { span }));
                            }
                            return Err(DefinitionError::NestedList { span });
                        },
                    },
                }
                proof {
                    let l = lit_of_nested(rest0[0], span)->Ok_0;
                    assert(lit_of_nested(rest0[0], span) == Ok::<Lit, DefinitionError>(
                        lits@.last(),
                    ));
                    assert(lits@ == old_lits.push(l));
                    if lits_of_nested(rest@, span) is Ok {
                        let tail = lits_of_nested(rest@, span)->Ok_0;
                        assert(old_lits + (seq![l] + tail) =~= lits@ + tail);
                    }
                }
            }
            proof {
                assert(lits_of_nested(rest@, span) == Ok::<Seq<Lit>, DefinitionError>(
                    Seq::empty(),
                ));
                assert(lits@ + Seq::<Lit>::empty() =~= lits@);
            }
            let kind = if lits.len() == 1 {
                ValueKind::SingleList
            } else {
                ValueKind::List
            };
            Ok(Values::new(name, kind, lits, span))
        },
    }
}

/// Whether an annotation of form `kind` satisfies an expectation list: the
/// form itself may be expected, and a parenthesized single value satisfies an
/// expectation of a list.
pub open spec fn is_form_acceptable_spec(expect: Seq<ValueKind>, kind: ValueKind) -> bool {
    if expect.contains(ValueKind::List) && kind == ValueKind::SingleList {
        true
    } else {
        expect.contains(kind)
    }
}

fn kinds_contain(expect: &Vec<ValueKind>, kind: ValueKind) -> (b: bool)
    ensures
        b == expect@.contains(kind),
{
    let mut i: usize = 0;
    while i < expect.len()
        invariant
            0 <= i <= expect@.len(),
            forall|j: int| 0 <= j < i ==> expect@[j] != kind,
        decreases expect@.len() - i,
    {
        if expect[i] == kind {
            return true;
        }
        i += 1;
    }
    false
}

/// Decide whether the form `kind` is acceptable against the expected forms.
pub fn is_form_acceptable(expect: &Vec<ValueKind>, kind: ValueKind) -> (b: bool)
    ensures
        b == is_form_acceptable_spec(expect@, kind),
{
    if kinds_contain(expect, ValueKind::List) && kind == ValueKind::SingleList {
        true
    } else {
        kinds_contain(expect, kind)
    }
}

/// Check a parsed annotation's form against the expected forms, failing with
/// a span-attached error naming the found form.
pub fn validate(values: &Values, forms: &Vec<ValueKind>) -> (r: Result<(), DefinitionError>)
    ensures
        (match r {
            Ok(_) => is_form_acceptable_spec(forms@, values.kind),
            Err(e) => !is_form_acceptable_spec(forms@, values.kind) && e
                == (DefinitionError::UnacceptableForm { span: values.span, found: values.kind }),
        }),
{
    if !is_form_acceptable(forms, values.kind) {
        return Err(DefinitionError::UnacceptableForm { span: values.span, found: values.kind });
    }
    Ok(())
}

/// The `Option<Lit>` view of the borrowed literal handed to `apply`.
pub open spec fn lit_opt_view(lit: Option<&Lit>) -> Option<Lit> {
    match lit {
        Some(l) => Some(*l),
        None => None,
    }
}

/// A coercion target: a type that declares which annotation forms it accepts
/// and how the carried literal (or its absence) becomes a value of the type.
/// Contracts are stated over each type's abstract view, so a caller knows
/// exactly which inputs coerce and to what.
pub trait AttributeOption: Sized + DeepView {
    /// The accepted forms.
    spec fn value_kinds_spec() -> Seq<ValueKind>;

    /// What coercing a single literal yields, over the target's view.
    spec fn apply_spec(lit: Option<Lit>) -> Result<Self::V, DefinitionError>;

    /// What parsing a whole annotation yields, over the target's view.
    spec fn parse_spec(values: Values) -> Result<Self::V, DefinitionError>;

    /// The accepted forms, as a list `is_form_acceptable` can take.
    fn value_kinds() -> (r: Vec<ValueKind>)
        ensures
            r@ == Self::value_kinds_spec(),
    ;

    /// Coerce a single literal, or its absence.
    fn apply(lit: Option<&Lit>) -> (r: Result<Self, DefinitionError>)
        ensures
            (match r {
                Ok(v) => Self::apply_spec(lit_opt_view(lit)) == Ok::<Self::V, DefinitionError>(
                    v.deep_view(),
                ),
                Err(e) => Self::apply_spec(lit_opt_view(lit)) == Err::<Self::V, DefinitionError>(e),
            }),
    ;

    /// Validate the annotation's form, then coerce its first literal.
    fn parse(values: Values) -> (r: Result<Self, DefinitionError>)
        ensures
            (match r {
                Ok(v) => Self::parse_spec(values) == Ok::<Self::V, DefinitionError>(v.deep_view()),
                Err(e) => Self::parse_spec(values) == Err::<Self::V, DefinitionError>(e),
            }),
    ;
}

/// The standard `parse` behaviour stated over an annotation's components:
/// reject an unacceptable form, then coerce the first literal (or its
/// absence). Every scalar coercion target's `parse_spec` agrees with this.
pub open spec fn parse_spec_parts<T: AttributeOption>(
    kind: ValueKind,
    lits: Seq<Lit>,
    span: Span,
) -> Result<T::V, DefinitionError> {
    if is_form_acceptable_spec(T::value_kinds_spec(), kind) {
        T::apply_spec(
            if lits.len() > 0 {
                Some(lits[0])
            } else {
                None
            },
        )
    } else {
        Err(DefinitionError::UnacceptableForm { span, found: kind })
    }
}

/// What converting a literal to its string text yields: the text of a string
/// literal, and an error on any other literal.
pub open spec fn lit_str_spec(l: Lit) -> Result<String, DefinitionError> {
    match l.kind {
        LitKind::Str(s) => Ok(s),
        _ => Err(DefinitionError::NotStringLiteral { span: l.span }),
    }
}

pub fn lit_to_str(l: &Lit) -> (r: Result<String, DefinitionError>)
    ensures
        r == lit_str_spec(*l),
{
    match &l.kind {
        LitKind::Str(s) => Ok(s.clone()),
        LitKind::Int(_) => Err(DefinitionError::NotStringLiteral { span: l.span }),
        LitKind::Bool(_) => Err(DefinitionError::NotStringLiteral { span: l.span }),
    }
}

/// What converting a literal to a boolean yields: a boolean literal stands
/// for itself, a string literal must spell `true` or `false`, and any other
/// literal is not string-like.
pub open spec fn lit_bool_spec(l: Lit) -> Result<bool, DefinitionError> {
    match l.kind {
        LitKind::Bool(b) => Ok(b),
        LitKind::Str(s) => if s@ == "true"@ {
            Ok(true)
        } else if s@ == "false"@ {
            Ok(false)
        } else {
            Err(DefinitionError::NotBoolLiteral { span: l.span })
        },
        LitKind::Int(_) => Err(DefinitionError::NotStringLiteral { span: l.span }),
    }
}

fn lit_to_bool(l: &Lit) -> (r: Result<bool, DefinitionError>)
    ensures
        r == lit_bool_spec(*l),
{
    match &l.kind {
        LitKind::Bool(b) => Ok(*b),
        LitKind::Str(s) => {
            let t = String::from_str("true");
            let f = String::from_str("false");
            if *s == t {
                Ok(true)
            } else if *s == f {
                Ok(false)
            } else {
                Err(DefinitionError::NotBoolLiteral { span: l.span })
            }
        },
        LitKind::Int(_) => Err(DefinitionError::NotStringLiteral { span: l.span }),
    }
}

/// What converting a literal to an unsigned 64-bit integer yields: a native
/// integer literal stands for itself, a string literal must parse as a
/// decimal whose value fits, and a boolean is not string-like.
pub open spec fn lit_u64_spec(l: Lit) -> Result<u64, DefinitionError> {
    match l.kind {
        LitKind::Int(u) => Ok(u),
        LitKind::Str(s) => match parse_u64_spec(s@) {
            Some(u) => Ok(u),
            None => Err(DefinitionError::InvalidInteger { span: l.span }),
        },
        LitKind::Bool(_) => Err(DefinitionError::NotStringLiteral { span: l.span }),
    }
}

fn lit_to_u64(l: &Lit) -> (r: Result<u64, DefinitionError>)
    ensures
        r == lit_u64_spec(*l),
{
    match &l.kind {
        LitKind::Int(u) => Ok(*u),
        LitKind::Str(s) => match parse_u64_str(s.as_str()) {
            Some(u) => Ok(u),
            None => Err(DefinitionError::InvalidInteger { span: l.span }),
        },
        LitKind::Bool(_) => Err(DefinitionError::NotStringLiteral { span: l.span }),
    }
}

impl AttributeOption for String {
    open spec fn value_kinds_spec() -> Seq<ValueKind> {
        seq![ValueKind::Equals, ValueKind::SingleList]
    }

    open spec fn apply_spec(lit: Option<Lit>) -> Result<Seq<char>, DefinitionError> {
        match lit {
            None => Err(DefinitionError::MissingLiteral { span: Span::absent_spec() }),
            Some(l) => match lit_str_spec(l) {
                Ok(s) => Ok(s@),
                Err(e) => Err(e),
            },
        }
    }

    open spec fn parse_spec(values: Values) -> Result<Seq<char>, DefinitionError> {
        if is_form_acceptable_spec(Self::value_kinds_spec(), values.kind) {
            Self::apply_spec(
                if values.literals@.len() > 0 {
                    Some(values.literals@[0])
                } else {
                    None
                },
            )
        } else {
            Err(DefinitionError::UnacceptableForm { span: values.span, found: values.kind })
        }
    }

    fn value_kinds() -> (r: Vec<ValueKind>) {
        let mut v: Vec<ValueKind> = Vec::new();
        v.push(ValueKind::Equals);
        v.push(ValueKind::SingleList);
        proof {
            assert(v@ =~= Self::value_kinds_spec());
        }
        v
    }

    fn apply(lit: Option<&Lit>) -> (r: Result<Self, DefinitionError>) {
        match lit {
            None => Err(DefinitionError::MissingLiteral { span: Span::absent() }),
            Some(l) => lit_to_str(l),
        }
    }

    fn parse(values: Values) -> (r: Result<Self, DefinitionError>) {
        let kinds = Self::value_kinds();
        match validate(&values, &kinds) {
            Ok(_) => {},
            Err(e) => {
                return Err(e);
            },
        }
        if values.literals.len() > 0 {
            Self::apply(Some(&values.literals[0]))
        } else {
            Self::apply(None)
        }
    }
}

impl AttributeOption for bool {
    open spec fn value_kinds_spec() -> Seq<ValueKind> {
        seq![ValueKind::Name, ValueKind::SingleList]
    }

    open spec fn apply_spec(lit: Option<Lit>) -> Result<bool, DefinitionError> {
        match lit {
            None => Ok(true),
            Some(l) => lit_bool_spec(l),
        }
    }

    open spec fn parse_spec(values: Values) -> Result<bool, DefinitionError> {
        if is_form_acceptable_spec(Self::value_kinds_spec(), values.kind) {
            Self::apply_spec(
                if values.literals@.len() > 0 {
                    Some(values.literals@[0])
                } else {
                    None
                },
            )
        } else {
            Err(DefinitionError::UnacceptableForm { span: values.span, found: values.kind })
        }
    }

    fn value_kinds() -> (r: Vec<ValueKind>) {
        let mut v: Vec<ValueKind> = Vec::new();
        v.push(ValueKind::Name);
        v.push(ValueKind::SingleList);
        proof {
            assert(v@ =~= Self::value_kinds_spec());
        }
        v
    }

    fn apply(lit: Option<&Lit>) -> (r: Result<Self, DefinitionError>) {
        match lit {
            None => Ok(true),
            Some(l) => lit_to_bool(l),
        }
    }

    fn parse(values: Values) -> (r: Result<Self, DefinitionError>) {
        let kinds = Self::value_kinds();
        match validate(&values, &kinds) {
            Ok(_) => {},
            Err(e) => {
                return Err(e);
            },
        }
        if values.literals.len() > 0 {
            Self::apply(Some(&values.literals[0]))
        } else {
            Self::apply(None)
        }
    }
}

/// A bare boolean annotation, carrying no literal, coerces to `true` (flag
/// semantics); an explicit `false` literal coerces to `false`.
pub proof fn lemma_bool_flag_semantics(l: Lit)
    ensures
        <bool as AttributeOption>::apply_spec(None) == Ok::<bool, DefinitionError>(true),
        l.kind == LitKind::Bool(false) ==> <bool as AttributeOption>::apply_spec(Some(l)) == Ok::<
            bool,
            DefinitionError,
        >(false),
        l.kind == LitKind::Bool(true) ==> <bool as AttributeOption>::apply_spec(Some(l)) == Ok::<
            bool,
            DefinitionError,
        >(true),
{
}

impl AttributeOption for u64 {
    open spec fn value_kinds_spec() -> Seq<ValueKind> {
        seq![ValueKind::SingleList]
    }

    open spec fn apply_spec(lit: Option<Lit>) -> Result<u64, DefinitionError> {
        match lit {
            None => Err(DefinitionError::MissingLiteral { span: Span::absent_spec() }),
            Some(l) => lit_u64_spec(l),
        }
    }

    open spec fn parse_spec(values: Values) -> Result<u64, DefinitionError> {
        if is_form_acceptable_spec(Self::value_kinds_spec(), values.kind) {
            Self::apply_spec(
                if values.literals@.len() > 0 {
                    Some(values.literals@[0])
                } else {
                    None
                },
            )
        } else {
            Err(DefinitionError::UnacceptableForm { span: values.span, found: values.kind })
        }
    }

    fn value_kinds() -> (r: Vec<ValueKind>) {
        let mut v: Vec<ValueKind> = Vec::new();
        v.push(ValueKind::SingleList);
        proof {
            assert(v@ =~= Self::value_kinds_spec());
        }
        v
    }

    fn apply(lit: Option<&Lit>) -> (r: Result<Self, DefinitionError>) {
        match lit {
            None => Err(DefinitionError::MissingLiteral { span: Span::absent() }),
            Some(l) => lit_to_u64(l),
        }
    }

    fn parse(values: Values) -> (r: Result<Self, DefinitionError>) {
        let kinds = Self::value_kinds();
        match validate(&values, &kinds) {
            Ok(_) => {},
            Err(e) => {
                return Err(e);
            },
        }
        if values.literals.len() > 0 {
            Self::apply(Some(&values.literals[0]))
        } else {
            Self::apply(None)
        }
    }
}

impl AttributeOption for Ident {
    open spec fn value_kinds_spec() -> Seq<ValueKind> {
        seq![ValueKind::SingleList]
    }

    open spec fn apply_spec(lit: Option<Lit>) -> Result<Seq<char>, DefinitionError> {
        match lit {
            None => Err(DefinitionError::MissingLiteral { span: Span::absent_spec() }),
            Some(l) => match l.kind {
                LitKind::Str(s) => if is_valid_ident_spec(s@) {
                    Ok(s@)
                } else {
                    Err(DefinitionError::InvalidIdentifier { span: l.span })
                },
                _ => Err(DefinitionError::NotStringLiteral { span: l.span }),
            },
        }
    }

    open spec fn parse_spec(values: Values) -> Result<Seq<char>, DefinitionError> {
        if is_form_acceptable_spec(Self::value_kinds_spec(), values.kind) {
            Self::apply_spec(
                if values.literals@.len() > 0 {
                    Some(values.literals@[0])
                } else {
                    None
                },
            )
        } else {
            Err(DefinitionError::UnacceptableForm { span: values.span, found: values.kind })
        }
    }

    fn value_kinds() -> (r: Vec<ValueKind>) {
        let mut v: Vec<ValueKind> = Vec::new();
        v.push(ValueKind::SingleList);
        proof {
            assert(v@ =~= Self::value_kinds_spec());
        }
        v
    }

    fn apply(lit: Option<&Lit>) -> (r: Result<Self, DefinitionError>) {
        match lit {
            None => Err(DefinitionError::MissingLiteral { span: Span::absent() }),
            Some(l) => match &l.kind {
                LitKind::Str(s) => if is_valid_ident(s.as_str()) {
                    Ok(Ident(s.clone()))
                } else {
                    Err(DefinitionError::InvalidIdentifier { span: l.span })
                },
                LitKind::Int(_) => Err(DefinitionError::NotStringLiteral { span: l.span }),
                LitKind::Bool(_) => Err(DefinitionError::NotStringLiteral { span: l.span }),
            },
        }
    }

    fn parse(values: Values) -> (r: Result<Self, DefinitionError>) {
        let kinds = Self::value_kinds();
        match validate(&values, &kinds) {
            Ok(_) => {},
            Err(e) => {
                return Err(e);
            },
        }
        if values.literals.len() > 0 {
            Self::apply(Some(&values.literals[0]))
        } else {
            Self::apply(None)
        }
    }
}

impl AttributeOption for Option<String> {
    open spec fn value_kinds_spec() -> Seq<ValueKind> {
        seq![ValueKind::Name, ValueKind::Equals, ValueKind::SingleList]
    }

    open spec fn apply_spec(lit: Option<Lit>) -> Result<Option<Seq<char>>, DefinitionError> {
        match lit {
            None => Ok(None),
            Some(l) => match lit_str_spec(l) {
                Ok(s) => Ok(Some(s@)),
                Err(e) => Err(e),
            },
        }
    }

    open spec fn parse_spec(values: Values) -> Result<Option<Seq<char>>, DefinitionError> {
        if is_form_acceptable_spec(Self::value_kinds_spec(), values.kind) {
            Self::apply_spec(
                if values.literals@.len() > 0 {
                    Some(values.literals@[0])
                } else {
                    None
                },
            )
        } else {
            Err(DefinitionError::UnacceptableForm { span: values.span, found: values.kind })
        }
    }

    fn value_kinds() -> (r: Vec<ValueKind>) {
        let mut v: Vec<ValueKind> = Vec::new();
        v.push(ValueKind::Name);
        v.push(ValueKind::Equals);
        v.push(ValueKind::SingleList);
        proof {
            assert(v@ =~= Self::value_kinds_spec());
        }
        v
    }

    fn apply(lit: Option<&Lit>) -> (r: Result<Self, DefinitionError>) {
        match lit {
            None => Ok(None),
            Some(l) => match lit_to_str(l) {
                Ok(s) => Ok(Some(s)),
                Err(e) => Err(e),
            },
        }
    }

    fn parse(values: Values) -> (r: Result<Self, DefinitionError>) {
        let kinds = Self::value_kinds();
        match validate(&values, &kinds) {
            Ok(_) => {},
            Err(e) => {
                return Err(e);
            },
        }
        if values.literals.len() > 0 {
            Self::apply(Some(&values.literals[0]))
        } else {
            Self::apply(None)
        }
    }
}

/// What coercing every literal of a list yields: each element coerced
/// independently, failing on the first element that fails.
pub open spec fn apply_all<T: AttributeOption>(lits: Seq<Lit>) -> Result<
    Seq<T::V>,
    DefinitionError,
>
    decreases lits.len(),
{
    if lits.len() == 0 {
        Ok(Seq::empty())
    } else {
        match T::apply_spec(Some(lits[0])) {
            Err(e) => Err(e),
            Ok(v) => match apply_all::<T>(lits.drop_first()) {
                Err(e) => Err(e),
                Ok(rest) => Ok(seq![v] + rest),
            },
        }
    }
}

impl<T: AttributeOption> AttributeOption for Vec<T> {
    open spec fn value_kinds_spec() -> Seq<ValueKind> {
        seq![ValueKind::List]
    }

    open spec fn apply_spec(lit: Option<Lit>) -> Result<Seq<T::V>, DefinitionError> {
        Ok(Seq::empty())
    }

    open spec fn parse_spec(values: Values) -> Result<Seq<T::V>, DefinitionError> {
        if is_form_acceptable_spec(Self::value_kinds_spec(), values.kind) {
            apply_all::<T>(values.literals@)
        } else {
            Err(DefinitionError::UnacceptableForm { span: values.span, found: values.kind })
        }
    }

    fn value_kinds() -> (r: Vec<ValueKind>) {
        let mut v: Vec<ValueKind> = Vec::new();
        v.push(ValueKind::List);
        proof {
            assert(v@ =~= Self::value_kinds_spec());
        }
        v
    }

    fn apply(lit: Option<&Lit>) -> (r: Result<Self, DefinitionError>) {
        let v: Vec<T> = Vec::new();
        proof {
            assert(v.deep_view() =~= Seq::<T::V>::empty());
        }
        Ok(v)
    }

    #[verifier::loop_isolation(false)]
    fn parse(values: Values) -> (r: Result<Self, DefinitionError>) {
        let kinds = Self::value_kinds();
        match validate(&values, &kinds) {
            Ok(_) => {},
            Err(e) => {
                return Err(e);
            },
        }
        let ghost origlits = values.literals@;
        let Values { name, literals, kind, span } = values;
        let mut rest = literals;
        let mut out: Vec<T> = Vec::new();
        while rest.len() > 0
            invariant
                apply_all::<T>(origlits) == (match apply_all::<T>(rest@) {
                    Ok(tail) => Ok::<Seq<T::V>, DefinitionError>(out.deep_view() + tail),
                    Err(e) => Err::<Seq<T::V>, DefinitionError>(e),
                }),
            decreases rest.len(),
        {
            let ghost rest0 = rest@;
            let ghost old_out = out.deep_view();
            let item = rest.remove(0);
            proof {
                assert(rest0[0] == item);
                assert(rest@ =~= rest0.drop_first());
            }
            let v = match T::apply(Some(&item)) {
                Ok(v) => v,
                Err(e) => {
                    proof {
                        assert(apply_all::<T>(rest0) == Err::<Seq<T::V>, DefinitionError>(e));
                    }
                    return Err(e);
                },
            };
            out.push(v);
            proof {
                let dv = T::apply_spec(Some(rest0[0]))->Ok_0;
                assert(out.deep_view() =~= old_out.push(dv));
                if apply_all::<T>(rest@) is Ok {
                    let tail = apply_all::<T>(rest@)->Ok_0;
                    assert(old_out + (seq![dv] + tail) =~= out.deep_view() + tail);
                }
            }
        }
        proof {
            assert(apply_all::<T>(rest@) == Ok::<Seq<T::V>, DefinitionError>(Seq::empty()));
            assert(out.deep_view() + Seq::<T::V>::empty() =~= out.deep_view());
        }
        Ok(out)
    }
}

impl<T: AttributeOption> AttributeOption for AsOption<T> {
    open spec fn value_kinds_spec() -> Seq<ValueKind> {
        seq![ValueKind::SingleList]
    }

    open spec fn apply_spec(lit: Option<Lit>) -> Result<Option<T::V>, DefinitionError> {
        Ok(None)
    }

    open spec fn parse_spec(values: Values) -> Result<Option<T::V>, DefinitionError> {
        match T::parse_spec(values) {
            Ok(v) => Ok(Some(v)),
            Err(e) => Err(e),
        }
    }

    fn value_kinds() -> (r: Vec<ValueKind>) {
        let mut v: Vec<ValueKind> = Vec::new();
        v.push(ValueKind::SingleList);
        proof {
            assert(v@ =~= Self::value_kinds_spec());
        }
        v
    }

    fn apply(lit: Option<&Lit>) -> (r: Result<Self, DefinitionError>) {
        Ok(AsOption(None))
    }

    fn parse(values: Values) -> (r: Result<Self, DefinitionError>) {
        match T::parse(values) {
            Ok(t) => Ok(AsOption(Some(t))),
            Err(e) => Err(e),
        }
    }
}

/// Parse an annotation into any coercion target.
pub fn parse<T: AttributeOption>(values: Values) -> (r: Result<T, DefinitionError>)
    ensures
        (match r {
            Ok(v) => T::parse_spec(values) == Ok::<T::V, DefinitionError>(v.deep_view()),
            Err(e) => T::parse_spec(values) == Err::<T::V, DefinitionError>(e),
        }),
{
    T::parse(values)
}

} // verus!
