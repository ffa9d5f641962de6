//! The declaration-side data model: the shapes an annotated command
//! declaration is made of. An annotation is a name together with one of a
//! small set of value forms; a declaration is a visibility, a name, a
//! parameter list, a return type and a body. Every error points back into the
//! source through a [`Span`].

use vstd::prelude::*;

verus! {

/// A region of the declaration's source text, carried on every node so that
/// definition-time errors can name the offending place.
#[derive(Debug, Clone, Copy, PartialEq, Eq, Structural)]
pub struct Span {
    pub lo: usize,
    pub hi: usize,
}

/// A literal value as it appears inside an annotation: a string, an unsigned
/// integer or a boolean.
#[derive(Debug, Clone, PartialEq)]
pub enum LitKind {
    Str(String),
    Int(u64),
    Bool(bool),
}

/// A literal together with its source position.
#[derive(Debug, Clone, PartialEq)]
pub struct Lit {
    pub kind: LitKind,
    pub span: Span,
}

/// One segment of a path, such as `description`; `has_arguments` records
/// whether generic arguments were attached to it.
#[derive(Debug, Clone, PartialEq)]
pub struct PathSegment {
    pub ident: String,
    pub has_arguments: bool,
}

/// A (possibly multi-segment) path naming an annotation.
#[derive(Debug, Clone, PartialEq)]
pub struct Path {
    pub segments: Vec<PathSegment>,
    pub span: Span,
}

/// The raw shape of one annotation: a bare path, a parenthesized group, or a
/// `name = literal` pair.
#[derive(Debug, PartialEq)]
pub enum Meta {
    Path(Path),
    List { path: Path, nested: Vec<NestedMeta> },
    NameValue { path: Path, lit: Lit },
}

/// One element inside a parenthesized annotation group: either a literal or a
/// nested annotation shape (the latter is rejected by the grammar).
#[derive(Debug, PartialEq)]
pub enum NestedMeta {
    Meta(Meta),
    Lit(Lit),
}

/// One annotation attached to a declaration.
#[derive(Debug, PartialEq)]
pub struct Attribute {
    pub meta: Meta,
    pub span: Span,
}

/// A type as it appears in a declaration's parameter list or return position:
/// either a reference (whose lifetime the synthesizer may fill in) or a named
/// type written out in full.
#[derive(Debug, PartialEq)]
pub enum Type {
    Reference { lifetime: Option<String>, inner: Box<Type> },
    Named { name: String },
}

impl Type {
    /// A structural copy of the type.
    pub fn clone_type(&self) -> (r: Type)
        ensures
            r == *self,
        decreases self,
    {
        match self {
            Type::Named { name } => Type::Named { name: name.clone() },
            Type::Reference { lifetime, inner } => Type::Reference {
                lifetime: match lifetime {
                    Some(l) => Some(l.clone()),
                    None => None,
                },
                inner: Box::new(inner.clone_type()),
            },
        }
    }
}

/// A parameter pattern: a plain binding, a wildcard, or something the shape
/// validator does not accept.
#[derive(Debug, PartialEq)]
pub enum Pat {
    Ident { name: String, mutable: bool },
    Wild,
    Other { span: Span },
}

/// One declared parameter: either a `self` receiver (rejected) or a typed
/// pattern.
#[derive(Debug, PartialEq)]
pub enum FnArg {
    Receiver { span: Span },
    Typed { pat: Pat, ty: Type, span: Span },
}

/// One statement of the declaration's body. The shape validator prepends
/// `TypeAssertEq` statements, which assert at build time that a declared type
/// structurally equals the expected one; the declaration's own statements are
/// carried verbatim as `Code`.
#[derive(Debug, PartialEq)]
pub enum Stmt {
    TypeAssertEq { have: Type, expect: Type },
    Code { text: String },
}

/// The declaration's visibility, kept verbatim on the synthesized artifact.
#[derive(Debug, Clone, Copy, PartialEq, Eq, Structural)]
pub enum Visibility {
    Public,
    Inherited,
}

impl Span {
    /// The span used where no source position exists, such as a literal that
    /// was never written.
    pub open spec fn absent_spec() -> Span {
        Span { lo: 0, hi: 0 }
    }

    /// The absent span, as a value.
    pub fn absent() -> (s: Span)
        ensures
            s == Span::absent_spec(),
    {
        Span { lo: 0, hi: 0 }
    }
}

/// The name of a reusable unit (a permission rule or an option schema)
/// referenced from an annotation; always a valid identifier when produced by
/// the coercion layer.
#[derive(Debug, Clone, PartialEq)]
pub struct Ident(pub String);

impl DeepView for Ident {
    type V = Seq<char>;

    open spec fn deep_view(&self) -> Seq<char> {
        self.0@
    }
}

impl Attribute {
    /// The path of this annotation, whichever shape it has.
    pub open spec fn path_spec(self) -> Path {
        match self.meta {
            Meta::Path(p) => p,
            Meta::List { path, .. } => path,
            Meta::NameValue { path, .. } => path,
        }
    }
}

} // verus!
