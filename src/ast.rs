//! The tree values the builders assemble.
use vstd::prelude::*;

verus! {

/// Identifies a node; assigned by a later pass.
pub type NodeId = u32;

/// The placeholder id a node carries until a later pass numbers it.
pub const DUMMY_NODE_ID: NodeId = 0xffff_ffff;

/// A source location as a byte range.
#[derive(Clone, Copy, Debug, PartialEq, Eq)]
pub struct Span {
    pub lo: u32,
    pub hi: u32,
}

impl Span {
    /// The marker for a node with no known location.
    pub open spec fn is_dummy(self) -> bool {
        self.lo == 0 && self.hi == 0
    }

    pub fn dummy() -> (r: Span)
        ensures
            r.is_dummy(),
    {
        Span { lo: 0, hi: 0 }
    }
}

/// A name.
#[derive(Clone, Debug, PartialEq, Eq)]
pub struct Ident {
    pub name: String,
}

impl Ident {
    pub fn new(name: &str) -> (r: Ident)
        ensures
            r.name@ == name@,
    {
        Ident { name: name.to_owned() }
    }
}

/// A path such as `a::b::c`, or `::a::b` when `global`.
#[derive(Clone, Debug, PartialEq, Eq)]
pub struct Path {
    pub global: bool,
    pub segments: Vec<Ident>,
}

/// A type.
#[derive(Clone, Debug, PartialEq, Eq)]
pub enum Ty {
    /// The unit type `()`.
    Unit,
    /// The type `_`, left for inference.
    Infer,
    /// A type named by a path.
    Path(Path),
}

/// An expression.
#[derive(Clone, Debug, PartialEq, Eq)]
pub enum Expr {
    /// An integer literal.
    Lit(u64),
    /// A path used as a value.
    Path(Path),
}

/// One atomic fragment of a macro's argument sequence.
#[derive(Clone, Debug, PartialEq, Eq)]
pub enum TokenTree {
    Ident(Ident),
    Lit(u64),
    /// `::`
    ModSep,
    /// `,`
    Comma,
    /// `;`
    Semi,
}

/// The content of an attribute.
#[derive(Clone, Debug, PartialEq, Eq)]
pub enum MetaItem {
    /// `#[name]`
    Word(Ident),
    /// `#[name = "value"]`
    NameValue(Ident, String),
}

/// An attribute attached to an item.
#[derive(Clone, Debug, PartialEq, Eq)]
pub struct Attribute {
    pub value: MetaItem,
}

/// Whether an item is public or keeps the visibility it inherits.
#[derive(Clone, Copy, Debug, PartialEq, Eq)]
pub enum Visibility {
    Public,
    Inherited,
}

/// A reference to a trait, as in `impl Trait for T`.
#[derive(Clone, Debug, PartialEq, Eq)]
pub struct TraitRef {
    pub path: Path,
    /// A placeholder id that correlates the reference with later passes.
    pub ref_id: NodeId,
}

/// An invocation of the macro `path` on the tokens `tts`.
#[derive(Clone, Debug, PartialEq, Eq)]
pub struct Mac {
    pub path: Path,
    pub tts: Vec<TokenTree>,
    /// The syntax context of the invocation; always the root context here.
    pub ctxt: u32,
    pub span: Span,
}

/// What an item of an impl block defines.
#[derive(Clone, Debug, PartialEq, Eq)]
pub enum ImplItemKind {
    /// An associated constant, with its type and its initializer.
    Const(Ty, Expr),
    /// An associated type.
    Type(Ty),
    /// An item produced by a macro invocation.
    Macro(Mac),
}

/// One item of an impl block.
#[derive(Clone, Debug, PartialEq, Eq)]
pub struct ImplItem {
    pub id: NodeId,
    pub ident: Ident,
    pub vis: Visibility,
    pub attrs: Vec<Attribute>,
    pub node: ImplItemKind,
    pub span: Span,
}

} // verus!
