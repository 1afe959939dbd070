//! The annotated declaration, as the generator reads it.
//!
//! Types, paths, visibilities and generics lists are held as their source
//! text; the generator copies them into its output unchanged.
use vstd::prelude::*;

verus! {

/// An expression given as a directive payload.
#[derive(Debug)]
pub enum Expr {
    /// A path expression such as `Lock::read`.
    Path(String),
    /// Any other expression, such as the call `Lock::read()`.
    Other(String),
}

/// The payload after `=` in a directive.
#[derive(Debug)]
pub struct AttrValue {
    /// Source text of the payload.
    pub text: String,
    /// The payload read as an expression, if it is one.
    pub expr: Option<Expr>,
    /// Whether the payload reads as a type.
    pub is_type: bool,
}

/// One directive inside `#[async_debug(...)]`: a key, and for `key = value`
/// forms the value.
#[derive(Debug)]
pub struct AttrArg {
    pub key: String,
    pub value: Option<AttrValue>,
}

/// One field of a record or variant.
#[derive(Debug)]
pub struct Field {
    /// The field's name; `None` for a positional field.
    pub ident: Option<String>,
    /// Source text of the field's declared type.
    pub ty: String,
    /// Its directives, in source order, from all `#[async_debug(...)]` attributes.
    pub attrs: Vec<AttrArg>,
}

/// The fields of a record or variant.
#[derive(Debug)]
pub enum Fields {
    Named(Vec<Field>),
    Unnamed(Vec<Field>),
    Unit,
}

/// One variant of a tagged union.
#[derive(Debug)]
pub struct Variant {
    pub ident: String,
    pub fields: Fields,
}

/// The generics of the declaration, split for use in an impl: the
/// declaration-site list with bounds, the use-site argument list, and the
/// where-clause. Each is source text, empty where the declaration has none.
#[derive(Debug)]
pub struct Generics {
    pub impl_generics: String,
    pub ty_generics: String,
    pub where_clause: String,
}

/// The body of the declaration.
#[derive(Debug)]
pub enum Data {
    Struct(Fields),
    Enum(Vec<Variant>),
    Union,
}

/// The annotated declaration.
#[derive(Debug)]
pub struct DeriveInput {
    /// Type-level directives, in source order.
    pub attrs: Vec<AttrArg>,
    /// Source text of the declaration's visibility, empty when private.
    pub vis: String,
    pub ident: String,
    pub generics: Generics,
    pub data: Data,
}

} // verus!
