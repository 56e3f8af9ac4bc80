//! The parsed shape of an attribute, as the attribute parser hands it over:
//! `name`, `name = lit` or `name(nested, ...)`.
use vstd::prelude::*;

verus! {

/// A literal in an attribute.
#[derive(PartialEq, Eq, Debug)]
pub enum Lit {
    /// A string literal, with its value.
    Str(String),
    /// Any other literal, as written.
    Other(String),
}

/// `path = lit`.
#[derive(PartialEq, Eq, Debug)]
pub struct MetaNameValue {
    pub path: String,
    pub lit: Lit,
}

/// `path(nested, ...)`.
#[derive(PartialEq, Eq, Debug)]
pub struct MetaList {
    pub path: String,
    pub nested: Vec<NestedMeta>,
}

#[derive(PartialEq, Eq, Debug)]
pub enum Meta {
    /// A bare path, such as `skip`.
    Path(String),
    List(MetaList),
    NameValue(MetaNameValue),
}

/// One item inside the parentheses of a `MetaList`.
#[derive(PartialEq, Eq, Debug)]
pub enum NestedMeta {
    Meta(Meta),
    Lit(Lit),
}

} // verus!
