//! The `alias` variant attribute: one more name accepted when deserializing.
use vstd::prelude::*;

use crate::meta::{Lit, Meta};
use crate::text::str_eq;

verus! {

#[derive(PartialEq, Eq, Hash, Debug, Clone)]
pub struct Alias(pub String);

/// The path of the attribute.
pub const ALIAS: &'static str = "alias";

/// Why an attribute is not a valid alias.
#[derive(PartialEq, Eq, Structural, Debug, Clone, Copy)]
pub enum FromMetaError {
    /// Not of the form `alias = ...`.
    MetaTypeOrPathMismatch,
    /// `alias = lit` where `lit` is not a string.
    LitTypeMismatch,
}

/// The alias that the attribute `meta` gives.
pub open spec fn alias_from_meta(meta: Meta) -> Result<Seq<char>, FromMetaError> {
    match meta {
        Meta::NameValue(nv) => {
            if nv.path@ == ALIAS@ {
                match nv.lit {
                    Lit::Str(s) => Ok(s@),
                    Lit::Other(_) => Err(FromMetaError::LitTypeMismatch),
                }
            } else {
                Err(FromMetaError::MetaTypeOrPathMismatch)
            }
        },
        _ => Err(FromMetaError::MetaTypeOrPathMismatch),
    }
}

impl Alias {
    /// Reads `alias = "name"`.
    pub fn try_from(meta: &Meta) -> (r: Result<Self, FromMetaError>)
        ensures
            match r {
                Ok(alias) => alias_from_meta(*meta) == Ok::<Seq<char>, FromMetaError>(alias.0@),
                Err(e) => alias_from_meta(*meta) == Err::<Seq<char>, FromMetaError>(e),
            },
    {
        match meta {
            Meta::NameValue(nv) => {
                if !str_eq(nv.path.as_str(), ALIAS) {
                    return Err(FromMetaError::MetaTypeOrPathMismatch);
                }
                match &nv.lit {
                    Lit::Str(s) => Ok(Alias(s.clone())),
                    Lit::Other(_) => Err(FromMetaError::LitTypeMismatch),
                }
            },
            _ => Err(FromMetaError::MetaTypeOrPathMismatch),
        }
    }
}

} // verus!
