//! The `rename` attribute: one name for both directions, or a name for
//! serializing and/or a name for deserializing.
use vstd::prelude::*;

use crate::meta::{Lit, Meta, NestedMeta};
use crate::text::{opt_str_view, str_eq};

verus! {

#[derive(PartialEq, Eq, Hash, Debug, Clone)]
pub enum Rename {
    Normal(String),
    Independent(RenameIndependent),
}

#[derive(PartialEq, Eq, Hash, Debug, Clone)]
pub enum RenameIndependent {
    Serialize(String),
    Deserialize(String),
    Both { serialize: String, deserialize: String },
}

/// What a `Rename` holds, with each name as its characters.
pub enum RenameView {
    Normal(Seq<char>),
    Serialize(Seq<char>),
    Deserialize(Seq<char>),
    Both { serialize: Seq<char>, deserialize: Seq<char> },
}

impl View for Rename {
    type V = RenameView;

    open spec fn view(&self) -> RenameView {
        match self {
            Rename::Normal(n) => RenameView::Normal(n@),
            Rename::Independent(RenameIndependent::Serialize(n)) => RenameView::Serialize(n@),
            Rename::Independent(RenameIndependent::Deserialize(n)) => RenameView::Deserialize(n@),
            Rename::Independent(RenameIndependent::Both { serialize, deserialize }) => {
                RenameView::Both { serialize: serialize@, deserialize: deserialize@ }
            },
        }
    }
}

impl RenameView {
    /// The name used when serializing, if this rename gives one.
    pub open spec fn ser(self) -> Option<Seq<char>> {
        match self {
            RenameView::Normal(n) => Some(n),
            RenameView::Serialize(n) => Some(n),
            RenameView::Deserialize(_) => None,
            RenameView::Both { serialize, .. } => Some(serialize),
        }
    }

    /// The name used when deserializing, if this rename gives one.
    pub open spec fn de(self) -> Option<Seq<char>> {
        match self {
            RenameView::Normal(n) => Some(n),
            RenameView::Serialize(_) => None,
            RenameView::Deserialize(n) => Some(n),
            RenameView::Both { deserialize, .. } => Some(deserialize),
        }
    }
}

/// The path of the container and variant attribute.
pub const RENAME: &'static str = "rename";

/// The key of the name used when serializing.
pub const SERIALIZE: &'static str = "serialize";

/// The key of the name used when deserializing.
pub const DESERIALIZE: &'static str = "deserialize";

/// Why an attribute is not a valid rename.
#[derive(PartialEq, Eq, Structural, Debug, Clone, Copy)]
pub enum FromMetaError {
    /// Neither `path = "..."` nor `path(...)` with the expected path.
    MetaTypeOrPathMismatch,
    /// A name that is not a string literal.
    LitTypeMismatch,
    /// The nested item at this position is not of the form `key = lit`.
    NestedMetaTypeMismatch(usize),
    /// The nested item at this position has a key other than `serialize`
    /// or `deserialize`.
    NestedMetaPathMismatch(usize),
    /// `path()` with no name in it.
    AtLeastOneOfSerAndDe,
}

/// The serialize and deserialize names that the nested items of a list
/// give, the later one of a key winning, or the error of the first bad item.
pub open spec fn names_from_nested(nested: Seq<NestedMeta>) -> Result<
    (Option<Seq<char>>, Option<Seq<char>>),
    FromMetaError,
>
    decreases nested.len(),
{
    if nested.len() == 0 {
        Ok((None, None))
    } else {
        let i = (nested.len() - 1) as usize;
        match names_from_nested(nested.drop_last()) {
            Err(e) => Err(e),
            Ok((ser, de)) => match nested.last() {
                NestedMeta::Meta(Meta::NameValue(nv)) => {
                    if nv.path@ == SERIALIZE@ {
                        match nv.lit {
                            Lit::Str(s) => Ok((Some(s@), de)),
                            Lit::Other(_) => Err(FromMetaError::LitTypeMismatch),
                        }
                    } else if nv.path@ == DESERIALIZE@ {
                        match nv.lit {
                            Lit::Str(s) => Ok((ser, Some(s@))),
                            Lit::Other(_) => Err(FromMetaError::LitTypeMismatch),
                        }
                    } else {
                        Err(FromMetaError::NestedMetaPathMismatch(i))
                    }
                },
                _ => Err(FromMetaError::NestedMetaTypeMismatch(i)),
            },
        }
    }
}

/// The rename that the attribute `meta` gives under the path `path`.
pub open spec fn rename_from_meta(meta: Meta, path: Seq<char>) -> Result<RenameView, FromMetaError> {
    match meta {
        Meta::NameValue(nv) => {
            if nv.path@ == path {
                match nv.lit {
                    Lit::Str(s) => Ok(RenameView::Normal(s@)),
                    Lit::Other(_) => Err(FromMetaError::LitTypeMismatch),
                }
            } else {
                Err(FromMetaError::MetaTypeOrPathMismatch)
            }
        },
        Meta::List(list) => {
            if list.path@ == path {
                match names_from_nested(list.nested@) {
                    Err(e) => Err(e),
                    Ok((None, None)) => Err(FromMetaError::AtLeastOneOfSerAndDe),
                    Ok((None, Some(de))) => Ok(RenameView::Deserialize(de)),
                    Ok((Some(ser), None)) => Ok(RenameView::Serialize(ser)),
                    Ok((Some(ser), Some(de))) => Ok(
                        RenameView::Both { serialize: ser, deserialize: de },
                    ),
                }
            } else {
                Err(FromMetaError::MetaTypeOrPathMismatch)
            }
        },
        Meta::Path(_) => Err(FromMetaError::MetaTypeOrPathMismatch),
    }
}

impl Rename {
    pub fn ser_name(&self) -> (r: Option<&str>)
        ensures
            opt_str_view(r) == self@.ser(),
    {
        match self {
            Rename::Normal(name) => Some(name.as_str()),
            Rename::Independent(RenameIndependent::Serialize(name)) => Some(name.as_str()),
            Rename::Independent(RenameIndependent::Both { serialize, .. }) => Some(
                serialize.as_str(),
            ),
            Rename::Independent(RenameIndependent::Deserialize(_)) => None,
        }
    }

    pub fn de_name(&self) -> (r: Option<&str>)
        ensures
            opt_str_view(r) == self@.de(),
    {
        match self {
            Rename::Normal(name) => Some(name.as_str()),
            Rename::Independent(RenameIndependent::Deserialize(name)) => Some(name.as_str()),
            Rename::Independent(RenameIndependent::Both { deserialize, .. }) => Some(
                deserialize.as_str(),
            ),
            Rename::Independent(RenameIndependent::Serialize(_)) => None,
        }
    }

    /// Reads a rename from `path_name = "name"` or from
    /// `path_name(serialize = "..", deserialize = "..")`.
    pub fn try_from_meta(meta: &Meta, path_name: &str) -> (r: Result<Self, FromMetaError>)
        ensures
            match r {
                Ok(rename) => rename_from_meta(*meta, path_name@) == Ok::<
                    RenameView,
                    FromMetaError,
                >(rename@),
                Err(e) => rename_from_meta(*meta, path_name@) == Err::<RenameView, FromMetaError>(
                    e,
                ),
            },
    {
        match meta {
            Meta::NameValue(nv) => {
                if !str_eq(nv.path.as_str(), path_name) {
                    return Err(FromMetaError::MetaTypeOrPathMismatch);
                }
                match &nv.lit {
                    Lit::Str(s) => Ok(Rename::Normal(s.clone())),
                    Lit::Other(_) => Err(FromMetaError::LitTypeMismatch),
                }
            },
            Meta::List(list) => {
                if !str_eq(list.path.as_str(), path_name) {
                    return Err(FromMetaError::MetaTypeOrPathMismatch);
                }
                let mut ser_name: Option<String> = None;
                let mut de_name: Option<String> = None;
                let mut i: usize = 0;
                while i < list.nested.len()
                    invariant
                        i <= list.nested@.len(),
                        *meta == Meta::List(*list),
                        list.path@ == path_name@,
                        names_from_nested(list.nested@.take(i as int)) == Ok::<
                            (Option<Seq<char>>, Option<Seq<char>>),
                            FromMetaError,
                        >((opt_string_view(ser_name), opt_string_view(de_name))),
                    decreases list.nested.len() - i,
                {
                    proof {
                        assert(list.nested@.take(i + 1).drop_last() =~= list.nested@.take(
                            i as int,
                        ));
                        assert(list.nested@.take(i + 1).last() == list.nested@[i as int]);
                    }
                    match &list.nested[i] {
                        NestedMeta::Meta(Meta::NameValue(nv)) => {
                            if str_eq(nv.path.as_str(), SERIALIZE) {
                                match &nv.lit {
                                    Lit::Str(s) => {
                                        ser_name = Some(s.clone());
                                    },
                                    Lit::Other(_) => {
                                        proof {
                                            lemma_nested_error_persists(list.nested@, i + 1);
                                        }
                                        return Err(FromMetaError::LitTypeMismatch);
                                    },
                                }
                            } else if str_eq(nv.path.as_str(), DESERIALIZE) {
                                match &nv.lit {
                                    Lit::Str(s) => {
                                        de_name = Some(s.clone());
                                    },
                                    Lit::Other(_) => {
                                        proof {
                                            lemma_nested_error_persists(list.nested@, i + 1);
                                        }
                                        return Err(FromMetaError::LitTypeMismatch);
                                    },
                                }
                            } else {
                                proof {
                                    lemma_nested_error_persists(list.nested@, i + 1);
                                }
                                return Err(FromMetaError::NestedMetaPathMismatch(i));
                            }
                        },
                        _ => {
                            proof {
                                lemma_nested_error_persists(list.nested@, i + 1);
                            }
                            return Err(FromMetaError::NestedMetaTypeMismatch(i));
                        },
                    }
                    i = i + 1;
                }
                proof {
                    assert(list.nested@.take(i as int) =~= list.nested@);
                }
                match (ser_name, de_name) {
                    (None, None) => Err(FromMetaError::AtLeastOneOfSerAndDe),
                    (None, Some(de_name)) => Ok(
                        Rename::Independent(RenameIndependent::Deserialize(de_name)),
                    ),
                    (Some(ser_name), None) => Ok(
                        Rename::Independent(RenameIndependent::Serialize(ser_name)),
                    ),
                    (Some(ser_name), Some(de_name)) => Ok(
                        Rename::Independent(
                            RenameIndependent::Both { serialize: ser_name, deserialize: de_name },
                        ),
                    ),
                }
            },
            Meta::Path(_) => Err(FromMetaError::MetaTypeOrPathMismatch),
        }
    }

    /// Reads a `rename` attribute.
    pub fn try_from(meta: &Meta) -> (r: Result<Self, FromMetaError>)
        ensures
            match r {
                Ok(rename) => rename_from_meta(*meta, RENAME@) == Ok::<RenameView, FromMetaError>(
                    rename@,
                ),
                Err(e) => rename_from_meta(*meta, RENAME@) == Err::<RenameView, FromMetaError>(e),
            },
    {
        Self::try_from_meta(meta, RENAME)
    }
}

/// Once a prefix of the nested items fails, the whole list fails the same way.
proof fn lemma_nested_error_persists(nested: Seq<NestedMeta>, k: int)
    requires
        0 <= k <= nested.len(),
        names_from_nested(nested.take(k)) is Err,
    ensures
        names_from_nested(nested) == names_from_nested(nested.take(k)),
    decreases nested.len() - k,
{
    if k == nested.len() {
        assert(nested.take(k) =~= nested);
    } else {
        assert(nested.drop_last().take(k) =~= nested.take(k));
        lemma_nested_error_persists(nested.drop_last(), k);
    }
}

pub open spec fn opt_string_view(o: Option<String>) -> Option<Seq<char>> {
    match o {
        Some(s) => Some(s@),
        None => None,
    }
}

} // verus!
