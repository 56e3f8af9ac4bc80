//! The `rename_all` container attribute: a naming rule for all members, for
//! both directions or for each direction on its own.
use vstd::prelude::*;

use crate::meta::Meta;
use crate::rename::{
    rename_from_meta, FromMetaError as RenameFromMetaError, Rename, RenameIndependent,
    RenameView,
};
use crate::rename_rule::{parse_rule, ParseError, RenameRule};

verus! {

#[derive(PartialEq, Eq, Structural, Hash, Debug, Clone, Copy)]
pub enum RenameAll {
    Normal(RenameRule),
    Independent(RenameAllIndependent),
}

#[derive(PartialEq, Eq, Structural, Hash, Debug, Clone, Copy)]
pub enum RenameAllIndependent {
    Serialize(RenameRule),
    Deserialize(RenameRule),
    Both { serialize: RenameRule, deserialize: RenameRule },
}

/// The path of the container attribute.
pub const RENAME_ALL: &'static str = "rename_all";

/// Why an attribute is not a valid `rename_all`.
#[derive(Debug)]
pub enum FromMetaError {
    MetaTypeOrPathMismatch,
    LitTypeMismatch,
    NestedMetaTypeMismatch(usize),
    NestedMetaPathMismatch(usize),
    AtLeastOneOfSerAndDe,
    /// A name that is not the key of any rule.
    RenameRuleParseError(ParseError),
}

impl FromMetaError {
    /// The error of the attribute's shape that this error passes on, if any.
    pub open spec fn shape_error(self) -> Option<RenameFromMetaError> {
        match self {
            FromMetaError::MetaTypeOrPathMismatch => Some(RenameFromMetaError::MetaTypeOrPathMismatch),
            FromMetaError::LitTypeMismatch => Some(RenameFromMetaError::LitTypeMismatch),
            FromMetaError::NestedMetaTypeMismatch(i) => Some(
                RenameFromMetaError::NestedMetaTypeMismatch(i),
            ),
            FromMetaError::NestedMetaPathMismatch(i) => Some(
                RenameFromMetaError::NestedMetaPathMismatch(i),
            ),
            FromMetaError::AtLeastOneOfSerAndDe => Some(RenameFromMetaError::AtLeastOneOfSerAndDe),
            FromMetaError::RenameRuleParseError(_) => None,
        }
    }
}

/// The rules that the names of a rename give, or the first name that is no
/// rule's key.
pub open spec fn rename_all_from_names(v: RenameView) -> Result<RenameAll, Seq<char>> {
    match v {
        RenameView::Normal(n) => match parse_rule(n) {
            Some(r) => Ok(RenameAll::Normal(r)),
            None => Err(n),
        },
        RenameView::Serialize(n) => match parse_rule(n) {
            Some(r) => Ok(RenameAll::Independent(RenameAllIndependent::Serialize(r))),
            None => Err(n),
        },
        RenameView::Deserialize(n) => match parse_rule(n) {
            Some(r) => Ok(RenameAll::Independent(RenameAllIndependent::Deserialize(r))),
            None => Err(n),
        },
        RenameView::Both { serialize, deserialize } => match (
            parse_rule(serialize),
            parse_rule(deserialize),
        ) {
            (Some(s), Some(d)) => Ok(
                RenameAll::Independent(RenameAllIndependent::Both { serialize: s, deserialize: d }),
            ),
            (None, _) => Err(serialize),
            (Some(_), None) => Err(deserialize),
        },
    }
}

pub open spec fn opt_rule_ref(o: Option<&RenameRule>) -> Option<RenameRule> {
    match o {
        Some(r) => Some(*r),
        None => None,
    }
}

impl RenameAll {
    /// The rule used when serializing, if any.
    pub open spec fn ser(self) -> Option<RenameRule> {
        match self {
            RenameAll::Normal(r) => Some(r),
            RenameAll::Independent(RenameAllIndependent::Serialize(r)) => Some(r),
            RenameAll::Independent(RenameAllIndependent::Deserialize(_)) => None,
            RenameAll::Independent(RenameAllIndependent::Both { serialize, .. }) => Some(
                serialize,
            ),
        }
    }

    /// The rule used when deserializing, if any.
    pub open spec fn de(self) -> Option<RenameRule> {
        match self {
            RenameAll::Normal(r) => Some(r),
            RenameAll::Independent(RenameAllIndependent::Serialize(_)) => None,
            RenameAll::Independent(RenameAllIndependent::Deserialize(r)) => Some(r),
            RenameAll::Independent(RenameAllIndependent::Both { deserialize, .. }) => Some(
                deserialize,
            ),
        }
    }

    pub fn ser_rule(&self) -> (r: Option<&RenameRule>)
        ensures
            opt_rule_ref(r) == self.ser(),
    {
        match self {
            RenameAll::Normal(rule) => Some(rule),
            RenameAll::Independent(RenameAllIndependent::Serialize(rule)) => Some(rule),
            RenameAll::Independent(RenameAllIndependent::Both { serialize, .. }) => Some(serialize),
            RenameAll::Independent(RenameAllIndependent::Deserialize(_)) => None,
        }
    }

    pub fn de_rule(&self) -> (r: Option<&RenameRule>)
        ensures
            opt_rule_ref(r) == self.de(),
    {
        match self {
            RenameAll::Normal(rule) => Some(rule),
            RenameAll::Independent(RenameAllIndependent::Deserialize(rule)) => Some(rule),
            RenameAll::Independent(RenameAllIndependent::Both { deserialize, .. }) => Some(
                deserialize,
            ),
            RenameAll::Independent(RenameAllIndependent::Serialize(_)) => None,
        }
    }

    /// Reads `rename_all = "rule"` or
    /// `rename_all(serialize = "rule", deserialize = "rule")`.
    pub fn try_from(meta: &Meta) -> (r: Result<Self, FromMetaError>)
        ensures
            match rename_from_meta(*meta, RENAME_ALL@) {
                Err(e) => r is Err && r->Err_0.shape_error() == Some(e),
                Ok(v) => match rename_all_from_names(v) {
                    Ok(ra) => r is Ok && r->Ok_0 == ra,
                    Err(name) => r matches Err(FromMetaError::RenameRuleParseError(ParseError::Unknown(s)))
                        && s@ == name,
                },
            },
    {
        match Rename::try_from_meta(meta, RENAME_ALL) {
            Ok(rename) => match rename {
                Rename::Normal(name) => match RenameRule::from_rename_all_str(name.as_str()) {
                    Ok(rule) => Ok(RenameAll::Normal(rule)),
                    Err(e) => Err(FromMetaError::RenameRuleParseError(e)),
                },
                Rename::Independent(RenameIndependent::Serialize(name)) => {
                    match RenameRule::from_rename_all_str(name.as_str()) {
                        Ok(rule) => Ok(RenameAll::Independent(RenameAllIndependent::Serialize(rule))),
                        Err(e) => Err(FromMetaError::RenameRuleParseError(e)),
                    }
                },
                Rename::Independent(RenameIndependent::Deserialize(name)) => {
                    match RenameRule::from_rename_all_str(name.as_str()) {
                        Ok(rule) => Ok(
                            RenameAll::Independent(RenameAllIndependent::Deserialize(rule)),
                        ),
                        Err(e) => Err(FromMetaError::RenameRuleParseError(e)),
                    }
                },
                Rename::Independent(RenameIndependent::Both { serialize, deserialize }) => {
                    let ser = match RenameRule::from_rename_all_str(serialize.as_str()) {
                        Ok(rule) => rule,
                        Err(e) => {
                            return Err(FromMetaError::RenameRuleParseError(e));
                        },
                    };
                    let de = match RenameRule::from_rename_all_str(deserialize.as_str()) {
                        Ok(rule) => rule,
                        Err(e) => {
                            return Err(FromMetaError::RenameRuleParseError(e));
                        },
                    };
                    Ok(
                        RenameAll::Independent(
                            RenameAllIndependent::Both { serialize: ser, deserialize: de },
                        ),
                    )
                },
            },
            Err(err) => Err(
                match err {
                    RenameFromMetaError::MetaTypeOrPathMismatch => FromMetaError::MetaTypeOrPathMismatch,
                    RenameFromMetaError::LitTypeMismatch => FromMetaError::LitTypeMismatch,
                    RenameFromMetaError::NestedMetaTypeMismatch(i) => {
                        FromMetaError::NestedMetaTypeMismatch(i)
                    },
                    RenameFromMetaError::NestedMetaPathMismatch(i) => {
                        FromMetaError::NestedMetaPathMismatch(i)
                    },
                    RenameFromMetaError::AtLeastOneOfSerAndDe => FromMetaError::AtLeastOneOfSerAndDe,
                },
            ),
        }
    }
}

} // verus!
