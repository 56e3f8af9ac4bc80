//! One direction (serializing or deserializing) of an enum: the rule of the
//! container and the name each variant takes in that direction.
use vstd::prelude::*;

use crate::alias::Alias;
use crate::input::{Input, Variant};
use crate::rename_all::RenameAll;
use crate::rename_rule::RenameRule;
use crate::text::owned;

verus! {

#[derive(PartialEq, Eq, Structural, Debug, Clone, Copy)]
pub enum SerdeEnumCategory {
    Ser,
    De,
}

/// An enum seen in one direction.
pub struct SerdeEnum<'a> {
    pub input: &'a Input,
    pub category: SerdeEnumCategory,
}

/// The container's rule for a direction, if any.
pub open spec fn container_rule(ra: Option<RenameAll>, category: SerdeEnumCategory) -> Option<
    RenameRule,
> {
    match ra {
        Some(a) => match category {
            SerdeEnumCategory::Ser => a.ser(),
            SerdeEnumCategory::De => a.de(),
        },
        None => None,
    }
}

/// An identifier under an optional rule: the rule applied, or the
/// identifier unchanged.
pub open spec fn default_name(ident: Seq<char>, rule: Option<RenameRule>) -> Seq<char> {
    match rule {
        Some(r) => r.variant_name(ident),
        None => ident,
    }
}

/// The variant's own name for a direction, from its `rename`, if it has one.
pub open spec fn own_name(v: Variant, category: SerdeEnumCategory) -> Option<Seq<char>> {
    match v.rename {
        Some(r) => match category {
            SerdeEnumCategory::Ser => r@.ser(),
            SerdeEnumCategory::De => r@.de(),
        },
        None => None,
    }
}

/// The name of a variant in a direction: its own rename for that direction
/// wins outright; otherwise the container's rule applied to its identifier;
/// otherwise the identifier itself.
pub open spec fn variant_name_for(
    ra: Option<RenameAll>,
    v: Variant,
    category: SerdeEnumCategory,
) -> Seq<char> {
    match own_name(v, category) {
        Some(n) => n,
        None => default_name(v.ident@, container_rule(ra, category)),
    }
}

/// Whether a variant is left out in a direction.
pub open spec fn skipped_for(v: Variant, category: SerdeEnumCategory) -> bool {
    match category {
        SerdeEnumCategory::Ser => v.skip_serializing,
        SerdeEnumCategory::De => v.skip_deserializing,
    }
}

pub open spec fn suffix_of(category: SerdeEnumCategory) -> Seq<char> {
    match category {
        SerdeEnumCategory::Ser => "Ser"@,
        SerdeEnumCategory::De => "De"@,
    }
}

/// The aliases of a variant, as character sequences.
pub open spec fn alias_names(aliases: Option<Vec<Alias>>) -> Seq<Seq<char>> {
    match aliases {
        Some(v) => v@.map_values(|a: Alias| a.0@),
        None => Seq::empty(),
    }
}

impl<'a> SerdeEnum<'a> {
    pub fn new(input: &'a Input, category: SerdeEnumCategory) -> (r: Self)
        ensures
            r.input == input,
            r.category == category,
    {
        SerdeEnum { input, category }
    }

    /// The identifier of the enum seen in this direction.
    pub fn ident(&self) -> (r: String)
        ensures
            r@ == "__"@ + self.input.ident@ + suffix_of(self.category),
    {
        let mut r = String::from_str("__");
        r.append(self.input.ident.as_str());
        r.append(self.suffix());
        r
    }

    pub fn suffix(&self) -> (r: &'static str)
        ensures
            r@ == suffix_of(self.category),
    {
        match self.category {
            SerdeEnumCategory::Ser => "Ser",
            SerdeEnumCategory::De => "De",
        }
    }

    /// The container's rule for this direction.
    pub fn rule(&self) -> (r: Option<RenameRule>)
        ensures
            r == container_rule(self.input.rename_all, self.category),
    {
        match &self.input.rename_all {
            Some(rename_all) => {
                let rule = match self.category {
                    SerdeEnumCategory::Ser => rename_all.ser_rule(),
                    SerdeEnumCategory::De => rename_all.de_rule(),
                };
                match rule {
                    Some(rule) => Some(*rule),
                    None => None,
                }
            },
            None => None,
        }
    }

    /// An identifier under the container's rule for this direction.
    pub fn apply_rule(&self, ident: &str) -> (r: String)
        ensures
            r@ == default_name(ident@, container_rule(self.input.rename_all, self.category)),
    {
        match self.rule() {
            Some(rule) => rule.apply_to_variant(ident),
            None => owned(ident),
        }
    }

    /// The name of the variant at `index` in this direction.
    pub fn variant_name(&self, index: usize) -> (r: String)
        requires
            index < self.input.variants@.len(),
        ensures
            r@ == variant_name_for(
                self.input.rename_all,
                self.input.variants@[index as int],
                self.category,
            ),
    {
        let variant = &self.input.variants[index];
        let own = match &variant.rename {
            Some(rename) => match self.category {
                SerdeEnumCategory::Ser => rename.ser_name(),
                SerdeEnumCategory::De => rename.de_name(),
            },
            None => None,
        };
        match own {
            Some(name) => owned(name),
            None => self.apply_rule(variant.ident.as_str()),
        }
    }

    /// Whether the variant at `index` is left out in this direction.
    pub fn is_skipped(&self, index: usize) -> (r: bool)
        requires
            index < self.input.variants@.len(),
        ensures
            r == skipped_for(self.input.variants@[index as int], self.category),
    {
        let variant = &self.input.variants[index];
        match self.category {
            SerdeEnumCategory::Ser => variant.skip_serializing,
            SerdeEnumCategory::De => variant.skip_deserializing,
        }
    }
}

} // verus!
