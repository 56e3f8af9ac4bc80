//! The serializing side of an enum: the name each variant is written as.
use vstd::prelude::*;

use crate::input::{Input, Variant};
use crate::output::{
    container_rule, default_name, variant_name_for, SerdeEnum, SerdeEnumCategory,
};
use crate::rename_all::RenameAll;

verus! {

pub struct InputWrapper(pub Input);

/// The name a variant is written as: its serialize name; for a variant left
/// out of serializing, which is only ever displayed, its identifier under the
/// container's serialize rule.
pub open spec fn written_name(ra: Option<RenameAll>, v: Variant) -> Seq<char> {
    if v.skip_serializing {
        default_name(v.ident@, container_rule(ra, SerdeEnumCategory::Ser))
    } else {
        variant_name_for(ra, v, SerdeEnumCategory::Ser)
    }
}

impl InputWrapper {
    /// The name each variant is written as, in declaration order.
    pub fn written_names(&self) -> (r: Vec<String>)
        ensures
            r@.len() == self.0.variants@.len(),
            forall|i: int|
                0 <= i < r@.len() ==> (#[trigger] r@[i])@ == written_name(
                    self.0.rename_all,
                    self.0.variants@[i],
                ),
    {
        let ser = SerdeEnum::new(&self.0, SerdeEnumCategory::Ser);
        let n = self.0.variants.len();
        let mut names: Vec<String> = Vec::new();
        let mut i: usize = 0;
        while i < n
            invariant
                i <= n,
                n == self.0.variants@.len(),
                ser.input == &self.0,
                ser.category == SerdeEnumCategory::Ser,
                names@.len() == i,
                forall|k: int|
                    0 <= k < i ==> (#[trigger] names@[k])@ == written_name(
                        self.0.rename_all,
                        self.0.variants@[k],
                    ),
            decreases n - i,
        {
            let name = if ser.is_skipped(i) {
                ser.apply_rule(self.0.variants[i].ident.as_str())
            } else {
                ser.variant_name(i)
            };
            names.push(name);
            i = i + 1;
        }
        names
    }

    /// The name of a unit catch-all variant: its identifier under the
    /// container's serialize rule.
    pub fn fallback_name(&self) -> (r: Option<String>)
        ensures
            match self.0.default_variant {
                Some(dv) => r is Some && r->Some_0@ == default_name(
                    dv.ident@,
                    container_rule(self.0.rename_all, SerdeEnumCategory::Ser),
                ),
                None => r is None,
            },
    {
        match &self.0.default_variant {
            Some(dv) => {
                let ser = SerdeEnum::new(&self.0, SerdeEnumCategory::Ser);
                Some(ser.apply_rule(dv.ident.as_str()))
            },
            None => None,
        }
    }
}

} // verus!
