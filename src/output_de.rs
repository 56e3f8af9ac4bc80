//! The deserializing side of an enum: the names each variant accepts.
use vstd::prelude::*;

use crate::input::{Input, Variant};
use crate::alias::Alias;
use crate::output::{alias_names, variant_name_for, SerdeEnum, SerdeEnumCategory};
use crate::rename_all::RenameAll;
use crate::text::{str_eq, strings_view};

verus! {

pub struct InputWrapper(pub Input);

/// The names a variant accepts when deserializing: none if it is left out;
/// else its deserialize name followed by its aliases.
pub open spec fn accepted_names(ra: Option<RenameAll>, v: Variant) -> Seq<Seq<char>> {
    if v.skip_deserializing {
        Seq::empty()
    } else {
        seq![variant_name_for(ra, v, SerdeEnumCategory::De)] + alias_names(v.alias_vec)
    }
}

impl InputWrapper {
    /// The names each variant accepts, in declaration order.
    pub fn accepted_names(&self) -> (r: Vec<Vec<String>>)
        ensures
            r@.len() == self.0.variants@.len(),
            forall|i: int|
                0 <= i < r@.len() ==> strings_view(#[trigger] r@[i]) == accepted_names(
                    self.0.rename_all,
                    self.0.variants@[i],
                ),
    {
        let de = SerdeEnum::new(&self.0, SerdeEnumCategory::De);
        let n = self.0.variants.len();
        let mut table: Vec<Vec<String>> = Vec::new();
        let mut i: usize = 0;
        while i < n
            invariant
                i <= n,
                n == self.0.variants@.len(),
                de.input == &self.0,
                de.category == SerdeEnumCategory::De,
                table@.len() == i,
                forall|k: int|
                    0 <= k < i ==> strings_view(#[trigger] table@[k]) == accepted_names(
                        self.0.rename_all,
                        self.0.variants@[k],
                    ),
            decreases n - i,
        {
            let mut names: Vec<String> = Vec::new();
            if !de.is_skipped(i) {
                names.push(de.variant_name(i));
                match &self.0.variants[i].alias_vec {
                    Some(aliases) => {
                        let mut j: usize = 0;
                        while j < aliases.len()
                            invariant
                                j <= aliases@.len(),
                                strings_view(names) == seq![
                                    variant_name_for(
                                        self.0.rename_all,
                                        self.0.variants@[i as int],
                                        SerdeEnumCategory::De,
                                    ),
                                ] + aliases@.take(j as int).map_values(|a: Alias| a.0@),
                            decreases aliases.len() - j,
                        {
                            let ghost before = names@;
                            let alias = aliases[j].0.clone();
                            names.push(alias);
                            proof {
                                assert(names@ == before.push(alias));
                                assert(strings_view(names) =~= before.map_values(|s: String| s@).push(
                                    aliases@[j as int].0@,
                                ));
                                assert(aliases@.take(j + 1).map_values(|a: Alias| a.0@) =~= aliases@.take(
                                    j as int,
                                ).map_values(|a: Alias| a.0@).push(aliases@[j as int].0@));
                            }
                            j = j + 1;
                            assert(strings_view(names) =~= seq![
                                variant_name_for(
                                    self.0.rename_all,
                                    self.0.variants@[i as int],
                                    SerdeEnumCategory::De,
                                ),
                            ] + aliases@.take(j as int).map_values(|a: Alias| a.0@));
                        }
                        assert(aliases@.take(j as int) =~= aliases@);
                    },
                    None => {},
                }
                assert(strings_view(names) =~= accepted_names(
                    self.0.rename_all,
                    self.0.variants@[i as int],
                ));
            } else {
                assert(strings_view(names) =~= accepted_names(
                    self.0.rename_all,
                    self.0.variants@[i as int],
                ));
            }
            table.push(names);
            i = i + 1;
        }
        table
    }
}

pub open spec fn shares_name(a: Seq<Seq<char>>, b: Seq<Seq<char>>) -> bool {
    exists|s: Seq<char>| a.contains(s) && b.contains(s)
}

/// No name is in two of the tables.
pub open spec fn names_distinct(tables: Seq<Seq<Seq<char>>>) -> bool {
    forall|i: int, j: int|
        0 <= i < j < tables.len() ==> !shares_name(#[trigger] tables[i], #[trigger] tables[j])
}

/// The names each variant accepts.
pub open spec fn accepted_tables(ra: Option<RenameAll>, vs: Seq<Variant>) -> Seq<Seq<Seq<char>>> {
    vs.map_values(|v: Variant| accepted_names(ra, v))
}

/// Whether `s` is among the names `v`.
pub(crate) fn contains_name(v: &Vec<String>, s: &str) -> (r: bool)
    ensures
        r == strings_view(*v).contains(s@),
{
    let mut i: usize = 0;
    while i < v.len()
        invariant
            i <= v@.len(),
            forall|k: int| 0 <= k < i ==> v@[k]@ != s@,
        decreases v.len() - i,
    {
        if str_eq(v[i].as_str(), s) {
            assert(strings_view(*v)[i as int] == s@);
            return true;
        }
        i = i + 1;
    }
    proof {
        if strings_view(*v).contains(s@) {
            let k = choose|k: int| 0 <= k < strings_view(*v).len() && strings_view(*v)[k] == s@;
            assert(v@[k]@ == s@);
        }
    }
    false
}

/// Whether some name is in both `a` and `b`.
pub(crate) fn share_a_name(a: &Vec<String>, b: &Vec<String>) -> (r: bool)
    ensures
        r == shares_name(strings_view(*a), strings_view(*b)),
{
    let mut i: usize = 0;
    while i < a.len()
        invariant
            i <= a@.len(),
            forall|k: int| 0 <= k < i ==> !strings_view(*b).contains(#[trigger] a@[k]@),
        decreases a.len() - i,
    {
        if contains_name(b, a[i].as_str()) {
            assert(strings_view(*a)[i as int] == a@[i as int]@);
            return true;
        }
        i = i + 1;
    }
    proof {
        if shares_name(strings_view(*a), strings_view(*b)) {
            let s = choose|s: Seq<char>|
                strings_view(*a).contains(s) && strings_view(*b).contains(s);
            let k = choose|k: int| 0 <= k < strings_view(*a).len() && strings_view(*a)[k] == s;
            assert(a@[k]@ == s);
        }
    }
    false
}

/// Whether no name is in two of the tables.
pub(crate) fn all_names_distinct(tables: &Vec<Vec<String>>) -> (r: bool)
    ensures
        r == names_distinct(tables@.map_values(|t: Vec<String>| strings_view(t))),
{
    let ghost views = tables@.map_values(|t: Vec<String>| strings_view(t));
    let mut j: usize = 0;
    while j < tables.len()
        invariant
            j <= tables@.len(),
            views == tables@.map_values(|t: Vec<String>| strings_view(t)),
            forall|a: int, b: int| 0 <= a < b < j ==> !shares_name(#[trigger] views[a], #[trigger] views[b]),
        decreases tables.len() - j,
    {
        let mut i: usize = 0;
        while i < j
            invariant
                i <= j < tables@.len(),
                views == tables@.map_values(|t: Vec<String>| strings_view(t)),
                forall|a: int, b: int| 0 <= a < b < j ==> !shares_name(#[trigger] views[a], #[trigger] views[b]),
                forall|a: int| 0 <= a < i ==> !shares_name(#[trigger] views[a], views[j as int]),
            decreases j - i,
        {
            if share_a_name(&tables[i], &tables[j]) {
                assert(shares_name(views[i as int], views[j as int]));
                return false;
            }
            i = i + 1;
        }
        j = j + 1;
    }
    true
}

} // verus!
