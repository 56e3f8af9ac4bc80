//! The variants of an enum as declared, and their validation into the
//! normal variants and the optional catch-all (`#[serde(other)]`) variant.
use vstd::prelude::*;

use crate::alias::Alias;
use crate::output_de::{
    accepted_tables, all_names_distinct, names_distinct, InputWrapper as DeInputWrapper,
};
use crate::rename::Rename;
use crate::rename_all::RenameAll;

verus! {

/// The fields a variant is declared with; each type is kept as written.
#[derive(PartialEq, Eq, Debug)]
pub enum Fields {
    Unit,
    Tuple(Vec<String>),
    Named(Vec<String>),
}

/// One declared variant with its attributes.
#[derive(PartialEq, Eq, Debug)]
pub struct EnumVariant {
    pub ident: String,
    pub fields: Fields,
    pub rename: Option<Rename>,
    pub alias_vec: Vec<Alias>,
    pub skip: Option<bool>,
    pub skip_serializing: Option<bool>,
    pub skip_deserializing: Option<bool>,
    /// Marked `#[serde(other)]`: the catch-all variant.
    pub is_other: bool,
}

impl EnumVariant {
    /// A variant is the catch-all one when the `other` attribute is present.
    pub fn make_is_other(v: Option<()>) -> (r: bool)
        ensures
            r == v is Some,
    {
        v.is_some()
    }
}

/// An enum as declared, with its container attributes.
#[derive(PartialEq, Eq, Debug)]
pub struct EnumDeriveInput {
    pub ident: String,
    /// Whether the enum has generic parameters or a `where` clause.
    pub generic: bool,
    pub rename_all: Option<RenameAll>,
    /// The path given by `#[serde(crate = "...")]`.
    pub crate_: Option<String>,
    /// The variants in declaration order.
    pub variants: Vec<EnumVariant>,
}

/// Why an enum cannot be given a string codec.
#[derive(PartialEq, Eq, Structural, Debug, Clone, Copy)]
pub enum BuildError {
    /// No variant but the catch-all one.
    EmptyEnum,
    /// More than one catch-all variant.
    MultipleFallbackVariants,
    /// The one catch-all variant is not the last.
    FallbackNotLast,
    /// The catch-all variant has fields other than none or exactly one
    /// unnamed one.
    FallbackArityError,
    /// A variant other than the catch-all one has fields.
    NotUnitVariant,
    /// The enum has generic parameters.
    GenericEnum,
    /// Two variants accept the same name when deserializing.
    DuplicateDeserializeName,
}

/// A normal (unit) variant, validated.
#[derive(PartialEq, Eq, Debug)]
pub struct Variant {
    pub ident: String,
    pub rename: Option<Rename>,
    pub alias_vec: Option<Vec<Alias>>,
    /// Left out when serializing (`skip` or `skip_serializing`).
    pub skip_serializing: bool,
    /// Left out when deserializing (`skip` or `skip_deserializing`).
    pub skip_deserializing: bool,
}

/// The catch-all variant: unit, or holding one value of type `ty`.
#[derive(PartialEq, Eq, Debug)]
pub struct DefaultVariant {
    pub ident: String,
    pub ty: Option<String>,
}

/// A validated enum.
#[derive(PartialEq, Eq, Debug)]
pub struct Input {
    pub ident: String,
    pub rename_all: Option<RenameAll>,
    pub crate_str: Option<String>,
    pub variants: Vec<Variant>,
    pub default_variant: Option<DefaultVariant>,
}

/// The number of catch-all variants.
pub open spec fn fallback_count(vs: Seq<EnumVariant>) -> nat
    decreases vs.len(),
{
    if vs.len() == 0 {
        0
    } else {
        fallback_count(vs.drop_last()) + if vs.last().is_other {
            1nat
        } else {
            0nat
        }
    }
}

pub open spec fn has_fallback_last(vs: Seq<EnumVariant>) -> bool {
    vs.len() > 0 && vs.last().is_other
}

/// The variants other than a catch-all one at the end.
pub open spec fn normal_part(vs: Seq<EnumVariant>) -> Seq<EnumVariant> {
    if has_fallback_last(vs) {
        vs.drop_last()
    } else {
        vs
    }
}

pub open spec fn is_unit(ev: EnumVariant) -> bool {
    ev.fields is Unit
}

/// A catch-all variant has no fields or exactly one unnamed one.
pub open spec fn fallback_arity_ok(ev: EnumVariant) -> bool {
    match ev.fields {
        Fields::Unit => true,
        Fields::Tuple(ts) => ts@.len() == 1,
        Fields::Named(_) => false,
    }
}

/// What is wrong with a declared enum, checked in this order: the number
/// and place of catch-all variants, that a normal variant exists, that
/// normal variants are unit, that no two variants accept a same name when
/// deserializing, the catch-all variant's fields, generics.
pub open spec fn input_error(d: EnumDeriveInput) -> Option<BuildError> {
    let vs = d.variants@;
    let normals = normal_part(vs);
    if fallback_count(vs) > 1 {
        Some(BuildError::MultipleFallbackVariants)
    } else if fallback_count(vs) == 1 && !vs.last().is_other {
        Some(BuildError::FallbackNotLast)
    } else if normals.len() == 0 {
        Some(BuildError::EmptyEnum)
    } else if exists|i: int| 0 <= i < normals.len() && !is_unit(#[trigger] normals[i]) {
        Some(BuildError::NotUnitVariant)
    } else if !names_distinct(accepted_tables(d.rename_all, validated_variants(vs))) {
        Some(BuildError::DuplicateDeserializeName)
    } else if has_fallback_last(vs) && !fallback_arity_ok(vs.last()) {
        Some(BuildError::FallbackArityError)
    } else if d.generic {
        Some(BuildError::GenericEnum)
    } else {
        None
    }
}

/// The validated form of a unit variant.
pub open spec fn variant_of(ev: EnumVariant) -> Variant {
    Variant {
        ident: ev.ident,
        rename: ev.rename,
        alias_vec: if ev.alias_vec@.len() == 0 {
            None
        } else {
            Some(ev.alias_vec)
        },
        skip_serializing: ev.skip == Some(true) || ev.skip_serializing == Some(true),
        skip_deserializing: ev.skip == Some(true) || ev.skip_deserializing == Some(true),
    }
}

/// The validated form of a catch-all variant with valid fields.
pub open spec fn default_variant_of(ev: EnumVariant) -> DefaultVariant {
    DefaultVariant {
        ident: ev.ident,
        ty: match ev.fields {
            Fields::Tuple(ts) => Some(ts@[0]),
            _ => None,
        },
    }
}

/// The validated normal variants of a declaration.
pub open spec fn validated_variants(vs: Seq<EnumVariant>) -> Seq<Variant> {
    normal_part(vs).map_values(|ev: EnumVariant| variant_of(ev))
}

/// The validated catch-all variant of a declaration, if it has one.
pub open spec fn validated_default(vs: Seq<EnumVariant>) -> Option<DefaultVariant> {
    if has_fallback_last(vs) {
        Some(default_variant_of(vs.last()))
    } else {
        None
    }
}

pub fn parse_variant(enum_variant: EnumVariant) -> (r: Result<Variant, BuildError>)
    ensures
        r == if is_unit(enum_variant) {
            Ok::<Variant, BuildError>(variant_of(enum_variant))
        } else {
            Err::<Variant, BuildError>(BuildError::NotUnitVariant)
        },
{
    match enum_variant.fields {
        Fields::Unit => {},
        _ => {
            return Err(BuildError::NotUnitVariant);
        },
    }
    let skip = match enum_variant.skip {
        Some(b) => b,
        None => false,
    };
    let skip_serializing = match enum_variant.skip_serializing {
        Some(b) => b,
        None => false,
    };
    let skip_deserializing = match enum_variant.skip_deserializing {
        Some(b) => b,
        None => false,
    };
    let alias_vec = if enum_variant.alias_vec.len() == 0 {
        None
    } else {
        Some(enum_variant.alias_vec)
    };
    Ok(
        Variant {
            ident: enum_variant.ident,
            rename: enum_variant.rename,
            alias_vec,
            skip_serializing: skip || skip_serializing,
            skip_deserializing: skip || skip_deserializing,
        },
    )
}

pub fn parse_default_variant(enum_variant: EnumVariant) -> (r: Result<DefaultVariant, BuildError>)
    ensures
        r == if fallback_arity_ok(enum_variant) {
            Ok::<DefaultVariant, BuildError>(default_variant_of(enum_variant))
        } else {
            Err::<DefaultVariant, BuildError>(BuildError::FallbackArityError)
        },
{
    match enum_variant.fields {
        Fields::Unit => Ok(DefaultVariant { ident: enum_variant.ident, ty: None }),
        Fields::Tuple(mut types) => {
            if types.len() != 1 {
                return Err(BuildError::FallbackArityError);
            }
            let ty = types.pop().unwrap();
            Ok(DefaultVariant { ident: enum_variant.ident, ty: Some(ty) })
        },
        Fields::Named(_) => Err(BuildError::FallbackArityError),
    }
}

proof fn lemma_fallback_count_bound(vs: Seq<EnumVariant>)
    ensures
        fallback_count(vs) <= vs.len(),
        fallback_count(vs) == 0 ==> forall|i: int| 0 <= i < vs.len() ==> !(#[trigger] vs[i]).is_other,
    decreases vs.len(),
{
    if vs.len() > 0 {
        lemma_fallback_count_bound(vs.drop_last());
        if fallback_count(vs) == 0 {
            assert forall|i: int| 0 <= i < vs.len() implies !(#[trigger] vs[i]).is_other by {
                if i < vs.len() - 1 {
                    assert(vs[i] == vs.drop_last()[i]);
                }
            }
        }
    }
}

/// With exactly one catch-all variant and it last, the others are normal.
proof fn lemma_single_fallback_last(vs: Seq<EnumVariant>)
    requires
        fallback_count(vs) == 1,
        vs.len() > 0,
        vs.last().is_other,
    ensures
        fallback_count(vs.drop_last()) == 0,
{
}

/// An enum whose one catch-all variant is not the last is rejected with
/// `FallbackNotLast`.
pub proof fn lemma_fallback_not_last_rejected(d: EnumDeriveInput, k: int)
    requires
        fallback_count(d.variants@) == 1,
        0 <= k < d.variants@.len() - 1,
        d.variants@[k].is_other,
    ensures
        input_error(d) == Some(BuildError::FallbackNotLast),
{
    let vs = d.variants@;
    if vs.last().is_other {
        lemma_fallback_count_bound(vs.drop_last());
        assert(vs.drop_last()[k] == vs[k]);
    }
}

/// An enum whose only variant is a catch-all one is rejected with
/// `EmptyEnum`.
pub proof fn lemma_only_fallback_rejected(d: EnumDeriveInput)
    requires
        d.variants@.len() == 1,
        d.variants@[0].is_other,
    ensures
        input_error(d) == Some(BuildError::EmptyEnum),
{
    let vs = d.variants@;
    assert(vs.drop_last().len() == 0);
    assert(fallback_count(vs.drop_last()) == 0);
}

impl Input {
    /// Validates a declared enum.
    pub fn parse(derive_input: EnumDeriveInput) -> (r: Result<Self, BuildError>)
        ensures
            match r {
                Err(e) => input_error(derive_input) == Some(e),
                Ok(input) => {
                    &&& input_error(derive_input) is None
                    &&& input.ident == derive_input.ident
                    &&& input.rename_all == derive_input.rename_all
                    &&& input.crate_str == derive_input.crate_
                    &&& input.variants@ == validated_variants(derive_input.variants@)
                    &&& names_distinct(
                        accepted_tables(derive_input.rename_all, input.variants@),
                    )
                    &&& input.default_variant == validated_default(derive_input.variants@)
                },
            },
    {
        let ghost d = derive_input;
        let ghost vs = derive_input.variants@;
        let EnumDeriveInput { ident, generic, rename_all, crate_, variants } = derive_input;
        let mut variants = variants;
        let n = variants.len();
        let mut count: usize = 0;
        let mut i: usize = 0;
        while i < n
            invariant
                i <= n,
                n == vs.len(),
                variants@ == vs,
                count == fallback_count(vs.take(i as int)),
                count <= i,
            decreases n - i,
        {
            proof {
                assert(vs.take(i + 1).drop_last() =~= vs.take(i as int));
            }
            if variants[i].is_other {
                count = count + 1;
            }
            i = i + 1;
        }
        proof {
            assert(vs.take(n as int) =~= vs);
        }
        if count > 1 {
            return Err(BuildError::MultipleFallbackVariants);
        }
        if count == 1 && !variants[n - 1].is_other {
            return Err(BuildError::FallbackNotLast);
        }
        proof {
            if count == 1 {
                lemma_single_fallback_last(vs);
                lemma_fallback_count_bound(vs.drop_last());
            } else {
                lemma_fallback_count_bound(vs);
            }
        }
        if n - count == 0 {
            return Err(BuildError::EmptyEnum);
        }
        let last = if count == 1 {
            variants.pop()
        } else {
            None
        };
        let ghost normals = normal_part(vs);
        assert(variants@ == normals);
        let nn = variants.len();
        let mut out: Vec<Variant> = Vec::new();
        while variants.len() > 0
            invariant
                nn == normals.len(),
                vs == d.variants@,
                d == derive_input,
                normals == normal_part(vs),
                normals.len() > 0,
                count == fallback_count(vs),
                count <= 1,
                count == 1 ==> vs.last().is_other,
                has_fallback_last(vs) <==> count == 1,
                last == if count == 1 {
                    Some(vs.last())
                } else {
                    None::<EnumVariant>
                },
                generic == d.generic,
                ident == d.ident,
                rename_all == d.rename_all,
                crate_ == d.crate_,
                out@.len() + variants@.len() == nn,
                variants@ == normals.skip(out@.len() as int),
                forall|k: int| 0 <= k < out@.len() ==> out@[k] == variant_of(#[trigger] normals[k]),
                forall|k: int| 0 <= k < out@.len() ==> is_unit(#[trigger] normals[k]),
            decreases variants.len(),
        {
            let ghost k = out@.len() as int;
            let ev = variants.remove(0);
            assert(ev == normals[k]);
            match parse_variant(ev) {
                Ok(v) => {
                    out.push(v);
                },
                Err(e) => {
                    assert(!is_unit(normals[k]));
                    return Err(e);
                },
            }
            assert(variants@ =~= normals.skip(out@.len() as int));
        }
        assert(out@ =~= validated_variants(vs));
        let de = DeInputWrapper(
            Input { ident, rename_all, crate_str: crate_, variants: out, default_variant: None },
        );
        let tables = de.accepted_names();
        let Input { ident, rename_all, crate_str: crate_, variants: out, default_variant: _ } = de.0;
        assert(tables@.map_values(|t: Vec<String>| crate::text::strings_view(t)) =~= accepted_tables(
            rename_all,
            out@,
        ));
        if !all_names_distinct(&tables) {
            return Err(BuildError::DuplicateDeserializeName);
        }
        let default_variant = match last {
            Some(ev) => match parse_default_variant(ev) {
                Ok(dv) => Some(dv),
                Err(e) => {
                    return Err(e);
                },
            },
            None => None,
        };
        if generic {
            return Err(BuildError::GenericEnum);
        }
        Ok(
            Input {
                ident,
                rename_all,
                crate_str: crate_,
                variants: out,
                default_variant,
            },
        )
    }
}

} // verus!
