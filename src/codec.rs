//! The resolved string codec of an enum: the name each variant is written
//! as, the names each accepts, and the catch-all variant; with `encode` and
//! `decode` over it.
use vstd::prelude::*;

use crate::input::{
    input_error, validated_default, validated_variants, BuildError, DefaultVariant,
    EnumDeriveInput, Input, Variant,
};
use crate::output::{container_rule, default_name, SerdeEnumCategory};
use crate::output_de::{
    accepted_names, accepted_tables, all_names_distinct, contains_name, names_distinct,
    shares_name,
    InputWrapper as DeInputWrapper,
};
use crate::output_ser::{written_name, InputWrapper as SerInputWrapper};
use crate::rename_all::RenameAll;
use crate::text::{owned, strings_view};

verus! {

/// One normal variant, resolved.
#[derive(Debug)]
pub struct VariantCodec {
    pub ident: String,
    /// The name the variant is written as.
    pub ser_name: String,
    pub serializable: bool,
    /// The names the variant accepts when deserializing (none if it is not
    /// deserializable).
    pub de_names: Vec<String>,
    pub deserializable: bool,
}

/// The catch-all variant, resolved.
#[derive(Debug)]
pub struct FallbackCodec {
    pub ident: String,
    /// The name a unit catch-all variant is written as.
    pub name: String,
    /// The type of the value it holds, if it holds one.
    pub ty: Option<String>,
}

/// The codec of an enum. A variant is named by its position: the normal
/// variants by their index, the catch-all variant by the number of normal
/// variants.
#[derive(Debug)]
pub struct CodecModel {
    pub rename_all: Option<RenameAll>,
    pub variants: Vec<VariantCodec>,
    pub fallback: Option<FallbackCodec>,
}

#[derive(PartialEq, Eq, Structural, Debug, Clone, Copy)]
pub enum EncodeError {
    /// The variant at this position is left out of serializing.
    NotSerializable(usize),
}

#[derive(PartialEq, Eq, Debug)]
pub enum DecodeError {
    /// No name matches this input and there is no catch-all variant.
    NoMatchingVariant(String),
}

impl VariantCodec {
    pub open spec fn names(self) -> Seq<Seq<char>> {
        strings_view(self.de_names)
    }

    /// Whether decoding `s` may give this variant.
    pub open spec fn accepts(self, s: Seq<char>) -> bool {
        self.deserializable && self.names().contains(s)
    }

    /// This codec is the resolution of `v` under the container rule `ra`.
    pub open spec fn describes(self, ra: Option<RenameAll>, v: Variant) -> bool {
        &&& self.ident == v.ident
        &&& self.ser_name@ == written_name(ra, v)
        &&& self.serializable == !v.skip_serializing
        &&& self.names() == accepted_names(ra, v)
        &&& self.deserializable == !v.skip_deserializing
    }
}

/// The first variant that accepts `s`.
pub open spec fn first_accepting(vs: Seq<VariantCodec>, s: Seq<char>) -> Option<int>
    decreases vs.len(),
{
    if vs.len() == 0 {
        None
    } else {
        match first_accepting(vs.drop_last(), s) {
            Some(i) => Some(i),
            None => if vs.last().accepts(s) {
                Some(vs.len() - 1)
            } else {
                None
            },
        }
    }
}

impl FallbackCodec {
    /// This codec is the resolution of the catch-all variant `dv`.
    pub open spec fn describes(self, ra: Option<RenameAll>, dv: DefaultVariant) -> bool {
        &&& self.ident == dv.ident
        &&& self.ty == dv.ty
        &&& self.name@ == default_name(dv.ident@, container_rule(ra, SerdeEnumCategory::Ser))
    }
}

impl CodecModel {
    pub open spec fn tables(self) -> Seq<Seq<Seq<char>>> {
        self.variants@.map_values(|v: VariantCodec| v.names())
    }

    /// A model as `build_codec_model` gives it: no name is accepted by two
    /// variants.
    pub open spec fn wf(self) -> bool {
        names_distinct(self.tables())
    }

    /// The position of the variant that decoding `s` gives, if any: the
    /// first variant accepting `s`, else the catch-all variant.
    pub open spec fn decoded(self, s: Seq<char>) -> Option<int> {
        match first_accepting(self.variants@, s) {
            Some(i) => Some(i),
            None => if self.fallback is Some {
                Some(self.variants@.len() as int)
            } else {
                None
            },
        }
    }

    /// This model is the resolution of the validated variants `vs` and
    /// catch-all variant `dv` under the container rule `ra`.
    pub open spec fn models(
        self,
        ra: Option<RenameAll>,
        vs: Seq<Variant>,
        dv: Option<DefaultVariant>,
    ) -> bool {
        &&& self.rename_all == ra
        &&& self.variants@.len() == vs.len()
        &&& forall|i: int| 0 <= i < vs.len() ==> (#[trigger] self.variants@[i]).describes(ra, vs[i])
        &&& match dv {
            Some(d) => self.fallback is Some && self.fallback->Some_0.describes(ra, d),
            None => self.fallback is None,
        }
    }

    /// Whether `tag` names a variant of this model.
    pub open spec fn is_tag(self, tag: int) -> bool {
        0 <= tag < self.variants@.len() || (tag == self.variants@.len() && self.fallback is Some)
    }

    /// The text of the catch-all variant: the value it holds written as a
    /// string, or its name.
    pub open spec fn fallback_text(self, payload: Option<&str>) -> Seq<char> {
        match self.fallback->Some_0.ty {
            Some(_) => payload->Some_0@,
            None => self.fallback->Some_0.name@,
        }
    }
}

/// Resolves a validated enum into its codec. Fails, with
/// `DuplicateDeserializeName`, exactly when two variants accept a same name.
pub fn build_codec_model(input: Input) -> (r: Result<CodecModel, BuildError>)
    ensures
        match r {
            Ok(m) => {
                &&& names_distinct(accepted_tables(input.rename_all, input.variants@))
                &&& m.models(input.rename_all, input.variants@, input.default_variant)
                &&& m.wf()
            },
            Err(e) => e == BuildError::DuplicateDeserializeName && !names_distinct(
                accepted_tables(input.rename_all, input.variants@),
            ),
        },
{
    let ghost original = input;
    let de = DeInputWrapper(input);
    let tables = de.accepted_names();
    let input = de.0;
    let ser = SerInputWrapper(input);
    let written = ser.written_names();
    let fallback_name = ser.fallback_name();
    let input = ser.0;
    assert(input == original);
    let ghost ra = input.rename_all;
    let ghost vs = input.variants@;
    assert(tables@.map_values(|t: Vec<String>| strings_view(t)) =~= accepted_tables(ra, vs));
    if !all_names_distinct(&tables) {
        return Err(BuildError::DuplicateDeserializeName);
    }
    let Input { ident: _, rename_all, crate_str: _, variants, default_variant } = input;
    let mut variants = variants;
    let mut tables = tables;
    let mut written = written;
    let n = variants.len();
    let mut out: Vec<VariantCodec> = Vec::new();
    while variants.len() > 0
        invariant
            n == vs.len(),
            out@.len() + variants@.len() == n,
            variants@ == vs.skip(out@.len() as int),
            tables@.len() == variants@.len(),
            written@.len() == variants@.len(),
            forall|k: int|
                0 <= k < tables@.len() ==> strings_view(#[trigger] tables@[k]) == accepted_names(
                    ra,
                    variants@[k],
                ),
            forall|k: int|
                0 <= k < written@.len() ==> (#[trigger] written@[k])@ == written_name(
                    ra,
                    variants@[k],
                ),
            forall|k: int| 0 <= k < out@.len() ==> (#[trigger] out@[k]).describes(ra, vs[k]),
            rename_all == ra,
        decreases variants.len(),
    {
        let ghost k = out@.len() as int;
        let ghost old_variants = variants@;
        let ghost old_tables = tables@;
        let ghost old_written = written@;
        let variant = variants.remove(0);
        let de_names = tables.remove(0);
        let ser_name = written.remove(0);
        assert(variant == vs[k]);
        let Variant { ident, rename: _, alias_vec: _, skip_serializing, skip_deserializing } =
            variant;
        let codec = VariantCodec {
            ident,
            ser_name,
            serializable: !skip_serializing,
            de_names,
            deserializable: !skip_deserializing,
        };
        assert(codec.describes(ra, vs[k]));
        out.push(codec);
        proof {
            assert(variants@ =~= vs.skip(out@.len() as int));
            assert forall|m: int| 0 <= m < tables@.len() implies strings_view(
                #[trigger] tables@[m],
            ) == accepted_names(ra, variants@[m]) by {
                assert(tables@[m] == old_tables[m + 1]);
                assert(variants@[m] == old_variants[m + 1]);
            }
            assert forall|m: int| 0 <= m < written@.len() implies (#[trigger] written@[m])@
                == written_name(ra, variants@[m]) by {
                assert(written@[m] == old_written[m + 1]);
                assert(variants@[m] == old_variants[m + 1]);
            }
        }
    }
    let fallback = match default_variant {
        Some(dv) => {
            let DefaultVariant { ident, ty } = dv;
            let name = match fallback_name {
                Some(name) => name,
                None => String::new(),
            };
            Some(FallbackCodec { ident, name, ty })
        },
        None => None,
    };
    let model = CodecModel { rename_all, variants: out, fallback };
    assert(model.tables() =~= accepted_tables(ra, vs)) by {
        assert forall|k: int| 0 <= k < vs.len() implies model.tables()[k] == accepted_tables(
            ra,
            vs,
        )[k] by {
            assert(model.variants@[k].describes(ra, vs[k]));
        }
    }
    Ok(model)
}

proof fn lemma_first_accepting_step(vs: Seq<VariantCodec>, s: Seq<char>, i: int)
    requires
        0 <= i < vs.len(),
    ensures
        first_accepting(vs.take(i + 1), s) == match first_accepting(vs.take(i), s) {
            Some(j) => Some(j),
            None => if vs[i].accepts(s) {
                Some(i)
            } else {
                None
            },
        },
{
    assert(vs.take(i + 1).drop_last() =~= vs.take(i));
}

/// Once a prefix has an accepting variant, so has the whole sequence.
proof fn lemma_first_accepting_prefix(vs: Seq<VariantCodec>, s: Seq<char>, k: int)
    requires
        0 <= k <= vs.len(),
        first_accepting(vs.take(k), s) is Some,
    ensures
        first_accepting(vs, s) == first_accepting(vs.take(k), s),
    decreases vs.len() - k,
{
    if k == vs.len() {
        assert(vs.take(k) =~= vs);
    } else {
        assert(vs.drop_last().take(k) =~= vs.take(k));
        lemma_first_accepting_prefix(vs.drop_last(), s, k);
    }
}

/// The first accepting variant accepts, and comes no later than any
/// accepting variant.
proof fn lemma_first_accepting_least(vs: Seq<VariantCodec>, s: Seq<char>)
    ensures
        first_accepting(vs, s) matches Some(j) ==> (0 <= j < vs.len() && vs[j].accepts(s)),
        forall|i: int|
            0 <= i < vs.len() && (#[trigger] vs[i]).accepts(s) ==> (first_accepting(vs, s) matches Some(
                j,
            ) && j <= i),
    decreases vs.len(),
{
    if vs.len() > 0 {
        lemma_first_accepting_least(vs.drop_last(), s);
        assert forall|i: int| 0 <= i < vs.len() && (#[trigger] vs[i]).accepts(s) implies (first_accepting(
            vs,
            s,
        ) matches Some(j) && j <= i) by {
            if i < vs.len() - 1 {
                assert(vs.drop_last()[i] == vs[i]);
            }
        }
    }
}

impl CodecModel {
    /// The name the variant at `tag` is written as; fails for a variant
    /// left out of serializing. The catch-all variant is written as the
    /// value it holds (`payload`, already written as a string), or as its
    /// name if it holds none.
    pub fn encode(&self, tag: usize, payload: Option<&str>) -> (r: Result<String, EncodeError>)
        requires
            self.is_tag(tag as int),
            tag == self.variants@.len() && self.fallback->Some_0.ty is Some ==> payload is Some,
        ensures
            tag < self.variants@.len() ==> if self.variants@[tag as int].serializable {
                r is Ok && r->Ok_0@ == self.variants@[tag as int].ser_name@
            } else {
                r == Err::<String, EncodeError>(EncodeError::NotSerializable(tag))
            },
            tag == self.variants@.len() ==> r is Ok && r->Ok_0@ == self.fallback_text(payload),
    {
        if tag < self.variants.len() {
            let variant = &self.variants[tag];
            if variant.serializable {
                Ok(variant.ser_name.clone())
            } else {
                Err(EncodeError::NotSerializable(tag))
            }
        } else {
            Ok(self.fallback_string(payload))
        }
    }

    fn fallback_string(&self, payload: Option<&str>) -> (r: String)
        requires
            self.fallback is Some,
            self.fallback->Some_0.ty is Some ==> payload is Some,
        ensures
            r@ == self.fallback_text(payload),
    {
        match &self.fallback {
            Some(f) => match &f.ty {
                Some(_) => match payload {
                    Some(p) => owned(p),
                    None => String::new(),
                },
                None => f.name.clone(),
            },
            None => String::new(),
        }
    }

    /// How the variant at `tag` is displayed: the name it is written as,
    /// also for a variant left out of serializing; the catch-all variant as
    /// in `encode`.
    pub fn to_display_string(&self, tag: usize, payload: Option<&str>) -> (r: String)
        requires
            self.is_tag(tag as int),
            tag == self.variants@.len() && self.fallback->Some_0.ty is Some ==> payload is Some,
        ensures
            tag < self.variants@.len() ==> r@ == self.variants@[tag as int].ser_name@,
            tag == self.variants@.len() ==> r@ == self.fallback_text(payload),
    {
        if tag < self.variants.len() {
            self.variants[tag].ser_name.clone()
        } else {
            self.fallback_string(payload)
        }
    }

    /// The variant that `input` names, matched exactly against the names the
    /// variants accept in declaration order; failing that, the catch-all
    /// variant, with `input` to be read into the value it holds if it holds
    /// one.
    pub fn decode(&self, input: &str) -> (r: Result<(usize, Option<String>), DecodeError>)
        ensures
            match self.decoded(input@) {
                Some(i) => {
                    &&& r is Ok
                    &&& r->Ok_0.0 == i
                    &&& i < self.variants@.len() ==> r->Ok_0.1 is None
                    &&& i == self.variants@.len() ==> match self.fallback->Some_0.ty {
                        Some(_) => r->Ok_0.1 is Some && r->Ok_0.1->Some_0@ == input@,
                        None => r->Ok_0.1 is None,
                    }
                },
                None => r is Err && r->Err_0->NoMatchingVariant_0@ == input@,
            },
    {
        let n = self.variants.len();
        let mut i: usize = 0;
        while i < n
            invariant
                i <= n,
                n == self.variants@.len(),
                first_accepting(self.variants@.take(i as int), input@) is None,
            decreases n - i,
        {
            proof {
                lemma_first_accepting_step(self.variants@, input@, i as int);
            }
            let variant = &self.variants[i];
            if variant.deserializable && contains_name(&variant.de_names, input) {
                proof {
                    lemma_first_accepting_prefix(self.variants@, input@, i + 1);
                }
                return Ok((i, None));
            }
            i = i + 1;
        }
        proof {
            assert(self.variants@.take(n as int) =~= self.variants@);
        }
        match &self.fallback {
            Some(f) => match &f.ty {
                Some(_) => Ok((n, Some(owned(input)))),
                None => Ok((n, None)),
            },
            None => Err(DecodeError::NoMatchingVariant(owned(input))),
        }
    }
}

impl CodecModel {
    /// Validates a declared enum and resolves its codec: the checks of
    /// `Input::parse`, in their order, decide the error, among them that no
    /// two variants accept a same name.
    pub fn from_derive_input(derive_input: EnumDeriveInput) -> (r: Result<Self, BuildError>)
        ensures
            match input_error(derive_input) {
                Some(e) => r == Err::<CodecModel, BuildError>(e),
                None => {
                    let ra = derive_input.rename_all;
                    let vs = validated_variants(derive_input.variants@);
                    let dv = validated_default(derive_input.variants@);
                    &&& names_distinct(accepted_tables(ra, vs))
                    &&& r is Ok
                    &&& r->Ok_0.models(ra, vs, dv)
                    &&& r->Ok_0.wf()
                },
            },
    {
        match Input::parse(derive_input) {
            Ok(input) => build_codec_model(input),
            Err(e) => Err(e),
        }
    }
}

/// Two variants that accept a same name make the build fail, in
/// `Input::parse`, `build_codec_model` and `CodecModel::from_derive_input`
/// alike.
pub proof fn lemma_shared_name_rejected(
    ra: Option<RenameAll>,
    vs: Seq<Variant>,
    i: int,
    j: int,
    s: Seq<char>,
)
    requires
        0 <= i < j < vs.len(),
        accepted_names(ra, vs[i]).contains(s),
        accepted_names(ra, vs[j]).contains(s),
    ensures
        !names_distinct(accepted_tables(ra, vs)),
{
    let t = accepted_tables(ra, vs);
    assert(shares_name(t[i], t[j]));
}

/// Decoding the name a variant is written as gives that variant back, for
/// a variant that is both serialized and deserialized and accepts the name
/// it is written as.
pub proof fn lemma_decode_encoded(m: CodecModel, i: int)
    requires
        m.wf(),
        0 <= i < m.variants@.len(),
        m.variants@[i].serializable,
        m.variants@[i].deserializable,
        m.variants@[i].names().contains(m.variants@[i].ser_name@),
    ensures
        m.decoded(m.variants@[i].ser_name@) == Some(i),
{
    let s = m.variants@[i].ser_name@;
    lemma_first_accepting_least(m.variants@, s);
    assert(m.variants@[i].accepts(s));
    let j = first_accepting(m.variants@, s)->Some_0;
    if j != i {
        assert(m.tables()[j] == m.variants@[j].names());
        assert(m.tables()[i] == m.variants@[i].names());
        assert(shares_name(m.tables()[j], m.tables()[i]));
    }
}

/// A variant that is not deserializable is what no input decodes to.
pub proof fn lemma_undeserializable_unreachable(m: CodecModel, i: int)
    requires
        0 <= i < m.variants@.len(),
        !m.variants@[i].deserializable,
    ensures
        forall|s: Seq<char>| #[trigger] m.decoded(s) != Some(i),
{
    assert forall|s: Seq<char>| #[trigger] m.decoded(s) != Some(i) by {
        lemma_first_accepting_least(m.variants@, s);
    }
}

/// A variant marked `skip` is in neither table: it has no name accepted
/// when deserializing and is not serializable.
pub proof fn lemma_skipped_variant_absent(ra: Option<RenameAll>, v: Variant)
    requires
        v.skip_serializing,
        v.skip_deserializing,
    ensures
        accepted_names(ra, v).len() == 0,
{
}

} // verus!
