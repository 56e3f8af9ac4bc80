//! Naming rules, serde-style rename attributes, and a verified string codec
//! for enums whose variants are written as plain strings.
//!
//! The pipeline runs left to right: the attributes of an enum, already
//! parsed (`meta`), are read into renames, aliases and container rules
//! (`rename`, `alias`, `rename_all`, `rename_rule`); the declared variants
//! are validated (`input`); each direction resolves its names (`output`,
//! `output_ser`, `output_de`); and the resolved `codec::CodecModel`
//! encodes variants to strings and decodes strings to variants.
pub mod alias;
pub mod codec;
pub mod input;
pub mod meta;
pub mod output;
pub mod output_de;
pub mod output_ser;
pub mod rename;
pub mod rename_all;
pub mod rename_rule;
pub mod text;

pub use alias::Alias;
pub use codec::{build_codec_model, CodecModel, DecodeError, EncodeError};
pub use input::{BuildError, EnumDeriveInput, EnumVariant, Input};
pub use rename::{Rename, RenameIndependent};
pub use rename_all::{RenameAll, RenameAllIndependent};
pub use rename_rule::{ParseError, RenameRule};
