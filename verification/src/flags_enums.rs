//! What is emitted for raw enums and flag sets.

use crate::fields_parse::{doc_lines, emit_docs};
use crate::parsing::{BitFlags, RawEnum, ScalarItemView};
use crate::variants::{ValuePart, emit_value_part, value_part};
use vstd::prelude::*;

verus! {

impl ScalarItemView {
    /// What the parse module holds for a raw enum: one variant for each
    /// named value and one for every other value, and the function
    /// that tells the values apart.
    pub open spec fn raw_enum(self) -> Seq<char> {
        doc_lines(self.docs) + "#[derive(Clone, Copy, Debug, PartialEq, Eq)]\n#[repr("@ + self.typ
            + ")]\npub enum "@ + self.name + " {\n"@ + value_part(
            self.variants,
            ValuePart::EnumValues,
        ) + "#[doc(hidden)]\nUnknown,\n}\n\n"@ + "impl "@ + self.name + " {\n"@
            + "pub fn new(raw: "@ + self.typ + ") -> Self {\nmatch raw {\n"@ + value_part(
            self.variants,
            ValuePart::NewArms,
        ) + "_ => Self::Unknown,\n}\n}\n}\n\n"@
    }

    /// What the parse module holds for a flag set: the bits as they were
    /// read, and one constant for each named bit.
    pub open spec fn flags(self) -> Seq<char> {
        doc_lines(self.docs) + "#[derive(Clone, Copy, Debug, PartialEq, Eq)]\npub struct "@
            + self.name + " {\nbits: "@ + self.typ + ",\n}\n\n"@ + "impl "@ + self.name + " {\n"@
            + value_part(self.variants, ValuePart::FlagConsts) + "pub fn from_bits(bits: "@
            + self.typ + ") -> Self {\nSelf { bits }\n}\n"@ + "pub fn bits(&self) -> "@ + self.typ
            + " {\nself.bits\n}\n}\n\n"@
    }
}

/// What the parse module holds for a raw enum.
pub fn generate_raw_enum(item: &RawEnum) -> (out: String)
    ensures
        out@ == item@.raw_enum(),
{
    let values = emit_value_part(&item.variants, ValuePart::EnumValues);
    let arms = emit_value_part(&item.variants, ValuePart::NewArms);
    emit_docs(&item.docs).concat("#[derive(Clone, Copy, Debug, PartialEq, Eq)]\n#[repr(").concat(
        item.typ.as_str(),
    ).concat(")]\npub enum ").concat(item.name.as_str()).concat(" {\n").concat(
        values.as_str(),
    ).concat("#[doc(hidden)]\nUnknown,\n}\n\n").concat("impl ").concat(item.name.as_str()).concat(
        " {\n",
    ).concat("pub fn new(raw: ").concat(item.typ.as_str()).concat(
        ") -> Self {\nmatch raw {\n",
    ).concat(arms.as_str()).concat("_ => Self::Unknown,\n}\n}\n}\n\n")
}

/// What the parse module holds for a flag set.
pub fn generate_flags(item: &BitFlags) -> (out: String)
    ensures
        out@ == item@.flags(),
{
    let consts = emit_value_part(&item.variants, ValuePart::FlagConsts);
    emit_docs(&item.docs).concat(
        "#[derive(Clone, Copy, Debug, PartialEq, Eq)]\npub struct ",
    ).concat(item.name.as_str()).concat(" {\nbits: ").concat(item.typ.as_str()).concat(
        ",\n}\n\n",
    ).concat("impl ").concat(item.name.as_str()).concat(" {\n").concat(consts.as_str()).concat(
        "pub fn from_bits(bits: ",
    ).concat(item.typ.as_str()).concat(") -> Self {\nSelf { bits }\n}\n").concat(
        "pub fn bits(&self) -> ",
    ).concat(item.typ.as_str()).concat(" {\nself.bits\n}\n}\n\n")
}

/// What the compile module holds for a raw enum: nothing, as it takes
/// the type from the parse module.
pub fn generate_raw_enum_compile(item: &RawEnum) -> (out: String)
    ensures
        out@ == ""@,
{
    String::from_str("")
}

/// What the compile module holds for a flag set: nothing, as it takes
/// the type from the parse module.
pub fn generate_flags_compile(item: &BitFlags) -> (out: String)
    ensures
        out@ == ""@,
{
    String::from_str("")
}

} // verus!
