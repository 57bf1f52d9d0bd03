//! What each variant contributes to the parts of an emitted group or
//! enumeration.

use crate::fields_parse::{doc_lines, emit_docs};
use crate::parsing::{
    GroupVariant, GroupVariantView, RawVariant, RawVariantView, Variant, VariantView,
};
use crate::text::{concat_all, decimal, u32_to_decimal};
use vstd::prelude::*;

verus! {

/// The parts of an emitted group that are made variant by variant.
#[derive(Debug, Clone, Copy, PartialEq, Eq, Structural)]
pub enum GroupPart {
    /// the variants of the reader
    ParseVariants,
    /// the arms of the dispatch on the discriminant
    ReadArms,
    /// the variants of the owned form
    CompileVariants,
    /// the arms that write the owned form
    WriteArms,
    /// the arms that validate the owned form
    ValidateArms,
}

/// The parts of an emitted enumeration that are made value by value.
#[derive(Debug, Clone, Copy, PartialEq, Eq, Structural)]
pub enum ValuePart {
    /// the variants of a raw enum
    EnumValues,
    /// the arms that tell the raw values apart
    NewArms,
    /// the constants of a flag set
    FlagConsts,
}

/// The arm that hands an owned variant on to `call`.
pub open spec fn forward_arm(name: Seq<char>, call: Seq<char>) -> Seq<char> {
    "Self::"@ + name + "(item) => item."@ + call + ",\n"@
}

impl VariantView {
    /// What the variant gives to `part` of a format group.
    pub open spec fn piece(self, part: GroupPart) -> Seq<char> {
        match part {
            GroupPart::ParseVariants => doc_lines(self.docs) + self.name + "("@ + self.typ
                + "<'a>),\n"@,
            GroupPart::ReadArms => self.typ + "Marker::FORMAT => Ok(Self::"@ + self.name
                + "(FontRead::read(data)?)),\n"@,
            GroupPart::CompileVariants => self.name + "("@ + self.typ + "),\n"@,
            GroupPart::WriteArms => forward_arm(self.name, "write_into(writer)"@),
            GroupPart::ValidateArms => forward_arm(self.name, "validate_impl(ctx)"@),
        }
    }
}

impl GroupVariantView {
    /// What the variant gives to `part` of a generic group over the
    /// header `inner`.
    pub open spec fn piece(self, part: GroupPart, inner: Seq<char>) -> Seq<char> {
        match part {
            GroupPart::ParseVariants => self.name + "("@ + inner + "<'a, "@ + self.typ
                + "<'a>>),\n"@,
            GroupPart::ReadArms => decimal(self.type_id as nat) + " => Ok(Self::"@ + self.name
                + "(untyped.into_concrete())),\n"@,
            GroupPart::CompileVariants => self.name + "("@ + inner + "<"@ + self.typ + ">),\n"@,
            GroupPart::WriteArms => forward_arm(self.name, "write_into(writer)"@),
            GroupPart::ValidateArms => forward_arm(self.name, "validate_impl(ctx)"@),
        }
    }
}

impl RawVariantView {
    /// What the value gives to `part`.
    pub open spec fn piece(self, part: ValuePart) -> Seq<char> {
        match part {
            ValuePart::EnumValues => doc_lines(self.docs) + self.name + " = "@ + decimal(
                self.value as nat,
            ) + ",\n"@,
            ValuePart::NewArms => decimal(self.value as nat) + " => Self::"@ + self.name + ",\n"@,
            ValuePart::FlagConsts => doc_lines(self.docs) + "pub const "@ + self.name
                + ": Self = Self { bits: "@ + decimal(self.value as nat) + " };\n"@,
        }
    }
}

/// `part` of a format group as its variants make it.
pub open spec fn format_part(variants: Seq<VariantView>, part: GroupPart) -> Seq<char> {
    variants.map_values(|v: VariantView| v.piece(part)).flatten()
}

/// `part` of a generic group as its variants make it.
pub open spec fn group_part(variants: Seq<GroupVariantView>, part: GroupPart, inner: Seq<char>) -> Seq<
    char,
> {
    variants.map_values(|v: GroupVariantView| v.piece(part, inner)).flatten()
}

/// `part` of an enumeration as its values make it.
pub open spec fn value_part(variants: Seq<RawVariantView>, part: ValuePart) -> Seq<char> {
    variants.map_values(|v: RawVariantView| v.piece(part)).flatten()
}

fn forward_arm_text(name: &str, call: &str) -> (out: String)
    ensures
        out@ == forward_arm(name@, call@),
{
    String::from_str("Self::").concat(name).concat("(item) => item.").concat(call).concat(",\n")
}

impl Variant {
    /// What the variant gives to `part` of a format group.
    pub fn piece(&self, part: GroupPart) -> (out: String)
        ensures
            out@ == self@.piece(part),
    {
        match part {
            GroupPart::ParseVariants => emit_docs(&self.docs).concat(self.name.as_str()).concat(
                "(",
            ).concat(self.typ.as_str()).concat("<'a>),\n"),
            GroupPart::ReadArms => String::from_str(self.typ.as_str()).concat(
                "Marker::FORMAT => Ok(Self::",
            ).concat(self.name.as_str()).concat("(FontRead::read(data)?)),\n"),
            GroupPart::CompileVariants => String::from_str(self.name.as_str()).concat("(").concat(
                self.typ.as_str(),
            ).concat("),\n"),
            GroupPart::WriteArms => forward_arm_text(self.name.as_str(), "write_into(writer)"),
            GroupPart::ValidateArms => forward_arm_text(self.name.as_str(), "validate_impl(ctx)"),
        }
    }
}

impl GroupVariant {
    /// What the variant gives to `part` of a generic group.
    pub fn piece(&self, part: GroupPart, inner: &str) -> (out: String)
        ensures
            out@ == self@.piece(part, inner@),
    {
        match part {
            GroupPart::ParseVariants => String::from_str(self.name.as_str()).concat("(").concat(
                inner,
            ).concat("<'a, ").concat(self.typ.as_str()).concat("<'a>>),\n"),
            GroupPart::ReadArms => u32_to_decimal(self.type_id).concat(" => Ok(Self::").concat(
                self.name.as_str(),
            ).concat("(untyped.into_concrete())),\n"),
            GroupPart::CompileVariants => String::from_str(self.name.as_str()).concat("(").concat(
                inner,
            ).concat("<").concat(self.typ.as_str()).concat(">),\n"),
            GroupPart::WriteArms => forward_arm_text(self.name.as_str(), "write_into(writer)"),
            GroupPart::ValidateArms => forward_arm_text(self.name.as_str(), "validate_impl(ctx)"),
        }
    }
}

impl RawVariant {
    /// What the value gives to `part`.
    pub fn piece(&self, part: ValuePart) -> (out: String)
        ensures
            out@ == self@.piece(part),
    {
        let value = u32_to_decimal(self.value);
        match part {
            ValuePart::EnumValues => emit_docs(&self.docs).concat(self.name.as_str()).concat(
                " = ",
            ).concat(value.as_str()).concat(",\n"),
            ValuePart::NewArms => value.concat(" => Self::").concat(self.name.as_str()).concat(
                ",\n",
            ),
            ValuePart::FlagConsts => emit_docs(&self.docs).concat("pub const ").concat(
                self.name.as_str(),
            ).concat(": Self = Self { bits: ").concat(value.as_str()).concat(" };\n"),
        }
    }
}

/// `part` of a format group as its variants make it.
pub fn emit_format_part(variants: &Vec<Variant>, part: GroupPart) -> (out: String)
    ensures
        out@ == format_part(variants.deep_view(), part),
{
    let mut pieces: Vec<String> = Vec::new();
    let ghost piece = |v: VariantView| v.piece(part);
    let mut i: usize = 0;
    while i < variants.len()
        invariant
            i <= variants.len(),
            piece == |v: VariantView| v.piece(part),
            pieces.deep_view() == variants.deep_view().take(i as int).map_values(piece),
        decreases variants.len() - i,
    {
        let ghost before = pieces.deep_view();
        let text = variants[i].piece(part);
        pieces.push(text);
        assert(pieces.deep_view() =~= before.push(text@));
        assert(variants.deep_view().take(i + 1).map_values(piece) =~= before.push(text@));
        i += 1;
    }
    assert(variants.deep_view().take(i as int) =~= variants.deep_view());
    concat_all(&pieces)
}

/// `part` of a generic group as its variants make it.
pub fn emit_group_part(variants: &Vec<GroupVariant>, part: GroupPart, inner: &str) -> (out: String)
    ensures
        out@ == group_part(variants.deep_view(), part, inner@),
{
    let mut pieces: Vec<String> = Vec::new();
    let ghost piece = |v: GroupVariantView| v.piece(part, inner@);
    let mut i: usize = 0;
    while i < variants.len()
        invariant
            i <= variants.len(),
            piece == |v: GroupVariantView| v.piece(part, inner@),
            pieces.deep_view() == variants.deep_view().take(i as int).map_values(piece),
        decreases variants.len() - i,
    {
        let ghost before = pieces.deep_view();
        let text = variants[i].piece(part, inner);
        pieces.push(text);
        assert(pieces.deep_view() =~= before.push(text@));
        assert(variants.deep_view().take(i + 1).map_values(piece) =~= before.push(text@));
        i += 1;
    }
    assert(variants.deep_view().take(i as int) =~= variants.deep_view());
    concat_all(&pieces)
}

/// `part` of an enumeration as its values make it.
pub fn emit_value_part(variants: &Vec<RawVariant>, part: ValuePart) -> (out: String)
    ensures
        out@ == value_part(variants.deep_view(), part),
{
    let mut pieces: Vec<String> = Vec::new();
    let ghost piece = |v: RawVariantView| v.piece(part);
    let mut i: usize = 0;
    while i < variants.len()
        invariant
            i <= variants.len(),
            piece == |v: RawVariantView| v.piece(part),
            pieces.deep_view() == variants.deep_view().take(i as int).map_values(piece),
        decreases variants.len() - i,
    {
        let ghost before = pieces.deep_view();
        let text = variants[i].piece(part);
        pieces.push(text);
        assert(pieces.deep_view() =~= before.push(text@));
        assert(variants.deep_view().take(i + 1).map_values(piece) =~= before.push(text@));
        i += 1;
    }
    assert(variants.deep_view().take(i as int) =~= variants.deep_view());
    concat_all(&pieces)
}

} // verus!
