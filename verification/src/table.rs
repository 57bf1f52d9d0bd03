//! What is emitted for a table, a format group and a generic group.

use crate::fields_parse::{doc_lines, emit_docs};
use crate::parsing::{
    FieldType, FieldTypeView, GenericGroup, GenericGroupView, Table, TableFormat, TableFormatView,
    TableView,
};
use crate::pieces::Part;
use crate::record::{args_pattern, args_type};
use crate::text::{contains_name, decimal, u32_to_decimal};
use crate::variants::{GroupPart, emit_format_part, emit_group_part, format_part, group_part};
use vstd::prelude::*;

verus! {

impl TableView {
    /// The shape of the table: what the validator learns of the fields
    /// whose place the schema alone does not give.
    pub open spec fn shape_decl(self) -> Seq<char> {
        doc_lines(self.docs) + "#[derive(Debug, Clone, Copy)]\n#[doc(hidden)]\npub struct "@
            + self.name + "Marker {\n"@ + self.fields.part(Part::ShapeFields) + "}\n\n"@
    }

    /// The functions of the shape that give the byte range of each
    /// field.
    pub open spec fn byte_ranges(self) -> Seq<char> {
        "impl "@ + self.name + "Marker {\n"@ + self.fields.part(Part::ByteRanges) + "}\n\n"@
    }

    /// The discriminant of the table in a format group: the literal that
    /// its leading scalar has to hold, where the schema gives one.
    pub open spec fn discriminant(self) -> Option<(Seq<char>, u32)> {
        if self.fields.fields.len() > 0 {
            match (self.fields.fields[0].typ, self.fields.fields[0].attrs.format) {
                (FieldTypeView::Scalar { typ }, Some(format)) => Some((typ, format)),
                _ => None,
            }
        } else {
            None
        }
    }

    /// The discriminant of the table in a format group as the analyzer
    /// sees it, with its type, given the names of the raw enums and
    /// flag sets of the schema, which are scalars too.
    pub open spec fn discriminant_among(self, scalars: Seq<Seq<char>>) -> Option<(Seq<char>, u32)> {
        if self.fields.fields.len() > 0 {
            let first = self.fields.fields[0];
            match first.attrs.format {
                Some(format) => if first.typ.counts_as_scalar(scalars) {
                    Some((first.typ.cooked_type(), format))
                } else {
                    None
                },
                None => None,
            }
        } else {
            None
        }
    }

    /// The constant that holds the discriminant of the table.
    pub open spec fn format_const(self) -> Seq<char> {
        match self.discriminant() {
            Some((typ, format)) => "impl Format<"@ + typ + "> for "@ + self.name + "Marker {\n"@
                + "const FORMAT: "@ + typ + " = "@ + decimal(format as nat) + ";\n}\n\n"@,
            None => ""@,
        }
    }

    /// The steps of the validator and the shape that it hands over.
    pub open spec fn validation_body(self) -> Seq<char> {
        "let mut cursor = data.cursor();\n"@ + self.fields.part(Part::Validation)
            + "cursor.finish("@ + self.name + "Marker {\n"@ + self.fields.part(Part::ShapeInits)
            + "})\n}\n}\n\n"@
    }

    /// The validation routine of the table. It walks the fields in
    /// declaration order and yields the shape or an error.
    pub open spec fn validator(self) -> Seq<char> {
        match self.fields.read_args {
            None => "impl<'a> FontRead<'a> for "@ + self.name + "<'a> {\n"@
                + "fn read(data: FontData<'a>) -> Result<Self, ReadError> {\n"@
                + self.validation_body(),
            Some(args) => "impl<'a> FontReadWithArgs<'a> for "@ + self.name + "<'a> {\n"@
                + "fn read_with_args(data: FontData<'a>, args: &"@ + args_type(args)
                + ") -> Result<Self, ReadError> {\n"@ + "let "@ + args_pattern(args)
                + " = *args;\n"@ + self.validation_body(),
        }
    }

    /// The reader of the table: the font data together with the shape.
    pub open spec fn reader_type(self) -> Seq<char> {
        doc_lines(self.docs) + "pub type "@ + self.name + "<'a> = TableRef<'a, "@ + self.name
            + "Marker>;\n\n"@
    }

    /// The accessors of the table.
    pub open spec fn accessors(self) -> Seq<char> {
        "impl<'a> "@ + self.name + "<'a> {\n"@ + self.fields.part(Part::TableGetters) + "}\n\n"@
    }

    /// What the parse module holds for the table.
    pub open spec fn generate(self) -> Seq<char> {
        self.shape_decl() + self.byte_ranges() + self.format_const() + self.validator()
            + self.reader_type() + self.accessors()
    }

    /// What the compile module holds for the table.
    pub open spec fn generate_compile(self) -> Seq<char> {
        self.fields.owned_item(self.docs, self.name)
    }

    /// The names of the fields that the compile module has in the owned
    /// table.
    pub open spec fn owned_field_names(self) -> Seq<Seq<char>> {
        self.fields.fields.filter_map(
            |f: crate::parsing::FieldView|
                if f.compile_field_decl() is Some {
                    Some(f.name)
                } else {
                    None
                },
        )
    }

    /// The names of the accessors of the fields that are not computed
    /// when the table is written.
    pub open spec fn stored_accessor_names(self) -> Seq<Seq<char>> {
        self.fields.fields.filter_map(
            |f: crate::parsing::FieldView|
                if f.table_getter() is Some && !f.is_computed() {
                    Some(f.name)
                } else {
                    None
                },
        )
    }
}

/// The analyzer sees the discriminant that the resolved table has.
pub proof fn lemma_discriminant_of_resolved(table: TableView, scalars: Seq<Seq<char>>)
    ensures
        (TableView { fields: table.fields.resolved(scalars), ..table }).discriminant()
            == table.discriminant_among(scalars),
{
}

/// Cross-mode consistency: where no field that the owned table holds
/// has its accessor suppressed, the accessors of a table in the parse
/// module, without those of the fields that carry `format` or
/// `compile`, carry the names of the fields of the owned table in the
/// compile module, in the same order.
pub proof fn lemma_cross_mode_names(table: TableView)
    requires
        forall|i: int|
            0 <= i < table.fields.fields.len() ==> (#[trigger] table.fields.fields[i]).has_getter()
                || table.fields.fields[i].is_computed(),
    ensures
        table.stored_accessor_names() == table.owned_field_names(),
        table.owned_field_names() == table.fields.compile_field_names(),
{
    let fields = table.fields.fields;
    let stored = |f: crate::parsing::FieldView|
        if f.table_getter() is Some && !f.is_computed() {
            Some(f.name)
        } else {
            None
        };
    let owned = |f: crate::parsing::FieldView|
        if f.compile_field_decl() is Some {
            Some(f.name)
        } else {
            None
        };
    let held = |f: crate::parsing::FieldView|
        if f.is_computed() {
            None
        } else {
            Some(f.name)
        };
    lemma_filter_map_agree(fields, stored, owned);
    assert forall|i: int| 0 <= i < fields.len() implies owned(#[trigger] fields[i]) == held(
        fields[i],
    ) by {}
    lemma_filter_map_agree(fields, owned, held);
}

/// Two selections that agree on every element of a sequence select the
/// same from it.
pub proof fn lemma_filter_map_agree<A, B>(s: Seq<A>, f: spec_fn(A) -> Option<B>, g: spec_fn(A) -> Option<B>)
    requires
        forall|i: int| 0 <= i < s.len() ==> f(#[trigger] s[i]) == g(s[i]),
    ensures
        s.filter_map(f) == s.filter_map(g),
    decreases s.len(),
{
    if s.len() > 0 {
        assert forall|i: int| 0 <= i < s.drop_last().len() implies f(#[trigger] s.drop_last()[i])
            == g(s.drop_last()[i]) by {
            assert(s.drop_last()[i] == s[i]);
        }
        lemma_filter_map_agree(s.drop_last(), f, g);
        assert(f(s.last()) == g(s.last())) by {
            assert(s.last() == s[s.len() - 1]);
        }
    }
}

impl Table {
    fn shape_decl(&self) -> (out: String)
        requires
            self@.fields.lowerable(),
        ensures
            out@ == self@.shape_decl(),
    {
        let fields = self.fields.part(Part::ShapeFields);
        emit_docs(&self.docs).concat(
            "#[derive(Debug, Clone, Copy)]\n#[doc(hidden)]\npub struct ",
        ).concat(self.name.as_str()).concat("Marker {\n").concat(fields.as_str()).concat("}\n\n")
    }

    fn byte_ranges(&self) -> (out: String)
        requires
            self@.fields.lowerable(),
        ensures
            out@ == self@.byte_ranges(),
    {
        let ranges = self.fields.part(Part::ByteRanges);
        String::from_str("impl ").concat(self.name.as_str()).concat("Marker {\n").concat(
            ranges.as_str(),
        ).concat("}\n\n")
    }

    /// The discriminant of the table in a format group, with its type.
    pub fn discriminant(&self) -> (out: Option<(&String, u32)>)
        ensures
            out.deep_view() == self@.discriminant(),
    {
        if self.fields.fields.len() > 0 {
            let first = &self.fields.fields[0];
            assert(self@.fields.fields[0] == first@);
            match (&first.typ, first.attrs.format) {
                (FieldType::Scalar { typ }, Some(format)) => Some((typ, format)),
                _ => None,
            }
        } else {
            None
        }
    }

    /// The discriminant of the table in a format group as the analyzer
    /// sees it, with its type.
    pub fn discriminant_among(&self, scalars: &Vec<String>) -> (out: Option<(&String, u32)>)
        ensures
            out.deep_view() == self@.discriminant_among(scalars.deep_view()),
    {
        if self.fields.fields.len() > 0 {
            let first = &self.fields.fields[0];
            assert(self@.fields.fields[0] == first@);
            match (&first.typ, first.attrs.format) {
                (FieldType::Scalar { typ }, Some(format)) => Some((typ, format)),
                (FieldType::Other { typ }, Some(format)) => if contains_name(scalars, typ) {
                    Some((typ, format))
                } else {
                    None
                },
                _ => None,
            }
        } else {
            None
        }
    }

    fn format_const(&self) -> (out: String)
        ensures
            out@ == self@.format_const(),
    {
        match self.discriminant() {
            Some((typ, format)) => {
                let format = u32_to_decimal(format);
                String::from_str("impl Format<").concat(typ.as_str()).concat("> for ").concat(
                    self.name.as_str(),
                ).concat("Marker {\n").concat("const FORMAT: ").concat(typ.as_str()).concat(
                    " = ",
                ).concat(format.as_str()).concat(";\n}\n\n")
            },
            None => String::from_str(""),
        }
    }

    fn validation_body(&self) -> (out: String)
        requires
            self@.fields.lowerable(),
        ensures
            out@ == self@.validation_body(),
    {
        let steps = self.fields.part(Part::Validation);
        let inits = self.fields.part(Part::ShapeInits);
        String::from_str("let mut cursor = data.cursor();\n").concat(steps.as_str()).concat(
            "cursor.finish(",
        ).concat(self.name.as_str()).concat("Marker {\n").concat(inits.as_str()).concat(
            "})\n}\n}\n\n",
        )
    }

    fn validator(&self) -> (out: String)
        requires
            self@.fields.lowerable(),
        ensures
            out@ == self@.validator(),
    {
        let body = self.validation_body();
        match &self.fields.read_args {
            None => String::from_str("impl<'a> FontRead<'a> for ").concat(
                self.name.as_str(),
            ).concat("<'a> {\n").concat(
                "fn read(data: FontData<'a>) -> Result<Self, ReadError> {\n",
            ).concat(body.as_str()),
            Some(args) => {
                let typ = args.args_type();
                let pattern = args.args_pattern();
                String::from_str("impl<'a> FontReadWithArgs<'a> for ").concat(
                    self.name.as_str(),
                ).concat("<'a> {\n").concat(
                    "fn read_with_args(data: FontData<'a>, args: &",
                ).concat(typ.as_str()).concat(") -> Result<Self, ReadError> {\n").concat(
                    "let ",
                ).concat(pattern.as_str()).concat(" = *args;\n").concat(body.as_str())
            },
        }
    }

    fn reader_type(&self) -> (out: String)
        ensures
            out@ == self@.reader_type(),
    {
        emit_docs(&self.docs).concat("pub type ").concat(self.name.as_str()).concat(
            "<'a> = TableRef<'a, ",
        ).concat(self.name.as_str()).concat("Marker>;\n\n")
    }

    fn accessors(&self) -> (out: String)
        requires
            self@.fields.lowerable(),
        ensures
            out@ == self@.accessors(),
    {
        let getters = self.fields.part(Part::TableGetters);
        String::from_str("impl<'a> ").concat(self.name.as_str()).concat("<'a> {\n").concat(
            getters.as_str(),
        ).concat("}\n\n")
    }
}

/// What the parse module holds for a table: the shape, the byte ranges,
/// the validation routine, the reader and the accessors.
pub fn generate(item: &Table) -> (out: String)
    requires
        item@.fields.lowerable(),
    ensures
        out@ == item@.generate(),
{
    let ranges = item.byte_ranges();
    let format = item.format_const();
    let validator = item.validator();
    let reader = item.reader_type();
    let accessors = item.accessors();
    item.shape_decl().concat(ranges.as_str()).concat(format.as_str()).concat(
        validator.as_str(),
    ).concat(reader.as_str()).concat(accessors.as_str())
}

/// What the compile module holds for a table.
pub fn generate_compile(item: &Table) -> (out: String)
    requires
        item@.fields.lowerable(),
    ensures
        out@ == item@.generate_compile(),
{
    item.fields.owned_item(&item.docs, item.name.as_str())
}

impl TableFormatView {
    /// What the parse module holds for the format group: one variant for
    /// each table, and the reader that looks at the leading
    /// discriminant and hands the data to the table whose discriminant
    /// it is. A discriminant of no table is an error that the caller
    /// can recover from.
    pub open spec fn generate(self) -> Seq<char> {
        doc_lines(self.docs) + "pub enum "@ + self.name + "<'a> {\n"@ + format_part(
            self.variants,
            GroupPart::ParseVariants,
        ) + "}\n\n"@ + "impl<'a> FontRead<'a> for "@ + self.name + "<'a> {\n"@
            + "fn read(data: FontData<'a>) -> Result<Self, ReadError> {\n"@ + "let format: "@
            + self.format + " = data.read_at(0)?;\nmatch format {\n"@ + format_part(
            self.variants,
            GroupPart::ReadArms,
        ) + "other => Err(ReadError::InvalidFormat(other.into())),\n}\n}\n}\n\n"@
    }

    /// What the compile module holds for the format group.
    pub open spec fn generate_compile(self) -> Seq<char> {
        owned_group(
            self.docs,
            self.name,
            format_part(self.variants, GroupPart::CompileVariants),
            format_part(self.variants, GroupPart::WriteArms),
            format_part(self.variants, GroupPart::ValidateArms),
        )
    }
}

/// The owned form of a group: the enum over the owned variants, written
/// and validated as the variant at hand is.
pub open spec fn owned_group(
    docs: Seq<Seq<char>>,
    name: Seq<char>,
    variants: Seq<char>,
    write_arms: Seq<char>,
    validate_arms: Seq<char>,
) -> Seq<char> {
    doc_lines(docs) + "#[derive(Clone, Debug)]\npub enum "@ + name + " {\n"@ + variants
        + "}\n\n"@ + "impl FontWrite for "@ + name + " {\n"@
        + "fn write_into(&self, writer: &mut TableWriter) {\nmatch self {\n"@ + write_arms
        + "}\n}\n}\n\n"@ + "impl Validate for "@ + name + " {\n"@
        + "fn validate_impl(&self, ctx: &mut ValidationCtx) {\nmatch self {\n"@ + validate_arms
        + "}\n}\n}\n\n"@
}

fn emit_owned_group(
    docs: &Vec<String>,
    name: &str,
    variants: &str,
    write_arms: &str,
    validate_arms: &str,
) -> (out: String)
    ensures
        out@ == owned_group(docs.deep_view(), name@, variants@, write_arms@, validate_arms@),
{
    emit_docs(docs).concat("#[derive(Clone, Debug)]\npub enum ").concat(name).concat(" {\n").concat(
        variants,
    ).concat("}\n\n").concat("impl FontWrite for ").concat(name).concat(" {\n").concat(
        "fn write_into(&self, writer: &mut TableWriter) {\nmatch self {\n",
    ).concat(write_arms).concat("}\n}\n}\n\n").concat("impl Validate for ").concat(name).concat(
        " {\n",
    ).concat("fn validate_impl(&self, ctx: &mut ValidationCtx) {\nmatch self {\n").concat(
        validate_arms,
    ).concat("}\n}\n}\n\n")
}

/// What the parse module holds for a format group.
pub fn generate_format_group(item: &TableFormat) -> (out: String)
    ensures
        out@ == item@.generate(),
{
    let variants = emit_format_part(&item.variants, GroupPart::ParseVariants);
    let arms = emit_format_part(&item.variants, GroupPart::ReadArms);
    emit_docs(&item.docs).concat("pub enum ").concat(item.name.as_str()).concat("<'a> {\n").concat(
        variants.as_str(),
    ).concat("}\n\n").concat("impl<'a> FontRead<'a> for ").concat(item.name.as_str()).concat(
        "<'a> {\n",
    ).concat("fn read(data: FontData<'a>) -> Result<Self, ReadError> {\n").concat(
        "let format: ",
    ).concat(item.format.as_str()).concat(" = data.read_at(0)?;\nmatch format {\n").concat(
        arms.as_str(),
    ).concat("other => Err(ReadError::InvalidFormat(other.into())),\n}\n}\n}\n\n")
}

/// What the compile module holds for a format group.
pub fn generate_format_compile(item: &TableFormat) -> (out: String)
    ensures
        out@ == item@.generate_compile(),
{
    let variants = emit_format_part(&item.variants, GroupPart::CompileVariants);
    let write_arms = emit_format_part(&item.variants, GroupPart::WriteArms);
    let validate_arms = emit_format_part(&item.variants, GroupPart::ValidateArms);
    emit_owned_group(
        &item.docs,
        item.name.as_str(),
        variants.as_str(),
        write_arms.as_str(),
        validate_arms.as_str(),
    )
}

impl GenericGroupView {
    /// What the parse module holds for the generic group: one variant
    /// for each table that the header can hold, and the reader that
    /// reads the header and looks at its discriminant.
    pub open spec fn generate(self) -> Seq<char> {
        doc_lines(self.docs) + "pub enum "@ + self.name + "<'a> {\n"@ + group_part(
            self.variants,
            GroupPart::ParseVariants,
            self.inner_type,
        ) + "}\n\n"@ + "impl<'a> FontRead<'a> for "@ + self.name + "<'a> {\n"@
            + "fn read(data: FontData<'a>) -> Result<Self, ReadError> {\n"@ + "let untyped = "@
            + self.inner_type + "::read(data)?;\nmatch untyped."@ + self.inner_field + "() {\n"@
            + group_part(self.variants, GroupPart::ReadArms, self.inner_type)
            + "other => Err(ReadError::InvalidFormat(other.into())),\n}\n}\n}\n\n"@
    }

    /// What the compile module holds for the generic group.
    pub open spec fn generate_compile(self) -> Seq<char> {
        owned_group(
            self.docs,
            self.name,
            group_part(self.variants, GroupPart::CompileVariants, self.inner_type),
            group_part(self.variants, GroupPart::WriteArms, self.inner_type),
            group_part(self.variants, GroupPart::ValidateArms, self.inner_type),
        )
    }
}

/// What the parse module holds for a generic group.
pub fn generate_group(item: &GenericGroup) -> (out: String)
    ensures
        out@ == item@.generate(),
{
    let inner = item.inner_type.as_str();
    let variants = emit_group_part(&item.variants, GroupPart::ParseVariants, inner);
    let arms = emit_group_part(&item.variants, GroupPart::ReadArms, inner);
    emit_docs(&item.docs).concat("pub enum ").concat(item.name.as_str()).concat("<'a> {\n").concat(
        variants.as_str(),
    ).concat("}\n\n").concat("impl<'a> FontRead<'a> for ").concat(item.name.as_str()).concat(
        "<'a> {\n",
    ).concat("fn read(data: FontData<'a>) -> Result<Self, ReadError> {\n").concat(
        "let untyped = ",
    ).concat(inner).concat("::read(data)?;\nmatch untyped.").concat(
        item.inner_field.as_str(),
    ).concat("() {\n").concat(arms.as_str()).concat(
        "other => Err(ReadError::InvalidFormat(other.into())),\n}\n}\n}\n\n",
    )
}

/// What the compile module holds for a generic group.
pub fn generate_group_compile(item: &GenericGroup) -> (out: String)
    ensures
        out@ == item@.generate_compile(),
{
    let inner = item.inner_type.as_str();
    let variants = emit_group_part(&item.variants, GroupPart::CompileVariants, inner);
    let write_arms = emit_group_part(&item.variants, GroupPart::WriteArms, inner);
    let validate_arms = emit_group_part(&item.variants, GroupPart::ValidateArms, inner);
    emit_owned_group(
        &item.docs,
        item.name.as_str(),
        variants.as_str(),
        write_arms.as_str(),
        validate_arms.as_str(),
    )
}

} // verus!
