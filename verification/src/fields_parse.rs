//! What the parse module holds for one field: its type in a record, its
//! accessors, and its step in the validator.

use crate::fields::FieldRule;
use crate::parsing::{
    Count, CountView, CustomArray, CustomArrayView, Expr, ExprView, Field, FieldReadArgs,
    FieldReadArgsView, FieldType, FieldTypeView, FieldView, Op, field_type_view,
};
use crate::text::{
    concat_all, decimal, join, join_all, trim_end_matches, trim_suffix, u32_to_decimal,
};
use vstd::prelude::*;

verus! {

/// One `///` line for each line of documentation.
pub open spec fn doc_lines(docs: Seq<Seq<char>>) -> Seq<char> {
    docs.map_values(|doc: Seq<char>| "///"@ + doc + "\n"@).flatten()
}

/// One `///` line for each line of documentation.
pub fn emit_docs(docs: &Vec<String>) -> (out: String)
    ensures
        out@ == doc_lines(docs.deep_view()),
{
    let mut lines: Vec<String> = Vec::new();
    let mut i: usize = 0;
    let ghost line = |doc: Seq<char>| "///"@ + doc + "\n"@;
    while i < docs.len()
        invariant
            i <= docs.len(),
            line == |doc: Seq<char>| "///"@ + doc + "\n"@,
            lines.deep_view() == docs.deep_view().take(i as int).map_values(line),
        decreases docs.len() - i,
    {
        let ghost before = lines.deep_view();
        lines.push(String::from_str("///").concat(docs[i].as_str()).concat("\n"));
        assert(lines.deep_view() =~= before.push(line(docs[i as int]@)));
        assert(docs.deep_view().take(i + 1).map_values(line) =~= before.push(
            line(docs[i as int]@),
        ));
        i += 1;
    }
    assert(docs.deep_view().take(i as int) =~= docs.deep_view());
    concat_all(&lines)
}

impl Op {
    /// The name under which the runtime offers the operator.
    pub open spec fn spec_name(self) -> Seq<char> {
        match self {
            Op::Add => "add"@,
            Op::Sub => "sub"@,
            Op::Mul => "mul"@,
        }
    }

    /// The name under which the runtime offers the operator.
    pub fn name(self) -> (name: &'static str)
        ensures
            name@ == self.spec_name(),
    {
        match self {
            Op::Add => "add",
            Op::Sub => "sub",
            Op::Mul => "mul",
        }
    }
}

impl ExprView {
    /// The expression as the validator evaluates it: over the fields that
    /// it has read so far, in `usize`.
    pub open spec fn validation_text(self) -> Seq<char>
        decreases self,
    {
        match self {
            ExprView::Field(name) => "("@ + name + " as usize)"@,
            ExprView::Literal(value) => decimal(value as nat),
            ExprView::Call { op, lhs, rhs } => op.spec_name() + "("@ + lhs.validation_text() + ", "@
                + rhs.validation_text() + ")"@,
        }
    }
}

impl Expr {
    /// The expression as the validator evaluates it.
    pub fn validation_text(&self) -> (out: String)
        ensures
            out@ == self@.validation_text(),
        decreases self,
    {
        match self {
            Expr::Field(name) => String::from_str("(").concat(name.as_str()).concat(" as usize)"),
            Expr::Literal(value) => u32_to_decimal(*value),
            Expr::Call { op, lhs, rhs } => {
                let left = lhs.validation_text();
                let right = rhs.validation_text();
                String::from_str(op.name()).concat("(").concat(left.as_str()).concat(", ").concat(
                    right.as_str(),
                ).concat(")")
            },
        }
    }
}

impl CountView {
    /// The number of elements as the validator computes it. `size` is
    /// the size of one element, which only `..` needs.
    pub open spec fn count_expr(self, size: Seq<char>) -> Seq<char> {
        match self {
            CountView::Field(name) => "("@ + name + " as usize)"@,
            CountView::Literal(value) => decimal(value as nat),
            CountView::All => "cursor.remaining_bytes() / "@ + size,
            CountView::Expr(e) => e.validation_text(),
        }
    }
}

impl Count {
    /// The number of elements as the validator computes it.
    pub fn count_expr(&self, size: &str) -> (out: String)
        ensures
            out@ == self@.count_expr(size@),
    {
        match self {
            Count::Field(name) => String::from_str("(").concat(name.as_str()).concat(" as usize)"),
            Count::Literal(value) => u32_to_decimal(*value),
            Count::All => String::from_str("cursor.remaining_bytes() / ").concat(size),
            Count::Expr(e) => e.validation_text(),
        }
    }
}

impl FieldReadArgsView {
    /// The arguments as an accessor of a table passes them on: each is
    /// read through its own accessor.
    pub open spec fn tokens_for_table_getter(self) -> Seq<char> {
        if self.inputs.len() == 1 {
            "self."@ + self.inputs[0] + "()"@
        } else {
            "("@ + join(self.inputs.map_values(|arg: Seq<char>| "self."@ + arg + "()"@), ", "@)
                + ")"@
        }
    }

    /// The arguments as the validator passes them on: each is a local
    /// that an earlier step has bound.
    pub open spec fn tokens_for_validation(self) -> Seq<char> {
        if self.inputs.len() == 1 {
            self.inputs[0]
        } else {
            "("@ + join(self.inputs, ", "@) + ")"@
        }
    }
}

impl FieldReadArgs {
    /// The arguments as an accessor of a table passes them on.
    pub fn to_tokens_for_table_getter(&self) -> (out: String)
        ensures
            out@ == self@.tokens_for_table_getter(),
    {
        if self.inputs.len() == 1 {
            return String::from_str("self.").concat(self.inputs[0].as_str()).concat("()");
        }
        let mut calls: Vec<String> = Vec::new();
        let mut i: usize = 0;
        let ghost call = |arg: Seq<char>| "self."@ + arg + "()"@;
        while i < self.inputs.len()
            invariant
                i <= self.inputs.len(),
                call == |arg: Seq<char>| "self."@ + arg + "()"@,
                calls.deep_view() == self.inputs.deep_view().take(i as int).map_values(call),
            decreases self.inputs.len() - i,
        {
            let ghost before = calls.deep_view();
            calls.push(String::from_str("self.").concat(self.inputs[i].as_str()).concat("()"));
            assert(calls.deep_view() =~= before.push(call(self.inputs[i as int]@)));
            assert(self.inputs.deep_view().take(i + 1).map_values(call) =~= before.push(
                call(self.inputs[i as int]@),
            ));
            i += 1;
        }
        assert(self.inputs.deep_view().take(i as int) =~= self.inputs.deep_view());
        let list = join_all(&calls, ", ");
        String::from_str("(").concat(list.as_str()).concat(")")
    }

    /// The arguments as the validator passes them on.
    pub fn to_tokens_for_validation(&self) -> (out: String)
        ensures
            out@ == self@.tokens_for_validation(),
    {
        if self.inputs.len() == 1 {
            return self.inputs[0].clone();
        }
        let list = join_all(&self.inputs, ", ");
        String::from_str("(").concat(list.as_str()).concat(")")
    }
}

impl CustomArrayView {
    /// The element type, with the lifetime of the font data where it
    /// borrows from it.
    pub open spec fn type_with_lifetime(self) -> Seq<char> {
        if self.lifetime {
            self.inner + "<'a>"@
        } else {
            self.inner
        }
    }
}

impl CustomArray {
    /// The element type, with the lifetime of the font data where it
    /// borrows from it.
    pub fn type_with_lifetime(&self) -> (out: String)
        ensures
            out@ == self@.type_with_lifetime(),
    {
        if self.lifetime {
            String::from_str(self.inner.as_str()).concat("<'a>")
        } else {
            self.inner.clone()
        }
    }
}

impl FieldTypeView {
    /// Whether the type has a name of its own: arrays have none.
    pub open spec fn has_cooked_type(self) -> bool {
        self is Scalar || self is Offset || self is Other
    }

    /// The type's name without the big-endian wrapper.
    pub open spec fn cooked_type(self) -> Seq<char> {
        match self {
            FieldTypeView::Scalar { typ } => typ,
            FieldTypeView::Offset { typ, .. } => typ,
            FieldTypeView::Other { typ } => typ,
            _ => Seq::empty(),
        }
    }

    /// The type of a slice of this type's values in the font data.
    pub open spec fn slice_type(self) -> Seq<char> {
        match self {
            FieldTypeView::Scalar { typ } => "[BigEndian<"@ + typ + ">]"@,
            FieldTypeView::Offset { typ, .. } => "[BigEndian<"@ + typ + ">]"@,
            FieldTypeView::Other { typ } => "["@ + typ + "]"@,
            _ => Seq::empty(),
        }
    }
}

impl FieldType {
    /// The type's name without the big-endian wrapper.
    pub fn cooked_type_tokens(&self) -> (typ: &String)
        requires
            self@.has_cooked_type(),
        ensures
            typ@ == self@.cooked_type(),
    {
        match self {
            FieldType::Scalar { typ } => typ,
            FieldType::Offset { typ, .. } => typ,
            FieldType::Other { typ } => typ,
            _ => {
                assert(false);
                vstd::pervasive::unreached()
            },
        }
    }

    /// The type of a slice of this type's values in the font data.
    fn slice_type(&self) -> (out: String)
        requires
            self@.has_cooked_type(),
        ensures
            out@ == self@.slice_type(),
    {
        match self {
            FieldType::Scalar { typ } => String::from_str("[BigEndian<").concat(typ.as_str()).concat(
                ">]",
            ),
            FieldType::Offset { typ, .. } => String::from_str("[BigEndian<").concat(
                typ.as_str(),
            ).concat(">]"),
            FieldType::Other { typ } => String::from_str("[").concat(typ.as_str()).concat("]"),
            _ => {
                assert(false);
                vstd::pervasive::unreached()
            },
        }
    }
}

impl FieldView {
    /// The type of the field in a record, which holds its fields as they
    /// stand in the font data.
    pub open spec fn type_for_record(self) -> Seq<char> {
        match self.typ {
            FieldTypeView::Scalar { typ } => "BigEndian<"@ + typ + ">"@,
            FieldTypeView::Offset { typ, .. } => "BigEndian<"@ + typ + ">"@,
            FieldTypeView::Other { typ } => typ,
            FieldTypeView::ComputedArray(array) => "ComputedArray<'a, "@
                + array.type_with_lifetime() + ">"@,
            FieldTypeView::Array { inner_typ } => match *inner_typ {
                FieldTypeView::Other { .. } => "&"@ + inner_typ.slice_type(),
                _ => "&'a "@ + inner_typ.slice_type(),
            },
        }
    }

    pub open spec fn shape_byte_range_fn_name(self) -> Seq<char> {
        self.name + "_byte_range"@
    }

    pub open spec fn shape_byte_len_field_name(self) -> Seq<char> {
        self.name + "_byte_len"@
    }

    pub open spec fn shape_byte_start_field_name(self) -> Seq<char> {
        self.name + "_byte_start"@
    }

    /// How the shape gives the field's length: a constant of the type
    /// for scalars and offsets, and what the validator stored for the
    /// others.
    pub open spec fn shape_len_expr(self) -> Seq<char> {
        match self.typ {
            FieldTypeView::Scalar { typ } => typ + "::RAW_BYTE_LEN"@,
            FieldTypeView::Offset { typ, .. } => typ + "::RAW_BYTE_LEN"@,
            _ => "self."@ + self.shape_byte_len_field_name(),
        }
    }

    /// What the plain accessor returns: the value as it is read, with no
    /// offset resolved.
    pub open spec fn raw_getter_return_type(self) -> Seq<char> {
        match self.typ {
            FieldTypeView::Scalar { typ } => typ,
            FieldTypeView::Offset { typ, .. } => typ,
            FieldTypeView::Other { typ } => typ,
            FieldTypeView::Array { inner_typ } => "&"@ + inner_typ.slice_type(),
            FieldTypeView::ComputedArray(array) => "ComputedArray<'a, "@
                + array.type_with_lifetime() + ">"@,
        }
    }

    /// The field's byte range as an accessor asks the shape for it. For a
    /// versioned field the accessor returns early where the shape has
    /// no range.
    pub open spec fn getter_range_stmt(self) -> Seq<char> {
        "self.shape."@ + self.shape_byte_range_fn_name() + "()"@ + (if self.is_version_dependent() {
            "?"@
        } else {
            ""@
        })
    }

    /// The name of the accessor that resolves an offset: the field's
    /// name without its trailing `_offsets` and `_offset`. Only offsets
    /// have one.
    pub open spec fn offset_getter_name(self) -> Option<Seq<char>> {
        if self.typ is Offset {
            Some(trim_end_matches(trim_end_matches(self.name, "_offsets"@), "_offset"@))
        } else {
            None
        }
    }

    /// How an accessor of a table reads the field from its range.
    pub open spec fn table_read_stmt(self) -> Seq<char> {
        let read = match self.attrs.read_with_args {
            Some(args) => "self.data.read_with_args(range, &"@ + args.tokens_for_table_getter()
                + ").unwrap()"@,
            None => if self.is_array() {
                "self.data.read_array(range).unwrap()"@
            } else {
                "self.data.read_at(range.start).unwrap()"@
            },
        };
        if self.is_version_dependent() {
            "Some("@ + read + ")"@
        } else {
            read
        }
    }

    /// The accessor that resolves an offset with a known target. There is
    /// none where the schema suppresses it.
    pub open spec fn typed_offset_field_getter(self) -> Option<Seq<char>> {
        if self.attrs.skip_offset_getter {
            None
        } else {
            match self.typ {
                FieldTypeView::Offset { typ, target: Some(target) } => {
                    let result_type = "Result<"@ + target + "<'a>, ReadError>"@;
                    let return_type = if self.is_nullable() || self.is_version_dependent() {
                        "Option<"@ + result_type + ">"@
                    } else {
                        result_type
                    };
                    let resolve_method = if self.is_nullable() {
                        "resolve_nullable"@
                    } else {
                        "resolve"@
                    };
                    let return_stmt = if self.is_version_dependent() && !self.is_nullable() {
                        "Some(result)"@
                    } else {
                        "result"@
                    };
                    Some(
                        "/// Attempt to resolve [`"@ + self.name + "`][Self::"@ + self.name + "].\n"@
                            + "pub fn "@ + self.offset_getter_name().unwrap() + "(&self) -> "@
                            + return_type + " {\n"@ + "let range = "@ + self.getter_range_stmt()
                            + ";\n"@ + "let offset: "@ + typ
                            + " = self.data.read_at(range.start).unwrap();\n"@
                            + "let result = offset."@ + resolve_method + "(&self.data);\n"@
                            + return_stmt + "\n}\n"@,
                    )
                },
                _ => None,
            }
        }
    }

    /// The accessors of the field on a table: the plain one, and after it
    /// the one that resolves the offset, where there is one. A field
    /// whose getter the schema suppresses has neither.
    pub open spec fn table_getter(self) -> Option<Seq<char>> {
        if !self.has_getter() {
            None
        } else {
            let return_type = if self.is_version_dependent() {
                "Option<"@ + self.raw_getter_return_type() + ">"@
            } else {
                self.raw_getter_return_type()
            };
            Some(
                doc_lines(self.attrs.docs) + "pub fn "@ + self.name + "(&self) -> "@ + return_type
                    + " {\n"@ + "let range = "@ + self.getter_range_stmt() + ";\n"@
                    + self.table_read_stmt() + "\n}\n"@ + (match self.typed_offset_field_getter() {
                    Some(getter) => getter,
                    None => ""@,
                }),
            )
        }
    }

    /// The accessor of the field on a record. A record holds its fields,
    /// so scalars are decoded and the others are handed out by reference.
    pub open spec fn record_getter(self) -> Option<Seq<char>> {
        if !self.has_getter() {
            None
        } else {
            let borrow = if self.typ is Other || self.typ is ComputedArray {
                "&"@
            } else {
                ""@
            };
            let getter_expr = match self.typ {
                FieldTypeView::Scalar { .. } => "self."@ + self.name + ".get()"@,
                FieldTypeView::Offset { .. } => "self."@ + self.name + ".get()"@,
                FieldTypeView::Other { .. } => "&self."@ + self.name,
                FieldTypeView::ComputedArray(_) => "&self."@ + self.name,
                FieldTypeView::Array { .. } => "self."@ + self.name,
            };
            Some(
                doc_lines(self.attrs.docs) + "pub fn "@ + self.name + "(&self) -> "@ + borrow
                    + self.raw_getter_return_type() + " {\n"@ + getter_expr + "\n}\n"@,
            )
        }
    }

    /// The size of one element of the field, which is an array or a
    /// computed array.
    pub open spec fn element_size_expr(self) -> Seq<char> {
        match self.typ {
            FieldTypeView::Array { inner_typ } => inner_typ.cooked_type() + "::RAW_BYTE_LEN"@,
            FieldTypeView::ComputedArray(array) => "<"@ + array.inner
                + " as ComputeSize>::compute_size(&"@ + self.validation_args() + ")"@,
            _ => ""@,
        }
    }

    /// The field's arguments as the validator passes them on, or nothing
    /// where it has none.
    pub open spec fn validation_args(self) -> Seq<char> {
        match self.attrs.read_with_args {
            Some(args) => args.tokens_for_validation(),
            None => ""@,
        }
    }

    /// Whether the field's computed length, if it has one, can be
    /// written down: the field is not read into a local, and it is a
    /// record that computes its own size, or has a `len`, or is an
    /// array or a computed array with a `count`.
    pub open spec fn len_is_stated(self) -> bool {
        self.has_computed_len() ==> !self.read_at_parse_time && (self.typ is Other
            || self.attrs.len is Some || (self.attrs.count is Some && (self.is_array()
            || self.is_computed_array())))
    }

    /// The length of the field in bytes as an expression over the
    /// fields read before it: for a record, the size that it computes
    /// from its arguments; else the `len`; else the count times the
    /// size of an element. A field with neither `count` nor `len` nor
    /// arguments has none.
    pub open spec fn computed_len_expr(self) -> Option<Seq<char>> {
        if !self.has_computed_len() {
            None
        } else {
            match self.typ {
                FieldTypeView::Other { typ } => Some(
                    "<"@ + typ + " as ComputeSize>::compute_size(&"@ + self.validation_args() + ")"@,
                ),
                _ => match self.attrs.len {
                    Some(expr) => Some(expr.validation_text()),
                    None => match self.attrs.count {
                        Some(count) => Some(
                            count.count_expr(self.element_size_expr()) + " * "@
                                + self.element_size_expr(),
                        ),
                        None => None,
                    },
                },
            }
        }
    }

    /// The length that the validator records for the field: its
    /// computed length, but none for a scalar or an offset that has
    /// arguments only, which is skipped by the size of its type.
    pub open spec fn validated_len_expr(self) -> Option<Seq<char>> {
        if (self.typ is Scalar || self.typ is Offset) && self.attrs.len is None
            && self.attrs.count is None {
            None
        } else {
            self.computed_len_expr()
        }
    }

    /// What the lowering passes cannot do without: arrays are flat; an
    /// array has a length; a computed array has a count and arguments;
    /// no scalar and no offset has a count, as they have no elements to
    /// take the size of; and a field with a fixed format has a type
    /// with a name.
    pub open spec fn lowerable(self) -> bool {
        &&& self.typ.is_flat()
        &&& self.is_array() ==> self.attrs.count is Some || self.attrs.len is Some
        &&& self.is_computed_array() ==> self.attrs.count is Some && self.attrs.read_with_args is Some
        &&& self.attrs.count is Some ==> !(self.typ is Scalar) && !(self.typ is Offset)
        &&& self.attrs.format is Some ==> self.typ.has_cooked_type()
    }

    /// The length of the field in a record.
    pub open spec fn record_len_expr(self) -> Seq<char> {
        match self.validated_len_expr() {
            Some(len) => len,
            None => self.typ.cooked_type() + "::RAW_BYTE_LEN"@,
        }
    }

    /// How a record's reader fills the field.
    pub open spec fn record_init_stmt(self) -> Seq<char> {
        let rhs = match self.typ {
            FieldTypeView::Array { .. } => "cursor.read_array("@ + self.validated_len_expr().unwrap()
                + ")?"@,
            FieldTypeView::ComputedArray(_) => "cursor.read_computed_array("@
                + self.attrs.count.unwrap().count_expr(self.element_size_expr()) + ", &"@
                + self.validation_args() + ")?"@,
            _ => match self.attrs.read_with_args {
                Some(args) => "cursor.read_with_args(&"@ + args.tokens_for_validation() + ")?"@,
                None => "cursor.read()?"@,
            },
        };
        self.name + ": "@ + rhs
    }

    /// The step of the validator for this field.
    ///
    /// A field of fixed size that nothing depends on is skipped over. A
    /// versioned field has its start recorded where the version has it.
    /// A field of computed length has its length recorded and is
    /// skipped by that length; a versioned field of fixed size is
    /// skipped where the version has it; and a field that another
    /// field's length or arguments name is read into a local.
    pub open spec fn field_parse_validation_stmts(self) -> Seq<char> {
        if !self.read_at_parse_time && self.validated_len_expr() is None
            && !self.is_version_dependent() {
            "cursor.advance::<"@ + self.typ.cooked_type() + ">();\n"@
        } else {
            let versioned_field_start = match self.attrs.available {
                Some(version) => "let "@ + self.shape_byte_start_field_name()
                    + " = version.compatible("@ + decimal(version as nat)
                    + ").then(|| cursor.position()).transpose()?;\n"@,
                None => ""@,
            };
            let other_stuff = match self.validated_len_expr() {
                Some(len_expr) => match self.attrs.available {
                    Some(version) => "let "@ + self.shape_byte_len_field_name()
                        + " = version.compatible("@ + decimal(version as nat) + ").then(|| "@
                        + len_expr + ");\n"@ + self.shape_byte_len_field_name()
                        + ".map(|value| cursor.advance_by(value));\n"@,
                    None => "let "@ + self.shape_byte_len_field_name() + " = "@ + len_expr + ";\n"@
                        + "cursor.advance_by("@ + self.shape_byte_len_field_name() + ");\n"@,
                },
                None => match self.attrs.available {
                    Some(version) => "version.compatible("@ + decimal(version as nat)
                        + ").then(|| cursor.advance::<"@ + self.typ.cooked_type() + ">());\n"@,
                    None => "let "@ + self.name + ": "@ + self.typ.cooked_type()
                        + " = cursor.read()?;\n"@,
                },
            };
            versioned_field_start + other_stuff
        }
    }
}

impl Field {
    /// The type of the field in a record.
    pub fn type_for_record(&self) -> (out: String)
        requires
            self@.typ.is_flat(),
        ensures
            out@ == self@.type_for_record(),
    {
        proof {
            reveal_with_fuel(field_type_view, 2);
        }
        match &self.typ {
            FieldType::Scalar { typ } => String::from_str("BigEndian<").concat(typ.as_str()).concat(
                ">",
            ),
            FieldType::Offset { typ, .. } => String::from_str("BigEndian<").concat(
                typ.as_str(),
            ).concat(">"),
            FieldType::Other { typ } => typ.clone(),
            FieldType::ComputedArray(array) => {
                let inner = array.type_with_lifetime();
                String::from_str("ComputedArray<'a, ").concat(inner.as_str()).concat(">")
            },
            FieldType::Array { inner_typ } => {
                let slice = inner_typ.slice_type();
                match &**inner_typ {
                    FieldType::Other { .. } => String::from_str("&").concat(slice.as_str()),
                    _ => String::from_str("&'a ").concat(slice.as_str()),
                }
            },
        }
    }

    pub fn shape_byte_range_fn_name(&self) -> (out: String)
        ensures
            out@ == self@.shape_byte_range_fn_name(),
    {
        String::from_str(self.name.as_str()).concat("_byte_range")
    }

    pub fn shape_byte_len_field_name(&self) -> (out: String)
        ensures
            out@ == self@.shape_byte_len_field_name(),
    {
        String::from_str(self.name.as_str()).concat("_byte_len")
    }

    /// The name under which the shape holds the start of the field, which
    /// it does for the versioned ones.
    pub fn shape_byte_start_field_name(&self) -> (out: String)
        ensures
            out@ == self@.shape_byte_start_field_name(),
    {
        String::from_str(self.name.as_str()).concat("_byte_start")
    }

    /// How the shape gives the field's length.
    pub fn shape_len_expr(&self) -> (out: String)
        ensures
            out@ == self@.shape_len_expr(),
    {
        match &self.typ {
            FieldType::Scalar { typ } => String::from_str(typ.as_str()).concat("::RAW_BYTE_LEN"),
            FieldType::Offset { typ, .. } => String::from_str(typ.as_str()).concat(
                "::RAW_BYTE_LEN",
            ),
            FieldType::Other { .. } | FieldType::Array { .. } | FieldType::ComputedArray { .. } => {
                let len_field = self.shape_byte_len_field_name();
                String::from_str("self.").concat(len_field.as_str())
            },
        }
    }

    /// What the plain accessor returns.
    pub fn raw_getter_return_type(&self) -> (out: String)
        requires
            self@.typ.is_flat(),
        ensures
            out@ == self@.raw_getter_return_type(),
    {
        proof {
            reveal_with_fuel(field_type_view, 2);
        }
        match &self.typ {
            FieldType::Scalar { typ } => typ.clone(),
            FieldType::Offset { typ, .. } => typ.clone(),
            FieldType::Other { typ } => typ.clone(),
            FieldType::Array { inner_typ } => {
                let slice = inner_typ.slice_type();
                String::from_str("&").concat(slice.as_str())
            },
            FieldType::ComputedArray(array) => {
                let inner = array.type_with_lifetime();
                String::from_str("ComputedArray<'a, ").concat(inner.as_str()).concat(">")
            },
        }
    }

    /// The field's byte range as an accessor asks the shape for it.
    pub fn getter_range_stmt(&self) -> (out: String)
        ensures
            out@ == self@.getter_range_stmt(),
    {
        let shape_range_fn_name = self.shape_byte_range_fn_name();
        let try_op = if self.is_version_dependent() {
            "?"
        } else {
            ""
        };
        String::from_str("self.shape.").concat(shape_range_fn_name.as_str()).concat("()").concat(
            try_op,
        )
    }

    /// The name of the accessor that resolves an offset.
    pub fn offset_getter_name(&self) -> (out: Option<String>)
        ensures
            out.deep_view() == self@.offset_getter_name(),
    {
        if !matches!(self.typ, FieldType::Offset { .. }) {
            return None;
        }
        let without_plural = trim_suffix(self.name.as_str(), "_offsets");
        Some(trim_suffix(without_plural.as_str(), "_offset"))
    }

    /// How an accessor of a table reads the field from its range.
    fn table_read_stmt(&self) -> (out: String)
        ensures
            out@ == self@.table_read_stmt(),
    {
        let read = match &self.attrs.read_with_args {
            Some(args) => {
                let get_args = args.to_tokens_for_table_getter();
                String::from_str("self.data.read_with_args(range, &").concat(
                    get_args.as_str(),
                ).concat(").unwrap()")
            },
            None => if self.is_array() {
                String::from_str("self.data.read_array(range).unwrap()")
            } else {
                String::from_str("self.data.read_at(range.start).unwrap()")
            },
        };
        if self.is_version_dependent() {
            String::from_str("Some(").concat(read.as_str()).concat(")")
        } else {
            read
        }
    }

    /// The accessor that resolves an offset with a known target.
    pub fn typed_offset_field_getter(&self) -> (out: Option<String>)
        ensures
            out.deep_view() == self@.typed_offset_field_getter(),
    {
        if self.attrs.skip_offset_getter {
            return None;
        }
        match &self.typ {
            FieldType::Offset { typ, target: Some(target) } => {
                let getter_name = self.offset_getter_name().unwrap();
                let result_type = String::from_str("Result<").concat(target.as_str()).concat(
                    "<'a>, ReadError>",
                );
                let return_type = if self.is_nullable() || self.is_version_dependent() {
                    String::from_str("Option<").concat(result_type.as_str()).concat(">")
                } else {
                    result_type
                };
                let range_stmt = self.getter_range_stmt();
                let resolve_method = if self.is_nullable() {
                    "resolve_nullable"
                } else {
                    "resolve"
                };
                let return_stmt = if self.is_version_dependent() && !self.is_nullable() {
                    "Some(result)"
                } else {
                    "result"
                };
                Some(
                    String::from_str("/// Attempt to resolve [`").concat(self.name.as_str()).concat(
                        "`][Self::",
                    ).concat(self.name.as_str()).concat("].\n").concat("pub fn ").concat(
                        getter_name.as_str(),
                    ).concat("(&self) -> ").concat(return_type.as_str()).concat(" {\n").concat(
                        "let range = ",
                    ).concat(range_stmt.as_str()).concat(";\n").concat("let offset: ").concat(
                        typ.as_str(),
                    ).concat(" = self.data.read_at(range.start).unwrap();\n").concat(
                        "let result = offset.",
                    ).concat(resolve_method).concat("(&self.data);\n").concat(return_stmt).concat(
                        "\n}\n",
                    ),
                )
            },
            _ => None,
        }
    }

    /// The accessors of the field on a table.
    pub fn table_getter(&self) -> (out: Option<String>)
        requires
            self@.typ.is_flat(),
        ensures
            out.deep_view() == self@.table_getter(),
    {
        if !self.has_getter() {
            return None;
        }
        let raw = self.raw_getter_return_type();
        let return_type = if self.is_version_dependent() {
            String::from_str("Option<").concat(raw.as_str()).concat(">")
        } else {
            raw
        };
        let range_stmt = self.getter_range_stmt();
        let read_stmt = self.table_read_stmt();
        let docs = emit_docs(&self.attrs.docs);
        let offset_getter = match self.typed_offset_field_getter() {
            Some(getter) => getter,
            None => String::from_str(""),
        };
        Some(
            docs.concat("pub fn ").concat(self.name.as_str()).concat("(&self) -> ").concat(
                return_type.as_str(),
            ).concat(" {\n").concat("let range = ").concat(range_stmt.as_str()).concat(";\n").concat(
                read_stmt.as_str(),
            ).concat("\n}\n").concat(offset_getter.as_str()),
        )
    }

    /// The accessor of the field on a record.
    pub fn record_getter(&self) -> (out: Option<String>)
        requires
            self@.typ.is_flat(),
        ensures
            out.deep_view() == self@.record_getter(),
    {
        if !self.has_getter() {
            return None;
        }
        let docs = emit_docs(&self.attrs.docs);
        let return_type = self.raw_getter_return_type();
        let borrow = if matches!(self.typ, FieldType::Other { .. } | FieldType::ComputedArray { .. }) {
            "&"
        } else {
            ""
        };
        let getter_expr = match &self.typ {
            FieldType::Scalar { .. } | FieldType::Offset { .. } => String::from_str("self.").concat(
                self.name.as_str(),
            ).concat(".get()"),
            FieldType::Other { .. } | FieldType::ComputedArray { .. } => String::from_str(
                "&self.",
            ).concat(self.name.as_str()),
            FieldType::Array { .. } => String::from_str("self.").concat(self.name.as_str()),
        };
        Some(
            docs.concat("pub fn ").concat(self.name.as_str()).concat("(&self) -> ").concat(
                borrow,
            ).concat(return_type.as_str()).concat(" {\n").concat(getter_expr.as_str()).concat(
                "\n}\n",
            ),
        )
    }

    /// The field's arguments as the validator passes them on.
    fn validation_args(&self) -> (out: String)
        ensures
            out@ == self@.validation_args(),
    {
        match &self.attrs.read_with_args {
            Some(args) => args.to_tokens_for_validation(),
            None => String::from_str(""),
        }
    }

    /// The size of one element of the field.
    fn element_size_expr(&self) -> (out: String)
        requires
            self@.typ.is_flat(),
        ensures
            out@ == self@.element_size_expr(),
    {
        proof {
            reveal_with_fuel(field_type_view, 2);
        }
        match &self.typ {
            FieldType::Array { inner_typ } => String::from_str(
                inner_typ.cooked_type_tokens().as_str(),
            ).concat("::RAW_BYTE_LEN"),
            FieldType::ComputedArray(array) => {
                let read_args = self.validation_args();
                String::from_str("<").concat(array.inner.as_str()).concat(
                    " as ComputeSize>::compute_size(&",
                ).concat(read_args.as_str()).concat(")")
            },
            _ => String::from_str(""),
        }
    }

    /// The length of the field in bytes as an expression over the
    /// fields read before it, if the field has a computed length.
    pub fn computed_len_expr(&self) -> (out: Option<String>)
        requires
            self@.typ.is_flat(),
            self@.len_is_stated(),
        ensures
            out.deep_view() == self@.computed_len_expr(),
            out is None <==> !self@.has_computed_len(),
    {
        self.validated_len_expr()
    }

    /// The length that the validator records for the field.
    pub fn validated_len_expr(&self) -> (out: Option<String>)
        requires
            self@.typ.is_flat(),
        ensures
            out.deep_view() == self@.validated_len_expr(),
    {
        if !self.has_computed_len() {
            return None;
        }
        match &self.typ {
            FieldType::Other { typ } => {
                let read_args = self.validation_args();
                Some(
                    String::from_str("<").concat(typ.as_str()).concat(
                        " as ComputeSize>::compute_size(&",
                    ).concat(read_args.as_str()).concat(")"),
                )
            },
            _ => match &self.attrs.len {
                Some(expr) => Some(expr.validation_text()),
                None => match (&self.typ, &self.attrs.count) {
                    (_, Some(count)) => {
                        let size_expr = self.element_size_expr();
                        let count_expr = count.count_expr(size_expr.as_str());
                        Some(count_expr.concat(" * ").concat(size_expr.as_str()))
                    },
                    (_, None) => None,
                },
            },
        }
    }

    /// The length of the field in a record.
    pub fn record_len_expr(&self) -> (out: String)
        requires
            self@.lowerable(),
        ensures
            out@ == self@.record_len_expr(),
    {
        match self.validated_len_expr() {
            Some(len) => len,
            None => String::from_str(self.typ.cooked_type_tokens().as_str()).concat(
                "::RAW_BYTE_LEN",
            ),
        }
    }

    /// How a record's reader fills the field.
    pub fn record_init_stmt(&self) -> (out: String)
        requires
            self@.lowerable(),
        ensures
            out@ == self@.record_init_stmt(),
    {
        let rhs = match &self.typ {
            FieldType::Array { .. } => {
                let len_expr = self.validated_len_expr().unwrap();
                String::from_str("cursor.read_array(").concat(len_expr.as_str()).concat(")?")
            },
            FieldType::ComputedArray(_) => {
                let args = self.validation_args();
                let size_expr = self.element_size_expr();
                let count = match &self.attrs.count {
                    Some(count) => count.count_expr(size_expr.as_str()),
                    None => {
                        assert(false);
                        vstd::pervasive::unreached()
                    },
                };
                String::from_str("cursor.read_computed_array(").concat(count.as_str()).concat(
                    ", &",
                ).concat(args.as_str()).concat(")?")
            },
            _ => match &self.attrs.read_with_args {
                Some(args) => {
                    let args = args.to_tokens_for_validation();
                    String::from_str("cursor.read_with_args(&").concat(args.as_str()).concat(")?")
                },
                None => String::from_str("cursor.read()?"),
            },
        };
        String::from_str(self.name.as_str()).concat(": ").concat(rhs.as_str())
    }

    /// The step of the validator for this field.
    pub fn field_parse_validation_stmts(&self) -> (out: String)
        requires
            self@.lowerable(),
        ensures
            out@ == self@.field_parse_validation_stmts(),
    {
        let computed_len = self.validated_len_expr();
        // handle the trivial case
        if !self.read_at_parse_time && computed_len.is_none() && !self.validate_at_parse()
            && !self.is_version_dependent() {
            let typ = self.typ.cooked_type_tokens();
            return String::from_str("cursor.advance::<").concat(typ.as_str()).concat(">();\n");
        }
        let versioned_field_start = match self.attrs.available {
            Some(version) => {
                let field_start_name = self.shape_byte_start_field_name();
                let version = u32_to_decimal(version);
                String::from_str("let ").concat(field_start_name.as_str()).concat(
                    " = version.compatible(",
                ).concat(version.as_str()).concat(").then(|| cursor.position()).transpose()?;\n")
            },
            None => String::from_str(""),
        };
        let other_stuff = match computed_len {
            Some(len_expr) => {
                let len_field_name = self.shape_byte_len_field_name();
                match self.attrs.available {
                    Some(version) => {
                        let version = u32_to_decimal(version);
                        String::from_str("let ").concat(len_field_name.as_str()).concat(
                            " = version.compatible(",
                        ).concat(version.as_str()).concat(").then(|| ").concat(
                            len_expr.as_str(),
                        ).concat(");\n").concat(len_field_name.as_str()).concat(
                            ".map(|value| cursor.advance_by(value));\n",
                        )
                    },
                    None => String::from_str("let ").concat(len_field_name.as_str()).concat(
                        " = ",
                    ).concat(len_expr.as_str()).concat(";\n").concat("cursor.advance_by(").concat(
                        len_field_name.as_str(),
                    ).concat(");\n"),
                }
            },
            None => {
                let typ = self.typ.cooked_type_tokens();
                match self.attrs.available {
                    Some(version) => {
                        let version = u32_to_decimal(version);
                        String::from_str("version.compatible(").concat(version.as_str()).concat(
                            ").then(|| cursor.advance::<",
                        ).concat(typ.as_str()).concat(">());\n")
                    },
                    None => String::from_str("let ").concat(self.name.as_str()).concat(": ").concat(
                        typ.as_str(),
                    ).concat(" = cursor.read()?;\n"),
                }
            },
        };
        versioned_field_start.concat(other_stuff.as_str())
    }
}

impl FieldView {
    /// A field that meets every rule can be lowered.
    pub proof fn lemma_sane_is_lowerable(self)
        requires
            self.sane(),
        ensures
            self.lowerable(),
    {
        assert(!self.breaks(FieldRule::NestedArray));
        assert(!self.breaks(FieldRule::ArrayWithoutLength));
        assert(!self.breaks(FieldRule::ComputedArrayWithoutCount));
        assert(!self.breaks(FieldRule::ComputedArrayWithoutArgs));
        assert(!self.breaks(FieldRule::CountOnWrongType));
        assert(!self.breaks(FieldRule::FormatOnArray));
    }
}

} // verus!
