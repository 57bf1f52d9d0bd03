//! What each field contributes to the parts of an emitted item, and the
//! parts themselves: one piece for each field, in declaration order.

use crate::fields_parse::{doc_lines, emit_docs};
use crate::parsing::{Field, FieldType, FieldView, Fields, FieldsView};
use crate::fields::{version_name, version_name_text};
use crate::fields_list::{find_field, lookup};
use crate::text::concat_all;
use vstd::prelude::*;

verus! {

/// The parts of an emitted item that are made field by field.
#[derive(Debug, Clone, Copy, PartialEq, Eq, Structural)]
pub enum Part {
    /// the fields of a record
    RecordFields,
    /// the accessors of a record
    RecordGetters,
    /// the terms of a record's length
    RecordLen,
    /// the fields as a record's reader fills them
    RecordInits,
    /// the fields of a table's shape
    ShapeFields,
    /// the fields of the shape as the validator hands them over
    ShapeInits,
    /// the functions of the shape that give the byte ranges
    ByteRanges,
    /// the steps of the validator
    Validation,
    /// the accessors of a table
    TableGetters,
    /// the fields of the owned table
    CompileFields,
    /// the statements that write the owned table
    WriteStmts,
    /// the statements that validate the owned table
    Validate,
}

impl FieldView {
    /// Whether the field is an array or a computed array.
    pub open spec fn holds_array(self) -> bool {
        self.is_array() || self.is_computed_array()
    }

    /// Whether the shape of a table records the length of the field: it
    /// does for every field whose length the validator computes.
    pub open spec fn has_shape_len(self) -> bool {
        self.validated_len_expr() is Some
    }

    /// The declaration of the field in a record.
    pub open spec fn record_field(self) -> Seq<char> {
        doc_lines(self.attrs.docs) + "pub "@ + self.name + ": "@ + self.type_for_record() + ",\n"@
    }

    /// What the shape of a table holds for the field: the start of a
    /// versioned field, and the length of a field of computed length.
    pub open spec fn shape_fields(self) -> Seq<char> {
        (if self.is_version_dependent() {
            self.shape_byte_start_field_name() + ": Option<usize>,\n"@
        } else {
            ""@
        }) + (if self.has_shape_len() {
            self.shape_byte_len_field_name() + (if self.is_version_dependent() {
                ": Option<usize>,\n"@
            } else {
                ": usize,\n"@
            })
        } else {
            ""@
        })
    }

    /// The names under which the validator hands the shape what it
    /// holds for the field.
    pub open spec fn shape_inits(self) -> Seq<char> {
        (if self.is_version_dependent() {
            self.shape_byte_start_field_name() + ",\n"@
        } else {
            ""@
        }) + (if self.has_shape_len() {
            self.shape_byte_len_field_name() + ",\n"@
        } else {
            ""@
        })
    }

    /// The length of the field as its byte range has it: what the
    /// shape holds, where it holds the field's length, and else the
    /// size of the field's type.
    pub open spec fn range_len_expr(self) -> Seq<char> {
        if self.has_shape_len() {
            "self."@ + self.shape_byte_len_field_name()
        } else {
            self.typ.cooked_type() + "::RAW_BYTE_LEN"@
        }
    }

    /// The function of the shape that gives the byte range of the
    /// field, which starts at `start`. A versioned field has a range
    /// only where the shape holds its start.
    pub open spec fn byte_range_fn(self, start: Seq<char>) -> Seq<char> {
        if self.is_version_dependent() {
            "fn "@ + self.shape_byte_range_fn_name() + "(&self) -> Option<Range<usize>> {\n"@
                + "let start = self."@ + self.shape_byte_start_field_name() + "?;\n"@
                + "Some(start..start + "@ + self.range_len_expr() + (if self.has_shape_len() {
                "?"@
            } else {
                ""@
            }) + ")\n}\n"@
        } else {
            "fn "@ + self.shape_byte_range_fn_name() + "(&self) -> Range<usize> {\n"@
                + "let start = "@ + start + ";\n"@ + "start..start + "@ + self.range_len_expr()
                + "\n}\n"@
        }
    }

    /// Where the field ends, given where the fields before it end.
    pub open spec fn end_expr(self, before: Seq<char>) -> Seq<char> {
        if self.is_version_dependent() {
            "self."@ + self.shape_byte_range_fn_name() + "().map(|range| range.end).unwrap_or("@
                + before + ")"@
        } else {
            "self."@ + self.shape_byte_range_fn_name() + "().end"@
        }
    }
}

impl FieldsView {
    /// Where the first `i` fields end: at the end of the last of them
    /// that is there.
    pub open spec fn end_expr(self, i: int) -> Seq<char>
        decreases i,
    {
        if i <= 0 {
            "0"@
        } else {
            self.fields[i - 1].end_expr(self.end_expr(i - 1))
        }
    }

    /// Whether some field is there only from some version on.
    pub open spec fn versioned(self) -> bool {
        exists|j: int| 0 <= j < self.fields.len() && (#[trigger] self.fields[j]).is_version_dependent()
    }

    /// Whether field `i` is what the versioned fields are decided by:
    /// the first field that is named `version`, in an item that has
    /// versioned fields. It is a field of fixed size that is there in
    /// every version.
    pub open spec fn is_version_source(self, i: int) -> bool {
        self.versioned() && self.fields[i].name == version_name() && lookup(
            self.fields,
            i,
            version_name(),
        ) is None && !self.fields[i].is_version_dependent()
            && self.fields[i].validated_len_expr() is None
    }

    /// The step of the validator for field `i`: the field's own step,
    /// but that the field that the versioned fields are decided by is
    /// read into a local, whether or not a length or an argument names
    /// it.
    pub open spec fn validation_step(self, i: int) -> Seq<char> {
        let f = self.fields[i];
        if self.is_version_source(i) {
            "let "@ + f.name + ": "@ + f.typ.cooked_type() + " = cursor.read()?;\n"@
        } else {
            f.field_parse_validation_stmts()
        }
    }

    /// What field `i` gives to `part`.
    pub open spec fn piece(self, part: Part, i: int) -> Seq<char> {
        let f = self.fields[i];
        match part {
            Part::RecordFields => f.record_field(),
            Part::RecordGetters => match f.record_getter() {
                Some(getter) => getter,
                None => ""@,
            },
            Part::RecordLen => " + "@ + f.record_len_expr(),
            Part::RecordInits => f.record_init_stmt() + ",\n"@,
            Part::ShapeFields => f.shape_fields(),
            Part::ShapeInits => f.shape_inits(),
            Part::ByteRanges => f.byte_range_fn(self.end_expr(i)),
            Part::Validation => self.validation_step(i),
            Part::TableGetters => match f.table_getter() {
                Some(getter) => getter,
                None => ""@,
            },
            Part::CompileFields => match f.compile_field_decl() {
                Some(decl) => decl + ",\n"@,
                None => ""@,
            },
            Part::WriteStmts => f.compile_write_stmt() + ";\n"@,
            Part::Validate => self.compilation_validation_stmt(i),
        }
    }

    /// `part` as the fields make it: what each field gives, in
    /// declaration order.
    pub open spec fn part(self, part: Part) -> Seq<char> {
        Seq::new(self.fields.len(), |i: int| self.piece(part, i)).flatten()
    }

    /// Whether a field is an array, so that what holds the fields
    /// borrows from the font data.
    pub open spec fn borrows(self) -> bool {
        exists|i: int| 0 <= i < self.fields.len() && (#[trigger] self.fields[i]).holds_array()
    }
}

impl Field {
    /// The declaration of the field in a record.
    pub fn record_field(&self) -> (out: String)
        requires
            self@.typ.is_flat(),
        ensures
            out@ == self@.record_field(),
    {
        let docs = emit_docs(&self.attrs.docs);
        let typ = self.type_for_record();
        docs.concat("pub ").concat(self.name.as_str()).concat(": ").concat(typ.as_str()).concat(
            ",\n",
        )
    }

    /// What the shape of a table holds for the field.
    pub fn shape_fields(&self) -> (out: String)
        requires
            self@.typ.is_flat(),
        ensures
            out@ == self@.shape_fields(),
    {
        let versioned = self.is_version_dependent();
        let start = if versioned {
            self.shape_byte_start_field_name().concat(": Option<usize>,\n")
        } else {
            String::from_str("")
        };
        let len = if self.validated_len_expr().is_some() {
            self.shape_byte_len_field_name().concat(
                if versioned {
                    ": Option<usize>,\n"
                } else {
                    ": usize,\n"
                },
            )
        } else {
            String::from_str("")
        };
        start.concat(len.as_str())
    }

    /// The names under which the validator hands the shape what it
    /// holds for the field.
    pub fn shape_inits(&self) -> (out: String)
        requires
            self@.typ.is_flat(),
        ensures
            out@ == self@.shape_inits(),
    {
        let start = if self.is_version_dependent() {
            self.shape_byte_start_field_name().concat(",\n")
        } else {
            String::from_str("")
        };
        let len = if self.validated_len_expr().is_some() {
            self.shape_byte_len_field_name().concat(",\n")
        } else {
            String::from_str("")
        };
        start.concat(len.as_str())
    }

    /// The length of the field as its byte range has it.
    pub fn range_len_expr(&self) -> (out: String)
        requires
            self@.lowerable(),
        ensures
            out@ == self@.range_len_expr(),
    {
        if self.validated_len_expr().is_some() {
            String::from_str("self.").concat(self.shape_byte_len_field_name().as_str())
        } else {
            String::from_str(self.typ.cooked_type_tokens().as_str()).concat("::RAW_BYTE_LEN")
        }
    }

    /// The function of the shape that gives the byte range of the field.
    pub fn byte_range_fn(&self, start: &str) -> (out: String)
        requires
            self@.lowerable(),
        ensures
            out@ == self@.byte_range_fn(start@),
    {
        let name = self.shape_byte_range_fn_name();
        let len = self.range_len_expr();
        if self.is_version_dependent() {
            let start_name = self.shape_byte_start_field_name();
            let try_op = if self.validated_len_expr().is_some() {
                "?"
            } else {
                ""
            };
            String::from_str("fn ").concat(name.as_str()).concat(
                "(&self) -> Option<Range<usize>> {\n",
            ).concat("let start = self.").concat(start_name.as_str()).concat("?;\n").concat(
                "Some(start..start + ",
            ).concat(len.as_str()).concat(try_op).concat(")\n}\n")
        } else {
            String::from_str("fn ").concat(name.as_str()).concat("(&self) -> Range<usize> {\n").concat(
                "let start = ",
            ).concat(start).concat(";\n").concat("start..start + ").concat(len.as_str()).concat(
                "\n}\n",
            )
        }
    }

    /// Where the field ends, given where the fields before it end.
    pub fn end_expr(&self, before: &str) -> (out: String)
        ensures
            out@ == self@.end_expr(before@),
    {
        let name = self.shape_byte_range_fn_name();
        if self.is_version_dependent() {
            String::from_str("self.").concat(name.as_str()).concat(
                "().map(|range| range.end).unwrap_or(",
            ).concat(before).concat(")")
        } else {
            String::from_str("self.").concat(name.as_str()).concat("().end")
        }
    }
}

impl Fields {
    /// Where the first `i` fields end.
    pub fn end_expr(&self, i: usize) -> (out: String)
        requires
            i <= self.fields.len(),
        ensures
            out@ == self@.end_expr(i as int),
    {
        let mut out = String::from_str("0");
        let mut k: usize = 0;
        while k < i
            invariant
                k <= i <= self.fields.len(),
                out@ == self@.end_expr(k as int),
            decreases i - k,
        {
            out = self.fields[k].end_expr(out.as_str());
            k += 1;
        }
        out
    }

    /// Whether some field is there only from some version on.
    pub fn versioned(&self) -> (r: bool)
        ensures
            r == self@.versioned(),
    {
        let mut j: usize = 0;
        while j < self.fields.len()
            invariant
                j <= self.fields.len(),
                forall|k: int| 0 <= k < j ==> !(#[trigger] self@.fields[k]).is_version_dependent(),
            decreases self.fields.len() - j,
        {
            if self.fields[j].is_version_dependent() {
                assert(self@.fields[j as int].is_version_dependent());
                return true;
            }
            j += 1;
        }
        false
    }

    /// Whether field `i` is what the versioned fields are decided by.
    pub fn is_version_source(&self, i: usize) -> (r: bool)
        requires
            i < self.fields.len(),
            self@.fields[i as int].typ.is_flat(),
        ensures
            r == self@.is_version_source(i as int),
    {
        let version = version_name_text();
        let f = &self.fields[i];
        assert(f@ == self@.fields[i as int]);
        self.versioned() && f.name == version && find_field(&self.fields, i, &version).is_none()
            && !f.is_version_dependent() && f.validated_len_expr().is_none()
    }

    /// The step of the validator for field `i`.
    pub fn validation_step(&self, i: usize) -> (out: String)
        requires
            i < self.fields.len(),
            self@.fields[i as int].lowerable(),
        ensures
            out@ == self@.validation_step(i as int),
    {
        let f = &self.fields[i];
        assert(f@ == self@.fields[i as int]);
        if self.is_version_source(i) {
            let typ = f.typ.cooked_type_tokens();
            String::from_str("let ").concat(f.name.as_str()).concat(": ").concat(
                typ.as_str(),
            ).concat(" = cursor.read()?;\n")
        } else {
            f.field_parse_validation_stmts()
        }
    }

    /// What field `i` gives to `part`.
    pub fn piece(&self, part: Part, i: usize) -> (out: String)
        requires
            i < self.fields.len(),
            self@.lowerable(),
        ensures
            out@ == self@.piece(part, i as int),
    {
        let f = &self.fields[i];
        assert(self@.fields[i as int].lowerable());
        match part {
            Part::RecordFields => f.record_field(),
            Part::RecordGetters => match f.record_getter() {
                Some(getter) => getter,
                None => String::from_str(""),
            },
            Part::RecordLen => {
                let len = f.record_len_expr();
                String::from_str(" + ").concat(len.as_str())
            },
            Part::RecordInits => f.record_init_stmt().concat(",\n"),
            Part::ShapeFields => f.shape_fields(),
            Part::ShapeInits => f.shape_inits(),
            Part::ByteRanges => {
                let start = self.end_expr(i);
                f.byte_range_fn(start.as_str())
            },
            Part::Validation => self.validation_step(i),
            Part::TableGetters => match f.table_getter() {
                Some(getter) => getter,
                None => String::from_str(""),
            },
            Part::CompileFields => match f.compile_field_decl() {
                Some(decl) => decl.concat(",\n"),
                None => String::from_str(""),
            },
            Part::WriteStmts => f.compile_write_stmt().concat(";\n"),
            Part::Validate => self.compilation_validation_stmt(i),
        }
    }

    /// `part` as the fields make it.
    pub fn part(&self, part: Part) -> (out: String)
        requires
            self@.lowerable(),
        ensures
            out@ == self@.part(part),
    {
        let mut pieces: Vec<String> = Vec::new();
        let ghost all = Seq::new(self@.fields.len(), |i: int| self@.piece(part, i));
        let mut i: usize = 0;
        while i < self.fields.len()
            invariant
                i <= self.fields.len(),
                self@.lowerable(),
                all == Seq::new(self@.fields.len(), |i: int| self@.piece(part, i)),
                pieces.deep_view() == all.take(i as int),
            decreases self.fields.len() - i,
        {
            let piece = self.piece(part, i);
            let ghost before = pieces.deep_view();
            pieces.push(piece);
            assert(pieces.deep_view() =~= before.push(all[i as int]));
            assert(all.take(i + 1) =~= before.push(all[i as int]));
            i += 1;
        }
        assert(all.take(i as int) =~= all);
        concat_all(&pieces)
    }

    /// Whether a field is an array, so that what holds the fields
    /// borrows from the font data.
    pub fn borrows(&self) -> (r: bool)
        ensures
            r == self@.borrows(),
    {
        let mut i: usize = 0;
        while i < self.fields.len()
            invariant
                i <= self.fields.len(),
                forall|k: int| 0 <= k < i ==> !(#[trigger] self@.fields[k]).holds_array(),
            decreases self.fields.len() - i,
        {
            if self.fields[i].is_array() || self.fields[i].is_computed_array() {
                assert(self@.fields[i as int].holds_array());
                return true;
            }
            i += 1;
        }
        false
    }
}

} // verus!
