//! What the compile module holds for one field: its declaration in the
//! owned table, how it is written, and how it is validated.

use crate::parsing::{Expr, ExprView, Field, FieldType, FieldTypeView, FieldView, Op};
use crate::fields_parse::{doc_lines, emit_docs};
use crate::text::{decimal, u32_to_decimal};
use vstd::prelude::*;

verus! {

impl Op {
    /// The operator as Rust writes it.
    pub open spec fn spec_symbol(self) -> Seq<char> {
        match self {
            Op::Add => "+"@,
            Op::Sub => "-"@,
            Op::Mul => "*"@,
        }
    }

    /// The operator as Rust writes it.
    pub fn symbol(self) -> (symbol: &'static str)
        ensures
            symbol@ == self.spec_symbol(),
    {
        match self {
            Op::Add => "+",
            Op::Sub => "-",
            Op::Mul => "*",
        }
    }
}

impl ExprView {
    /// The expression over the fields of the owned table. Its value is
    /// absent where an operation leaves the range of `usize`.
    pub open spec fn compile_text(self) -> Seq<char>
        decreases self,
    {
        match self {
            ExprView::Field(name) => "Some(self."@ + name + " as usize)"@,
            ExprView::Literal(value) => "Some("@ + decimal(value as nat) + ")"@,
            ExprView::Call { op, lhs, rhs } => "checked_"@ + op.spec_name() + "("@
                + lhs.compile_text() + ", "@ + rhs.compile_text() + ")"@,
        }
    }

    /// The expression as a constant, for one that names no field.
    pub open spec fn const_text(self) -> Seq<char>
        decreases self,
    {
        match self {
            ExprView::Field(name) => name,
            ExprView::Literal(value) => decimal(value as nat),
            ExprView::Call { op, lhs, rhs } => "("@ + lhs.const_text() + " "@ + op.spec_symbol()
                + " "@ + rhs.const_text() + ")"@,
        }
    }

    /// Whether the expression names a field.
    pub open spec fn names_a_field(self) -> bool
        decreases self,
    {
        match self {
            ExprView::Field(_) => true,
            ExprView::Literal(_) => false,
            ExprView::Call { op, lhs, rhs } => lhs.names_a_field() || rhs.names_a_field(),
        }
    }

    /// An expression names a field exactly when the list of the fields
    /// that it names is not empty.
    pub proof fn lemma_names_a_field(self)
        ensures
            self.names_a_field() <==> self.referenced_fields().len() > 0,
        decreases self,
    {
        match self {
            ExprView::Call { op, lhs, rhs } => {
                lhs.lemma_names_a_field();
                rhs.lemma_names_a_field();
            },
            _ => {},
        }
    }
}

impl Expr {
    /// The expression over the fields of the owned table.
    pub fn compile_text(&self) -> (out: String)
        ensures
            out@ == self@.compile_text(),
        decreases self,
    {
        match self {
            Expr::Field(name) => String::from_str("Some(self.").concat(name.as_str()).concat(
                " as usize)",
            ),
            Expr::Literal(value) => {
                let value = u32_to_decimal(*value);
                String::from_str("Some(").concat(value.as_str()).concat(")")
            },
            Expr::Call { op, lhs, rhs } => {
                let left = lhs.compile_text();
                let right = rhs.compile_text();
                String::from_str("checked_").concat(op.name()).concat("(").concat(
                    left.as_str(),
                ).concat(", ").concat(right.as_str()).concat(")")
            },
        }
    }

    /// The expression as a constant.
    pub fn const_text(&self) -> (out: String)
        ensures
            out@ == self@.const_text(),
        decreases self,
    {
        match self {
            Expr::Field(name) => name.clone(),
            Expr::Literal(value) => u32_to_decimal(*value),
            Expr::Call { op, lhs, rhs } => {
                let left = lhs.const_text();
                let right = rhs.const_text();
                String::from_str("(").concat(left.as_str()).concat(" ").concat(op.symbol()).concat(
                    " ",
                ).concat(right.as_str()).concat(")")
            },
        }
    }

    /// Whether the expression names a field.
    pub fn names_a_field(&self) -> (r: bool)
        ensures
            r == self@.names_a_field(),
        decreases self,
    {
        match self {
            Expr::Field(_) => true,
            Expr::Literal(_) => false,
            Expr::Call { op, lhs, rhs } => lhs.names_a_field() || rhs.names_a_field(),
        }
    }
}

impl FieldTypeView {
    /// The type that the owned table holds for a field of this type.
    /// Offsets become markers that own their target, and arrays become
    /// vectors.
    pub open spec fn compile_type(self, nullable: bool) -> Seq<char>
        decreases self,
    {
        match self {
            FieldTypeView::Scalar { typ } => typ,
            FieldTypeView::Other { typ } => typ,
            FieldTypeView::Offset { typ, target } => (if nullable {
                "NullableOffsetMarker<"@
            } else {
                "OffsetMarker<"@
            }) + typ + ", "@ + (match target {
                Some(target) => target,
                None => "Box<dyn FontWrite>"@,
            }) + ">"@,
            FieldTypeView::Array { inner_typ } => "Vec<"@ + inner_typ.compile_type(nullable) + ">"@,
            FieldTypeView::ComputedArray(array) => "Vec<"@ + array.inner + ">"@,
        }
    }
}

impl FieldType {
    /// The type that the owned table holds for a field of this type.
    pub fn compile_type(&self, nullable: bool) -> (out: String)
        ensures
            out@ == self@.compile_type(nullable),
        decreases self,
    {
        match self {
            FieldType::Scalar { typ } => typ.clone(),
            FieldType::Other { typ } => typ.clone(),
            FieldType::Offset { typ, target } => {
                let marker = if nullable {
                    "NullableOffsetMarker<"
                } else {
                    "OffsetMarker<"
                };
                let target = match target {
                    Some(target) => target.as_str(),
                    None => "Box<dyn FontWrite>",
                };
                String::from_str(marker).concat(typ.as_str()).concat(", ").concat(target).concat(">")
            },
            FieldType::Array { inner_typ } => {
                let inner_tokens = inner_typ.compile_type(nullable);
                String::from_str("Vec<").concat(inner_tokens.as_str()).concat(">")
            },
            FieldType::ComputedArray(array) => String::from_str("Vec<").concat(
                array.inner.as_str(),
            ).concat(">"),
        }
    }
}

impl FieldView {
    /// The type of the field in the owned table: what the schema asks
    /// for, or else what follows from the field's type.
    pub open spec fn owned_type(self) -> Seq<char> {
        match self.attrs.compile_type {
            Some(typ) => typ,
            None => self.typ.compile_type(self.is_nullable()),
        }
    }

    /// The declaration of the field in the owned table. A field whose
    /// value is made when the table is written has none.
    pub open spec fn compile_field_decl(self) -> Option<Seq<char>> {
        if self.is_computed() {
            None
        } else {
            Some(doc_lines(self.attrs.docs) + "pub "@ + self.name + ": "@ + self.owned_type())
        }
    }

    /// `value` as a value of the field's type, where that type has a
    /// name.
    pub open spec fn as_field_type(self, value: Seq<char>) -> Seq<char> {
        if self.typ.has_cooked_type() {
            "("@ + value + " as "@ + self.typ.cooked_type() + ")"@
        } else {
            value
        }
    }

    /// How the field is written: a `format` field as its literal,
    /// whatever else the field carries; a `compile` field as the value
    /// of its expression; and any other field as the owned table holds
    /// it. The value of an expression that names a field may be
    /// absent: then nothing is written and the writer is told that the
    /// write has failed.
    pub open spec fn compile_write_stmt(self) -> Seq<char> {
        match self.attrs.format {
            Some(format) => "("@ + decimal(format as nat) + " as "@ + self.typ.cooked_type()
                + ").write_into(writer)"@,
            None => match self.attrs.compile {
                Some(computed) => if computed.names_a_field() {
                    "match "@ + computed.compile_text() + " {\nSome(value) => "@
                        + self.as_field_type("value"@) + ".write_into(writer),\n"@
                        + "None => writer.fail(\"computed value is absent\"),\n}"@
                } else {
                    self.as_field_type(computed.const_text()) + ".write_into(writer)"@
                },
                None => "self."@ + self.name + ".write_into(writer)"@,
            },
        }
    }

    /// The check that the value of a `compile` expression is there. Only
    /// an expression that names a field can lack its value.
    pub open spec fn compile_presence_check(self) -> Seq<char> {
        match self.attrs.compile {
            Some(computed) => if computed.names_a_field() && self.attrs.format is None {
                "if "@ + computed.compile_text() + ".is_none() {\n"@
                    + "ctx.report(\"computed value is absent\");\n"@ + "}\n"@
            } else {
                ""@
            },
            None => ""@,
        }
    }

    /// The validation of the field's own value, for the fields that get
    /// one.
    pub open spec fn recursive_validation_stmt(self) -> Seq<char> {
        if self.typ.gets_recursive_validation() {
            "self."@ + self.name + ".validate_impl(ctx);\n"@
        } else {
            ""@
        }
    }

    /// The check that an array is no longer than the scalar that holds
    /// its length can say. `typ` is the type of that scalar.
    pub open spec fn array_len_check(self, typ: Seq<char>) -> Seq<char> {
        "if self."@ + self.name + ".len() > ("@ + typ + "::MAX as usize) {\n"@
            + "ctx.report(\"array excedes max length\");\n"@ + "}\n"@
    }

    /// The checks wrapped so that what they report is reported under
    /// the field's name; nothing where there is no check.
    pub open spec fn in_field(self, checks: Seq<char>) -> Seq<char> {
        if checks.len() == 0 {
            ""@
        } else {
            "ctx.in_field(\""@ + self.name + "\", |ctx| {\n"@ + checks + "});\n"@
        }
    }
}

impl Field {
    /// The type of the field in the owned table.
    pub fn owned_type(&self) -> (out: String)
        ensures
            out@ == self@.owned_type(),
    {
        if let Some(typ) = &self.attrs.compile_type {
            return typ.clone();
        }
        self.typ.compile_type(self.is_nullable())
    }

    /// The declaration of the field in the owned table; `None` if this
    /// field's value is computed at compile time.
    pub fn compile_field_decl(&self) -> (out: Option<String>)
        ensures
            out.deep_view() == self@.compile_field_decl(),
    {
        if self.is_computed() {
            return None;
        }
        let docs = emit_docs(&self.attrs.docs);
        let typ = self.owned_type();
        Some(docs.concat("pub ").concat(self.name.as_str()).concat(": ").concat(typ.as_str()))
    }

    /// `value` as a value of the field's type, where that type has a
    /// name.
    fn as_field_type(&self, value: &str) -> (out: String)
        ensures
            out@ == self@.as_field_type(value@),
    {
        match &self.typ {
            FieldType::Array { .. } | FieldType::ComputedArray(_) => String::from_str(value),
            _ => {
                let typ = self.typ.cooked_type_tokens();
                String::from_str("(").concat(value).concat(" as ").concat(typ.as_str()).concat(")")
            },
        }
    }

    /// How the field is written. A `format` takes precedence over a
    /// `compile` expression.
    pub fn compile_write_stmt(&self) -> (out: String)
        requires
            self@.attrs.format is Some ==> self@.typ.has_cooked_type(),
        ensures
            out@ == self@.compile_write_stmt(),
    {
        if let Some(format) = self.attrs.format {
            let typ = self.typ.cooked_type_tokens();
            let format = u32_to_decimal(format);
            String::from_str("(").concat(format.as_str()).concat(" as ").concat(typ.as_str()).concat(
                ").write_into(writer)",
            )
        } else if let Some(computed) = &self.attrs.compile {
            if computed.names_a_field() {
                let expr = computed.compile_text();
                let value = self.as_field_type("value");
                String::from_str("match ").concat(expr.as_str()).concat(
                    " {\nSome(value) => ",
                ).concat(value.as_str()).concat(".write_into(writer),\n").concat(
                    "None => writer.fail(\"computed value is absent\"),\n}",
                )
            } else {
                let expr = computed.const_text();
                self.as_field_type(expr.as_str()).concat(".write_into(writer)")
            }
        } else {
            String::from_str("self.").concat(self.name.as_str()).concat(".write_into(writer)")
        }
    }

    /// The check that the value of a `compile` expression is there.
    pub fn compile_presence_check(&self) -> (out: String)
        ensures
            out@ == self@.compile_presence_check(),
    {
        match &self.attrs.compile {
            Some(computed) => if computed.names_a_field() && self.attrs.format.is_none() {
                let expr = computed.compile_text();
                String::from_str("if ").concat(expr.as_str()).concat(".is_none() {\n").concat(
                    "ctx.report(\"computed value is absent\");\n",
                ).concat("}\n")
            } else {
                String::from_str("")
            },
            None => String::from_str(""),
        }
    }

    /// The validation of the field's own value.
    pub fn recursive_validation_stmt(&self) -> (out: String)
        ensures
            out@ == self@.recursive_validation_stmt(),
    {
        if self.gets_recursive_validation() {
            String::from_str("self.").concat(self.name.as_str()).concat(".validate_impl(ctx);\n")
        } else {
            String::from_str("")
        }
    }

    /// The check that an array is no longer than the scalar that holds
    /// its length can say.
    pub fn array_len_check(&self, typ: &str) -> (out: String)
        ensures
            out@ == self@.array_len_check(typ@),
    {
        String::from_str("if self.").concat(self.name.as_str()).concat(".len() > (").concat(
            typ,
        ).concat("::MAX as usize) {\n").concat("ctx.report(\"array excedes max length\");\n").concat(
            "}\n",
        )
    }

    /// The checks wrapped so that what they report is reported under
    /// the field's name.
    pub fn in_field(&self, checks: &str) -> (out: String)
        ensures
            out@ == self@.in_field(checks@),
    {
        if checks.unicode_len() == 0 {
            String::from_str("")
        } else {
            String::from_str("ctx.in_field(\"").concat(self.name.as_str()).concat(
                "\", |ctx| {\n",
            ).concat(checks).concat("});\n")
        }
    }
}

} // verus!
