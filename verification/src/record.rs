//! What is emitted for a record, and for the owned form of a record or
//! a table.

use crate::fields_parse::{doc_lines, emit_docs};
use crate::parsing::{Fields, FieldsView, Record, RecordView, TableReadArgView, TableReadArgs};
use crate::pieces::Part;
use crate::text::{join, join_all};
use vstd::prelude::*;

verus! {

/// The type of the arguments that a reader takes from its caller: the
/// type of the one argument, or the tuple of the types.
pub open spec fn args_type(args: Seq<TableReadArgView>) -> Seq<char> {
    if args.len() == 1 {
        args[0].typ
    } else {
        "("@ + join(args.map_values(|arg: TableReadArgView| arg.typ), ", "@) + ")"@
    }
}

/// The pattern that binds the arguments of a reader: the name of the one
/// argument, or the tuple of the names.
pub open spec fn args_pattern(args: Seq<TableReadArgView>) -> Seq<char> {
    if args.len() == 1 {
        args[0].ident
    } else {
        "("@ + join(args.map_values(|arg: TableReadArgView| arg.ident), ", "@) + ")"@
    }
}

impl TableReadArgs {
    /// The type of the arguments.
    pub fn args_type(&self) -> (out: String)
        ensures
            out@ == args_type(self@),
    {
        if self.args.len() == 1 {
            return self.args[0].typ.clone();
        }
        let mut types: Vec<String> = Vec::new();
        let ghost typ = |arg: TableReadArgView| arg.typ;
        let mut i: usize = 0;
        while i < self.args.len()
            invariant
                i <= self.args.len(),
                typ == |arg: TableReadArgView| arg.typ,
                types.deep_view() == self@.take(i as int).map_values(typ),
            decreases self.args.len() - i,
        {
            let ghost before = types.deep_view();
            types.push(self.args[i].typ.clone());
            assert(types.deep_view() =~= before.push(self@[i as int].typ));
            assert(self@.take(i + 1).map_values(typ) =~= before.push(self@[i as int].typ));
            i += 1;
        }
        assert(self@.take(i as int) =~= self@);
        let list = join_all(&types, ", ");
        String::from_str("(").concat(list.as_str()).concat(")")
    }

    /// The pattern that binds the arguments.
    pub fn args_pattern(&self) -> (out: String)
        ensures
            out@ == args_pattern(self@),
    {
        if self.args.len() == 1 {
            return self.args[0].ident.clone();
        }
        let mut names: Vec<String> = Vec::new();
        let ghost ident = |arg: TableReadArgView| arg.ident;
        let mut i: usize = 0;
        while i < self.args.len()
            invariant
                i <= self.args.len(),
                ident == |arg: TableReadArgView| arg.ident,
                names.deep_view() == self@.take(i as int).map_values(ident),
            decreases self.args.len() - i,
        {
            let ghost before = names.deep_view();
            names.push(self.args[i].ident.clone());
            assert(names.deep_view() =~= before.push(self@[i as int].ident));
            assert(self@.take(i + 1).map_values(ident) =~= before.push(self@[i as int].ident));
            i += 1;
        }
        assert(self@.take(i as int) =~= self@);
        let list = join_all(&names, ", ");
        String::from_str("(").concat(list.as_str()).concat(")")
    }
}

impl FieldsView {
    /// The lifetime that an item with these fields carries: that of the
    /// font data where a field is an array, and none else.
    pub open spec fn lifetime(self) -> Seq<char> {
        if self.borrows() {
            "<'a>"@
        } else {
            ""@
        }
    }

    /// The length of a record with these fields: the sum of the lengths
    /// of the fields.
    pub open spec fn record_len(self) -> Seq<char> {
        "0"@ + self.part(Part::RecordLen)
    }

    /// The owned form of an item with these fields: the struct that holds
    /// what is not computed, how it is written field by field, and how
    /// it is validated. What the validation reports is reported under
    /// the item's name.
    pub open spec fn owned_item(self, docs: Seq<Seq<char>>, name: Seq<char>) -> Seq<char> {
        doc_lines(docs) + "#[derive(Clone, Debug)]\npub struct "@ + name + " {\n"@ + self.part(
            Part::CompileFields,
        ) + "}\n\n"@ + "impl FontWrite for "@ + name + " {\n"@
            + "fn write_into(&self, writer: &mut TableWriter) {\n"@ + self.part(Part::WriteStmts)
            + "}\n}\n\n"@ + "impl Validate for "@ + name + " {\n"@
            + "fn validate_impl(&self, ctx: &mut ValidationCtx) {\n"@ + "ctx.in_table(\""@ + name
            + "\", |ctx| {\n"@ + self.part(Part::Validate) + "})\n}\n}\n\n"@
    }
}

impl Fields {
    /// The lifetime that an item with these fields carries.
    pub fn lifetime(&self) -> (out: &'static str)
        ensures
            out@ == self@.lifetime(),
    {
        if self.borrows() {
            "<'a>"
        } else {
            ""
        }
    }

    /// The owned form of an item with these fields.
    pub fn owned_item(&self, docs: &Vec<String>, name: &str) -> (out: String)
        requires
            self@.lowerable(),
        ensures
            out@ == self@.owned_item(docs.deep_view(), name@),
    {
        let docs = emit_docs(docs);
        let fields = self.part(Part::CompileFields);
        let writes = self.part(Part::WriteStmts);
        let checks = self.part(Part::Validate);
        docs.concat("#[derive(Clone, Debug)]\npub struct ").concat(name).concat(" {\n").concat(
            fields.as_str(),
        ).concat("}\n\n").concat("impl FontWrite for ").concat(name).concat(" {\n").concat(
            "fn write_into(&self, writer: &mut TableWriter) {\n",
        ).concat(writes.as_str()).concat("}\n}\n\n").concat("impl Validate for ").concat(name).concat(
            " {\n",
        ).concat("fn validate_impl(&self, ctx: &mut ValidationCtx) {\n").concat(
            "ctx.in_table(\"",
        ).concat(name).concat("\", |ctx| {\n").concat(checks.as_str()).concat("})\n}\n}\n\n")
    }
}

impl RecordView {
    /// The struct of the record, which holds the fields as they stand in
    /// the font data.
    pub open spec fn struct_decl(self) -> Seq<char> {
        doc_lines(self.docs) + "#[derive(Clone, Debug)]\n#[repr(C)]\n#[repr(packed)]\npub struct "@
            + self.name + self.fields.lifetime() + " {\n"@ + self.fields.part(Part::RecordFields)
            + "}\n\n"@
    }

    /// The accessors of the record.
    pub open spec fn getters(self) -> Seq<char> {
        "impl"@ + self.fields.lifetime() + " "@ + self.name + self.fields.lifetime() + " {\n"@
            + self.fields.part(Part::RecordGetters) + "}\n\n"@
    }

    /// The length of the record, and its reader. A record that takes no
    /// arguments has a fixed length and is read as it stands; one that
    /// takes arguments computes its length from them and is read with
    /// them.
    pub open spec fn sizing(self) -> Seq<char> {
        match self.fields.read_args {
            None => "impl FixedSize for "@ + self.name + " {\n"@ + "const RAW_BYTE_LEN: usize = "@
                + self.fields.record_len() + ";\n}\n\n"@,
            Some(args) => "impl ComputeSize for "@ + self.name + self.fields.lifetime() + " {\n"@
                + "fn compute_size(args: &"@ + args_type(args) + ") -> usize {\n"@ + "let "@
                + args_pattern(args) + " = *args;\n"@ + self.fields.record_len() + "\n}\n}\n\n"@
                + "impl<'a> FontReadWithArgs<'a> for "@ + self.name + self.fields.lifetime()
                + " {\n"@ + "fn read_with_args(data: FontData<'a>, args: &"@ + args_type(args)
                + ") -> Result<Self, ReadError> {\n"@ + "let mut cursor = data.cursor();\n"@
                + "let "@ + args_pattern(args) + " = *args;\n"@ + "Ok(Self {\n"@
                + self.fields.part(Part::RecordInits) + "})\n}\n}\n\n"@,
        }
    }

    /// What the parse module holds for the record.
    pub open spec fn generate(self) -> Seq<char> {
        self.struct_decl() + self.getters() + self.sizing()
    }

    /// What the compile module holds for the record.
    pub open spec fn generate_compile(self) -> Seq<char> {
        self.fields.owned_item(self.docs, self.name)
    }
}

impl Record {
    fn struct_decl(&self) -> (out: String)
        requires
            self@.fields.lowerable(),
        ensures
            out@ == self@.struct_decl(),
    {
        let docs = emit_docs(&self.docs);
        let fields = self.fields.part(Part::RecordFields);
        docs.concat("#[derive(Clone, Debug)]\n#[repr(C)]\n#[repr(packed)]\npub struct ").concat(
            self.name.as_str(),
        ).concat(self.fields.lifetime()).concat(" {\n").concat(fields.as_str()).concat("}\n\n")
    }

    fn getters(&self) -> (out: String)
        requires
            self@.fields.lowerable(),
        ensures
            out@ == self@.getters(),
    {
        let lifetime = self.fields.lifetime();
        let getters = self.fields.part(Part::RecordGetters);
        String::from_str("impl").concat(lifetime).concat(" ").concat(self.name.as_str()).concat(
            lifetime,
        ).concat(" {\n").concat(getters.as_str()).concat("}\n\n")
    }

    fn sizing(&self) -> (out: String)
        requires
            self@.fields.lowerable(),
        ensures
            out@ == self@.sizing(),
    {
        let terms = self.fields.part(Part::RecordLen);
        let len = String::from_str("0").concat(terms.as_str());
        let lifetime = self.fields.lifetime();
        match &self.fields.read_args {
            None => String::from_str("impl FixedSize for ").concat(self.name.as_str()).concat(
                " {\n",
            ).concat("const RAW_BYTE_LEN: usize = ").concat(len.as_str()).concat(";\n}\n\n"),
            Some(args) => {
                let typ = args.args_type();
                let pattern = args.args_pattern();
                let inits = self.fields.part(Part::RecordInits);
                String::from_str("impl ComputeSize for ").concat(self.name.as_str()).concat(
                    lifetime,
                ).concat(" {\n").concat("fn compute_size(args: &").concat(typ.as_str()).concat(
                    ") -> usize {\n",
                ).concat("let ").concat(pattern.as_str()).concat(" = *args;\n").concat(
                    len.as_str(),
                ).concat("\n}\n}\n\n").concat("impl<'a> FontReadWithArgs<'a> for ").concat(
                    self.name.as_str(),
                ).concat(lifetime).concat(" {\n").concat(
                    "fn read_with_args(data: FontData<'a>, args: &",
                ).concat(typ.as_str()).concat(") -> Result<Self, ReadError> {\n").concat(
                    "let mut cursor = data.cursor();\n",
                ).concat("let ").concat(pattern.as_str()).concat(" = *args;\n").concat(
                    "Ok(Self {\n",
                ).concat(inits.as_str()).concat("})\n}\n}\n\n")
            },
        }
    }
}

/// What the parse module holds for a record: the struct, its accessors,
/// its length and its reader.
pub fn generate(item: &Record) -> (out: String)
    requires
        item@.fields.lowerable(),
    ensures
        out@ == item@.generate(),
{
    let getters = item.getters();
    let sizing = item.sizing();
    item.struct_decl().concat(getters.as_str()).concat(sizing.as_str())
}

/// What the compile module holds for a record.
pub fn generate_compile(item: &Record) -> (out: String)
    requires
        item@.fields.lowerable(),
    ensures
        out@ == item@.generate_compile(),
{
    item.fields.owned_item(&item.docs, item.name.as_str())
}

} // verus!
