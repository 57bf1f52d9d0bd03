//! The fields of one item taken together: which of them the validator
//! reads, what they declare in the owned table, and how names are
//! looked up among them.

use crate::error::{AnalysisError};
use crate::parsing::{
    Field, FieldType, FieldTypeView, FieldView, Fields, FieldsView, TableReadArg,
    TableReadArgView,
};
use crate::text::{concat_all, contains_name};
use vstd::prelude::*;

verus! {

/// Every name that some field's length or arguments are computed from,
/// field by field.
pub open spec fn referenced_names(fields: Seq<FieldView>) -> Seq<Seq<char>> {
    fields.map_values(|f: FieldView| f.input_fields()).flatten()
}

/// Whether the validator has to look at field `i`: it does where the
/// field depends on the version, and where another field's length or
/// arguments name it.
pub open spec fn is_read_at_parse_time(fields: Seq<FieldView>, i: int) -> bool {
    fields[i].attrs.available is Some || referenced_names(fields).contains(fields[i].name)
}

/// The fields with `read_at_parse_time` set as it has to be.
pub open spec fn with_parse_flags(fields: Seq<FieldView>) -> Seq<FieldView> {
    Seq::new(
        fields.len(),
        |i: int|
            FieldView { read_at_parse_time: is_read_at_parse_time(fields, i), ..fields[i] },
    )
}

/// The index of the first of the fields before `limit` that is named
/// `name`.
pub open spec fn lookup(fields: Seq<FieldView>, limit: int, name: Seq<char>) -> Option<int>
    decreases limit,
{
    if limit <= 0 {
        None
    } else {
        match lookup(fields, limit - 1, name) {
            Some(j) => Some(j),
            None => if fields[limit - 1].name == name {
                Some(limit - 1)
            } else {
                None
            },
        }
    }
}

/// What `lookup` finds: the first field of that name before the limit,
/// and nothing exactly when no field before the limit has that name.
pub proof fn lemma_lookup(fields: Seq<FieldView>, limit: int, name: Seq<char>)
    requires
        0 <= limit <= fields.len(),
    ensures
        match lookup(fields, limit, name) {
            Some(j) => 0 <= j < limit && fields[j].name == name && forall|k: int|
                0 <= k < j ==> fields[k].name != name,
            None => forall|k: int| 0 <= k < limit ==> fields[k].name != name,
        },
    decreases limit,
{
    if limit > 0 {
        lemma_lookup(fields, limit - 1, name);
    }
}

/// The index of the first argument before `limit` that is named `name`.
pub open spec fn lookup_arg(args: Seq<TableReadArgView>, limit: int, name: Seq<char>) -> Option<
    int,
>
    decreases limit,
{
    if limit <= 0 {
        None
    } else {
        match lookup_arg(args, limit - 1, name) {
            Some(j) => Some(j),
            None => if args[limit - 1].ident == name {
                Some(limit - 1)
            } else {
                None
            },
        }
    }
}

impl FieldsView {
    /// Whether every field meets the rules that it has to meet by itself.
    pub open spec fn sane(self) -> bool {
        forall|i: int| 0 <= i < self.fields.len() ==> (#[trigger] self.fields[i]).sane()
    }

    /// Whether every field has what the lowering passes cannot do
    /// without.
    pub open spec fn lowerable(self) -> bool {
        forall|i: int| 0 <= i < self.fields.len() ==> (#[trigger] self.fields[i]).lowerable()
    }

    /// Fields that meet every rule can be lowered.
    pub proof fn lemma_sane_is_lowerable(self)
        requires
            self.sane(),
        ensures
            self.lowerable(),
    {
        assert forall|i: int| 0 <= i < self.fields.len() implies (
        #[trigger] self.fields[i]).lowerable() by {
            self.fields[i].lemma_sane_is_lowerable();
        }
    }

    /// The argument of the item that is named `name`, if it declares
    /// one.
    pub open spec fn arg(self, name: Seq<char>) -> Option<TableReadArgView> {
        match self.read_args {
            Some(args) => match lookup_arg(args, args.len() as int, name) {
                Some(k) => Some(args[k]),
                None => None,
            },
            None => None,
        }
    }

    /// The scalar type behind `name`: that of the first field of that
    /// name if it is a scalar, and that of the item's argument of that
    /// name if no field has it.
    pub open spec fn scalar_field_type(self, name: Seq<char>) -> Option<Seq<char>> {
        match lookup(self.fields, self.fields.len() as int, name) {
            Some(j) => match self.fields[j].typ {
                FieldTypeView::Scalar { typ } => Some(typ),
                _ => None,
            },
            None => match self.arg(name) {
                Some(arg) => Some(arg.typ),
                None => None,
            },
        }
    }

    /// The declarations of the owned table, one for each field that it
    /// holds.
    pub open spec fn compile_decls(self) -> Seq<Seq<char>> {
        self.fields.filter_map(|f: FieldView| f.compile_field_decl())
    }

    /// The names of the fields that the owned table holds.
    pub open spec fn compile_field_names(self) -> Seq<Seq<char>> {
        self.fields.filter_map(
            |f: FieldView|
                if f.is_computed() {
                    None
                } else {
                    Some(f.name)
                },
        )
    }

    /// The statements that write the table, one for each field.
    pub open spec fn compile_write_stmts(self) -> Seq<Seq<char>> {
        self.fields.map_values(|f: FieldView| f.compile_write_stmt())
    }

    /// The check on the length of field `i`, for an array whose count
    /// names a field: the array holds no more elements than the scalar
    /// that is named first can say.
    pub open spec fn array_len_check(self, i: int) -> Seq<char> {
        match self.fields[i].attrs.count {
            Some(count) => if count.referenced_fields().len() > 0 {
                match self.scalar_field_type(count.referenced_fields()[0]) {
                    Some(typ) => self.fields[i].array_len_check(typ),
                    None => ""@,
                }
            } else {
                ""@
            },
            None => ""@,
        }
    }

    /// The validation of field `i` of the owned table: the checks on it,
    /// reported under its name; nothing where there is no check.
    pub open spec fn compilation_validation_stmt(self, i: int) -> Seq<char> {
        self.fields[i].in_field(
            self.array_len_check(i) + self.fields[i].compile_presence_check()
                + self.fields[i].recursive_validation_stmt(),
        )
    }

    /// The statements that validate the owned table, one for each field
    /// that has a check.
    pub open spec fn compilation_validation_stmts(self) -> Seq<Seq<char>> {
        Seq::new(self.fields.len(), |i: int| self.compilation_validation_stmt(i)).filter(
            |stmt: Seq<char>| stmt.len() > 0,
        )
    }
}

/// The index of the first of the fields before `limit` that is named
/// `name`.
pub fn find_field(fields: &Vec<Field>, limit: usize, name: &String) -> (found: Option<usize>)
    requires
        limit <= fields.len(),
    ensures
        match found {
            Some(j) => lookup(fields.deep_view(), limit as int, name@) == Some(j as int)
                && j < limit,
            None => lookup(fields.deep_view(), limit as int, name@) is None,
        },
{
    let mut i: usize = 0;
    while i < limit
        invariant
            i <= limit <= fields.len(),
            lookup(fields.deep_view(), i as int, name@) is None,
        decreases limit - i,
    {
        if fields[i].name == *name {
            proof {
                assert(fields.deep_view()[i as int].name == name@);
                lemma_lookup_found(fields.deep_view(), i as int, limit as int, name@);
            }
            return Some(i);
        }
        i += 1;
    }
    None
}

/// A field that `lookup` finds below one limit is found below every
/// larger one.
proof fn lemma_lookup_found(fields: Seq<FieldView>, j: int, limit: int, name: Seq<char>)
    requires
        0 <= j < limit,
        lookup(fields, j, name) is None,
        fields[j].name == name,
    ensures
        lookup(fields, limit, name) == Some(j),
    decreases limit,
{
    if limit > j + 1 {
        lemma_lookup_found(fields, j, limit - 1, name);
    }
}

/// An argument that `lookup_arg` finds below one limit is found below
/// every larger one.
pub proof fn lemma_lookup_arg_found(args: Seq<TableReadArgView>, j: int, limit: int, name: Seq<char>)
    requires
        0 <= j < limit,
        lookup_arg(args, j, name) is None,
        args[j].ident == name,
    ensures
        lookup_arg(args, limit, name) == Some(j),
    decreases limit,
{
    if limit > j + 1 {
        lemma_lookup_arg_found(args, j, limit - 1, name);
    }
}

impl Fields {
    /// Takes the fields of an item and sets on each whether the
    /// validator has to look at it.
    pub fn new(fields: Vec<Field>) -> (r: Result<Fields, AnalysisError>)
        ensures
            r matches Ok(made) && made@ == (FieldsView {
                fields: with_parse_flags(fields.deep_view()),
                read_args: None,
            }),
    {
        let mut fields = fields;
        let ghost given = fields.deep_view();
        let ghost inputs = |f: FieldView| f.input_fields();
        let mut referenced_fields: Vec<String> = Vec::new();
        let mut i: usize = 0;
        assert(referenced_fields.deep_view() =~= given.take(0).map_values(inputs).flatten());
        while i < fields.len()
            invariant
                i <= fields.len(),
                fields.deep_view() == given,
                inputs == |f: FieldView| f.input_fields(),
                referenced_fields.deep_view() == given.take(i as int).map_values(inputs).flatten(),
            decreases fields.len() - i,
        {
            let mut names = fields[i].input_fields();
            let ghost before = referenced_fields.deep_view();
            let ghost added = names.deep_view();
            referenced_fields.append(&mut names);
            proof {
                assert(referenced_fields.deep_view() =~= before + added);
                let done = given.take(i as int).map_values(inputs);
                assert(given.take(i + 1).map_values(inputs) =~= done.push(added));
                done.lemma_flatten_push(added);
            }
            i += 1;
        }
        assert(given.take(i as int) =~= given);
        let mut j: usize = 0;
        while j < fields.len()
            invariant
                j <= fields.len(),
                fields.len() == given.len(),
                referenced_fields.deep_view() == referenced_names(given),
                forall|k: int|
                    0 <= k < j ==> (#[trigger] fields.deep_view()[k]) == with_parse_flags(given)[k],
                forall|k: int| j <= k < given.len() ==> (#[trigger] fields.deep_view()[k]) == given[k],
            decreases fields.len() - j,
        {
            let ghost before = fields.deep_view();
            let flag = fields[j].attrs.available.is_some() || contains_name(
                &referenced_fields,
                &fields[j].name,
            );
            fields[j].read_at_parse_time = flag;
            proof {
                assert forall|k: int| 0 <= k < given.len() && k != j implies (
                #[trigger] fields.deep_view()[k]) == before[k] by {}
                assert(fields.deep_view()[j as int] == (FieldView {
                    read_at_parse_time: flag,
                    ..before[j as int]
                }));
            }
            j += 1;
        }
        assert(fields.deep_view() =~= with_parse_flags(given));
        Ok(Fields { fields, read_args: None })
    }

    /// The fields, in declaration order.
    pub fn iter(&self) -> (fields: &[Field])
        ensures
            fields@ == self.fields@,
    {
        self.fields.as_slice()
    }

    /// The declarations of the owned table.
    pub fn iter_compile_decls(&self) -> (out: Vec<String>)
        ensures
            out.deep_view() == self@.compile_decls(),
    {
        let mut out: Vec<String> = Vec::new();
        let ghost decl = |f: FieldView| f.compile_field_decl();
        let mut i: usize = 0;
        assert(out.deep_view() =~= self.fields.deep_view().take(0).filter_map(decl));
        while i < self.fields.len()
            invariant
                i <= self.fields.len(),
                decl == |f: FieldView| f.compile_field_decl(),
                out.deep_view() == self.fields.deep_view().take(i as int).filter_map(decl),
            decreases self.fields.len() - i,
        {
            let ghost before = out.deep_view();
            proof {
                let next = self.fields.deep_view().take(i + 1);
                assert(next.drop_last() =~= self.fields.deep_view().take(i as int));
                assert(next.last() == self.fields[i as int]@);
            }
            match self.fields[i].compile_field_decl() {
                Some(text) => {
                    out.push(text);
                    assert(out.deep_view() =~= before + seq![text@]);
                },
                None => {},
            }
            i += 1;
        }
        assert(self.fields.deep_view().take(i as int) =~= self.fields.deep_view());
        out
    }

    /// The names of the fields that the owned table holds.
    pub fn compile_field_names(&self) -> (out: Vec<String>)
        ensures
            out.deep_view() == self@.compile_field_names(),
    {
        let mut out: Vec<String> = Vec::new();
        let ghost owned = |f: FieldView|
            if f.is_computed() {
                None
            } else {
                Some(f.name)
            };
        let mut i: usize = 0;
        assert(out.deep_view() =~= self.fields.deep_view().take(0).filter_map(owned));
        while i < self.fields.len()
            invariant
                i <= self.fields.len(),
                owned == |f: FieldView|
                    if f.is_computed() {
                        None
                    } else {
                        Some(f.name)
                    },
                out.deep_view() == self.fields.deep_view().take(i as int).filter_map(owned),
            decreases self.fields.len() - i,
        {
            let ghost before = out.deep_view();
            proof {
                let next = self.fields.deep_view().take(i + 1);
                assert(next.drop_last() =~= self.fields.deep_view().take(i as int));
                assert(next.last() == self.fields[i as int]@);
            }
            if !self.fields[i].is_computed() {
                out.push(self.fields[i].name.clone());
                assert(out.deep_view() =~= before + seq![self.fields[i as int].name@]);
            }
            i += 1;
        }
        assert(self.fields.deep_view().take(i as int) =~= self.fields.deep_view());
        out
    }

    /// The statements that write the table.
    pub fn iter_compile_write_stmts(&self) -> (out: Vec<String>)
        requires
            self@.lowerable(),
        ensures
            out.deep_view() == self@.compile_write_stmts(),
    {
        let mut out: Vec<String> = Vec::new();
        let ghost stmt = |f: FieldView| f.compile_write_stmt();
        let mut i: usize = 0;
        while i < self.fields.len()
            invariant
                i <= self.fields.len(),
                self@.lowerable(),
                stmt == |f: FieldView| f.compile_write_stmt(),
                out.deep_view() == self.fields.deep_view().take(i as int).map_values(stmt),
            decreases self.fields.len() - i,
        {
            let ghost before = out.deep_view();
            assert(self@.fields[i as int].lowerable());
            let text = self.fields[i].compile_write_stmt();
            out.push(text);
            assert(out.deep_view() =~= before.push(text@));
            assert(self.fields.deep_view().take(i + 1).map_values(stmt) =~= before.push(text@));
            i += 1;
        }
        assert(self.fields.deep_view().take(i as int) =~= self.fields.deep_view());
        out
    }

    /// The argument of the item that is named `name`.
    pub fn find_arg(&self, name: &String) -> (found: Option<&TableReadArg>)
        ensures
            found.deep_view() == self@.arg(name@),
    {
        match &self.read_args {
            Some(args) => {
                let mut i: usize = 0;
                while i < args.args.len()
                    invariant
                        i <= args.args.len(),
                        self.read_args == Some(*args),
                        lookup_arg(args@, i as int, name@) is None,
                    decreases args.args.len() - i,
                {
                    if args.args[i].ident == *name {
                        proof {
                            assert(args@[i as int].ident == name@);
                            lemma_lookup_arg_found(args@, i as int, args@.len() as int, name@);
                            assert(args@[i as int] == args.args[i as int]@);
                            assert(self@.read_args == Some(args@));
                        }
                        return Some(&args.args[i]);
                    }
                    i += 1;
                }
                None
            },
            None => None,
        }
    }

    /// The scalar type behind `name`, which is a scalar field or an
    /// argument of the item. This is what lengths are checked against.
    pub fn get_scalar_field_type(&self, name: &String) -> (typ: &String)
        requires
            self@.scalar_field_type(name@) is Some,
        ensures
            Some(typ@) == self@.scalar_field_type(name@),
    {
        match self.find_scalar_field_type(name) {
            Some(typ) => typ,
            None => {
                assert(false);
                vstd::pervasive::unreached()
            },
        }
    }

    /// The scalar type behind `name`, if `name` is a scalar field or an
    /// argument of the item.
    pub fn find_scalar_field_type(&self, name: &String) -> (typ: Option<&String>)
        ensures
            typ.deep_view() == self@.scalar_field_type(name@),
    {
        match find_field(&self.fields, self.fields.len(), name) {
            Some(j) => match &self.fields[j].typ {
                FieldType::Scalar { typ } => Some(typ),
                _ => None,
            },
            None => match self.find_arg(name) {
                Some(arg) => Some(&arg.typ),
                None => None,
            },
        }
    }

    /// The check on the length of field `i`.
    fn array_len_check(&self, i: usize) -> (out: String)
        requires
            i < self.fields.len(),
        ensures
            out@ == self@.array_len_check(i as int),
    {
        match &self.fields[i].attrs.count {
            Some(count) => {
                let mut names: Vec<String> = Vec::new();
                count.collect_referenced_fields(&mut names);
                assert(names.deep_view() =~= count@.referenced_fields());
                if names.len() > 0 {
                    assert(names.deep_view()[0] == names[0]@);
                    match self.find_scalar_field_type(&names[0]) {
                        Some(typ) => self.fields[i].array_len_check(typ.as_str()),
                        None => String::from_str(""),
                    }
                } else {
                    String::from_str("")
                }
            },
            None => String::from_str(""),
        }
    }

    /// The validation of field `i` of the owned table.
    pub fn compilation_validation_stmt(&self, i: usize) -> (out: String)
        requires
            i < self.fields.len(),
        ensures
            out@ == self@.compilation_validation_stmt(i as int),
    {
        let field = &self.fields[i];
        let array_len_check = self.array_len_check(i);
        let presence_check = field.compile_presence_check();
        let recursive_stmt = field.recursive_validation_stmt();
        let checks = array_len_check.concat(presence_check.as_str()).concat(
            recursive_stmt.as_str(),
        );
        field.in_field(checks.as_str())
    }

    /// The statements that validate the owned table, one for each field
    /// that has a check.
    pub fn compilation_validation_stmts(&self) -> (out: Vec<String>)
        ensures
            out.deep_view() == self@.compilation_validation_stmts(),
    {
        let mut stmts: Vec<String> = Vec::new();
        let ghost all = Seq::new(
            self@.fields.len(),
            |i: int| self@.compilation_validation_stmt(i),
        );
        let ghost nonempty = |stmt: Seq<char>| stmt.len() > 0;
        let mut i: usize = 0;
        proof {
            reveal(Seq::filter);
            assert(stmts.deep_view() =~= all.take(0).filter(nonempty));
        }
        while i < self.fields.len()
            invariant
                i <= self.fields.len(),
                all == Seq::new(self@.fields.len(), |i: int| self@.compilation_validation_stmt(i)),
                nonempty == |stmt: Seq<char>| stmt.len() > 0,
                stmts.deep_view() == all.take(i as int).filter(nonempty),
            decreases self.fields.len() - i,
        {
            let stmt = self.compilation_validation_stmt(i);
            let ghost before = stmts.deep_view();
            proof {
                assert(stmt@ == all[i as int]);
                reveal(Seq::filter);
                assert(all.take(i + 1).drop_last() =~= all.take(i as int));
                assert(all.take(i + 1).last() == all[i as int]);
            }
            if stmt.as_str().unicode_len() > 0 {
                stmts.push(stmt);
                assert(stmts.deep_view() =~= before.push(all[i as int]));
            }
            i += 1;
        }
        assert(all.take(i as int) =~= all);
        stmts
    }
}

} // verus!
