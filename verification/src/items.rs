//! The analyzer's work on a whole schema: resolving the types that the
//! schema itself declares, and checking the names that items use of
//! each other.

use crate::error::{AnalysisError, AnalysisErrorView, ErrorKind};
use crate::parsing::{
    Field, FieldType, FieldTypeView, FieldView, Fields, FieldsView, GenericGroup, Item,
    ItemView, Items, ItemsView, Phase, RecordView, TableView, field_type_view,
};
use crate::text::contains_name;
use vstd::prelude::*;

verus! {

impl ItemView {
    /// The name under which the item is declared.
    pub open spec fn name(self) -> Seq<char> {
        match self {
            ItemView::Record(item) => item.name,
            ItemView::Table(item) => item.name,
            ItemView::GenericGroup(item) => item.name,
            ItemView::Format(item) => item.name,
            ItemView::RawEnum(item) => item.name,
            ItemView::Flags(item) => item.name,
            ItemView::Extern(name) => name,
        }
    }

    /// The name of the item if it is a raw enum or a flag set, which the
    /// font data holds as scalars.
    pub open spec fn scalar_name(self) -> Option<Seq<char>> {
        match self {
            ItemView::RawEnum(item) => Some(item.name),
            ItemView::Flags(item) => Some(item.name),
            _ => None,
        }
    }

    /// The fields of the item, which records and tables have.
    pub open spec fn fields(self) -> Option<FieldsView> {
        match self {
            ItemView::Record(item) => Some(item.fields),
            ItemView::Table(item) => Some(item.fields),
            _ => None,
        }
    }
}

impl Item {
    /// The name under which the item is declared.
    pub fn name(&self) -> (name: &String)
        ensures
            name@ == self@.name(),
    {
        match self {
            Item::Record(item) => &item.name,
            Item::Table(item) => &item.name,
            Item::GenericGroup(item) => &item.name,
            Item::Format(item) => &item.name,
            Item::RawEnum(item) => &item.name,
            Item::Flags(item) => &item.name,
            Item::Extern(item) => &item.name,
        }
    }
}

/// The index of the first of the items before `limit` that is named
/// `name`.
pub open spec fn lookup_item(items: Seq<ItemView>, limit: int, name: Seq<char>) -> Option<int>
    decreases limit,
{
    if limit <= 0 {
        None
    } else {
        match lookup_item(items, limit - 1, name) {
            Some(j) => Some(j),
            None => if items[limit - 1].name() == name {
                Some(limit - 1)
            } else {
                None
            },
        }
    }
}

proof fn lemma_lookup_item_found(items: Seq<ItemView>, j: int, limit: int, name: Seq<char>)
    requires
        0 <= j < limit,
        lookup_item(items, j, name) is None,
        items[j].name() == name,
    ensures
        lookup_item(items, limit, name) == Some(j),
    decreases limit,
{
    if limit > j + 1 {
        lemma_lookup_item_found(items, j, limit - 1, name);
    }
}

impl FieldTypeView {
    /// Whether the type is a scalar, given the names of the raw enums
    /// and flag sets of the schema: a scalar that the runtime defines,
    /// or one of those.
    pub open spec fn counts_as_scalar(self, scalars: Seq<Seq<char>>) -> bool {
        match self {
            FieldTypeView::Scalar { .. } => true,
            FieldTypeView::Other { typ } => scalars.contains(typ),
            _ => false,
        }
    }

    /// A type counts as a scalar exactly when it is one once the schema
    /// is resolved.
    pub proof fn lemma_counts_as_scalar(self, scalars: Seq<Seq<char>>)
        ensures
            self.counts_as_scalar(scalars) <==> self.resolved(scalars) is Scalar,
            self.resolved(scalars).counts_as_scalar(scalars) == self.counts_as_scalar(scalars),
    {
    }

    /// The type with the names of raw enums and flag sets taken as
    /// scalars.
    pub open spec fn resolved(self, scalars: Seq<Seq<char>>) -> FieldTypeView
        decreases self,
    {
        match self {
            FieldTypeView::Other { typ } => if scalars.contains(typ) {
                FieldTypeView::Scalar { typ }
            } else {
                self
            },
            FieldTypeView::Array { inner_typ } => FieldTypeView::Array {
                inner_typ: Box::new(inner_typ.resolved(scalars)),
            },
            _ => self,
        }
    }

    /// The item that the type names, and whether it has to be a record:
    /// the type of a record field or of the elements of a computed
    /// array, and the target of an offset.
    pub open spec fn referenced_item(self) -> Option<(Seq<char>, bool)> {
        match self {
            FieldTypeView::Other { typ } => Some((typ, true)),
            FieldTypeView::Offset { typ, target: Some(target) } => Some((target, false)),
            FieldTypeView::ComputedArray(array) => Some((array.inner, true)),
            FieldTypeView::Array { inner_typ } => match *inner_typ {
                FieldTypeView::Other { typ } => Some((typ, true)),
                FieldTypeView::Offset { typ, target: Some(target) } => Some((target, false)),
                _ => None,
            },
            _ => None,
        }
    }
}

impl FieldType {
    /// Whether the type is a scalar, given the names of the raw enums
    /// and flag sets of the schema.
    pub fn counts_as_scalar(&self, scalars: &Vec<String>) -> (r: bool)
        ensures
            r == self@.counts_as_scalar(scalars.deep_view()),
    {
        match self {
            FieldType::Scalar { .. } => true,
            FieldType::Other { typ } => contains_name(scalars, typ),
            _ => false,
        }
    }

    /// Takes the names of raw enums and flag sets as scalars.
    pub fn resolve(&mut self, scalars: &Vec<String>)
        ensures
            final(self)@ == old(self)@.resolved(scalars.deep_view()),
        decreases *old(self),
    {
        match self {
            FieldType::Other { typ: name } => {
                if contains_name(scalars, name) {
                    let name = name.clone();
                    *self = FieldType::Scalar { typ: name };
                }
            },
            FieldType::Array { inner_typ } => {
                (&mut **inner_typ).resolve(scalars);
            },
            _ => {},
        }
    }

    /// The item that the type names, and whether it has to be a record.
    pub fn referenced_item(&self) -> (out: Option<(&String, bool)>)
        ensures
            out.deep_view() == self@.referenced_item(),
    {
        proof {
            reveal_with_fuel(field_type_view, 2);
        }
        match self {
            FieldType::Other { typ } => Some((typ, true)),
            FieldType::Offset { typ, target: Some(target) } => Some((target, false)),
            FieldType::ComputedArray(array) => Some((&array.inner, true)),
            FieldType::Array { inner_typ } => match &**inner_typ {
                FieldType::Other { typ } => Some((typ, true)),
                FieldType::Offset { typ, target: Some(target) } => Some((target, false)),
                _ => None,
            },
            _ => None,
        }
    }
}

impl FieldsView {
    /// The fields with the names of raw enums and flag sets taken as
    /// scalars.
    pub open spec fn resolved(self, scalars: Seq<Seq<char>>) -> FieldsView {
        FieldsView {
            fields: self.fields.map_values(
                |f: FieldView| FieldView { typ: f.typ.resolved(scalars), ..f },
            ),
            read_args: self.read_args,
        }
    }
}

impl Fields {
    /// Takes the names of raw enums and flag sets as scalars.
    pub fn resolve(&mut self, scalars: &Vec<String>)
        ensures
            final(self)@ == old(self)@.resolved(scalars.deep_view()),
    {
        let ghost given = self@;
        let ghost want = given.resolved(scalars.deep_view());
        let mut i: usize = 0;
        while i < self.fields.len()
            invariant
                i <= self.fields.len(),
                self.fields.len() == given.fields.len(),
                self@.read_args == given.read_args,
                want == given.resolved(scalars.deep_view()),
                forall|k: int| 0 <= k < i ==> (#[trigger] self@.fields[k]) == want.fields[k],
                forall|k: int|
                    i <= k < given.fields.len() ==> (#[trigger] self@.fields[k]) == given.fields[k],
            decreases self.fields.len() - i,
        {
            let ghost before = self@;
            self.fields[i].typ.resolve(scalars);
            proof {
                assert forall|k: int| 0 <= k < given.fields.len() && k != i implies (
                #[trigger] self@.fields[k]) == before.fields[k] by {}
                assert(self@.fields[i as int] == (FieldView {
                    typ: before.fields[i as int].typ.resolved(scalars.deep_view()),
                    ..before.fields[i as int]
                }));
            }
            i += 1;
        }
        assert(self@.fields =~= want.fields);
    }
}

impl ItemView {
    /// The item with the names of raw enums and flag sets taken as
    /// scalars in the types of its fields.
    pub open spec fn resolved(self, scalars: Seq<Seq<char>>) -> ItemView {
        match self {
            ItemView::Record(item) => ItemView::Record(
                RecordView { fields: item.fields.resolved(scalars), ..item },
            ),
            ItemView::Table(item) => ItemView::Table(
                TableView { fields: item.fields.resolved(scalars), ..item },
            ),
            _ => self,
        }
    }
}

impl Item {
    /// Takes the names of raw enums and flag sets as scalars in the
    /// types of the item's fields.
    pub fn resolve(&mut self, scalars: &Vec<String>)
        ensures
            final(self)@ == old(self)@.resolved(scalars.deep_view()),
    {
        match self {
            Item::Record(item) => {
                item.fields.resolve(scalars);
            },
            Item::Table(item) => {
                item.fields.resolve(scalars);
            },
            _ => {},
        }
    }
}

impl ItemsView {
    /// The first item of that name.
    pub open spec fn find(self, name: Seq<char>) -> Option<ItemView> {
        match lookup_item(self.items, self.items.len() as int, name) {
            Some(i) => Some(self.items[i]),
            None => None,
        }
    }

    /// The names of the raw enums and flag sets of the schema.
    pub open spec fn scalar_names(self) -> Seq<Seq<char>> {
        self.items.filter_map(|item: ItemView| item.scalar_name())
    }

    /// The schema with the names of its raw enums and flag sets taken as
    /// scalars in the types of all fields.
    pub open spec fn resolved(self) -> ItemsView {
        ItemsView {
            parse_module_path: self.parse_module_path,
            items: self.items.map_values(|item: ItemView| item.resolved(self.scalar_names())),
        }
    }

    /// Whether every field of every record and table meets the rules
    /// that it has to meet by itself.
    pub open spec fn sane(self) -> bool {
        forall|i: int|
            0 <= i < self.items.len() ==> ((#[trigger] self.items[i]).fields() matches Some(
                fields,
            ) ==> fields.sane())
    }

    /// Whether every field of every record and table has what the
    /// lowering passes cannot do without.
    pub open spec fn lowerable(self) -> bool {
        forall|i: int|
            0 <= i < self.items.len() ==> ((#[trigger] self.items[i]).fields() matches Some(
                fields,
            ) ==> fields.lowerable())
    }

    /// A schema whose fields meet every rule can be lowered.
    pub proof fn lemma_sane_is_lowerable(self)
        requires
            self.sane(),
        ensures
            self.lowerable(),
    {
        assert forall|i: int| 0 <= i < self.items.len() implies ((
        #[trigger] self.items[i]).fields() matches Some(fields) ==> fields.lowerable()) by {
            match self.items[i].fields() {
                Some(fields) => {
                    fields.lemma_sane_is_lowerable();
                },
                None => {},
            }
        }
    }

    /// The finding that says that `f` names an item that is not
    /// declared.
    pub open spec fn no_such_item(self, f: FieldView, name: Seq<char>) -> AnalysisErrorView {
        AnalysisErrorView {
            kind: ErrorKind::UnresolvedReference,
            name: f.name,
            span: f.span,
            message: "no item named `"@ + name + "`"@,
        }
    }

    /// The finding that says that `f` names an item that is no record
    /// where it needs one.
    pub open spec fn not_a_record(self, f: FieldView, name: Seq<char>) -> AnalysisErrorView {
        AnalysisErrorView {
            kind: ErrorKind::TypeMisuse,
            name: f.name,
            span: f.span,
            message: "`"@ + name + "` is not a record"@,
        }
    }

    /// What there is to say of the item that the type of `f` names.
    pub open spec fn type_findings(self, f: FieldView) -> Seq<AnalysisErrorView> {
        match f.typ.referenced_item() {
            Some((name, record)) => match self.find(name) {
                Some(item) => if record && !(item is Record) && !(item is Extern) {
                    seq![self.not_a_record(f, name)]
                } else {
                    Seq::empty()
                },
                None => seq![self.no_such_item(f, name)],
            },
            None => Seq::empty(),
        }
    }

    /// Every finding on the items that the types of the fields name.
    pub open spec fn type_errors(self, fields: FieldsView) -> Seq<AnalysisErrorView> {
        fields.fields.map_values(|f: FieldView| self.type_findings(f)).flatten()
    }

    /// Every finding on the fields of a record or table in `phase`: on
    /// each field by itself, then on the names that the fields use of
    /// each other and on where `count(..)` stands, and in the second
    /// pass also on the items that the types of the fields name.
    pub open spec fn fields_errors(self, fields: FieldsView, phase: Phase) -> Seq<
        AnalysisErrorView,
    > {
        fields.sanity_errors() + fields.reference_errors(self.scalar_names()) + (if phase
            == Phase::Analysis {
            self.type_errors(fields)
        } else {
            Seq::empty()
        })
    }
}

impl Items {
    /// The index of the first item of that name.
    pub fn find_item(&self, name: &String) -> (found: Option<usize>)
        ensures
            match found {
                Some(i) => i < self.items.len() && lookup_item(
                    self@.items,
                    self@.items.len() as int,
                    name@,
                ) == Some(i as int),
                None => lookup_item(self@.items, self@.items.len() as int, name@) is None,
            },
    {
        let mut i: usize = 0;
        while i < self.items.len()
            invariant
                i <= self.items.len(),
                lookup_item(self@.items, i as int, name@) is None,
            decreases self.items.len() - i,
        {
            if *self.items[i].name() == *name {
                proof {
                    assert(self@.items[i as int] == self.items[i as int]@);
                    lemma_lookup_item_found(
                        self@.items,
                        i as int,
                        self@.items.len() as int,
                        name@,
                    );
                }
                return Some(i);
            }
            assert(self@.items[i as int] == self.items[i as int]@);
            i += 1;
        }
        None
    }

    /// The first item of that name.
    pub fn find(&self, name: &String) -> (found: Option<&Item>)
        ensures
            found.deep_view() == self@.find(name@),
    {
        match self.find_item(name) {
            Some(i) => {
                assert(self@.items[i as int] == self.items[i as int]@);
                Some(&self.items[i])
            },
            None => None,
        }
    }

    /// The names of the raw enums and flag sets of the schema.
    pub fn scalar_names(&self) -> (names: Vec<String>)
        ensures
            names.deep_view() == self@.scalar_names(),
    {
        let mut names: Vec<String> = Vec::new();
        let ghost pick = |item: ItemView| item.scalar_name();
        let mut i: usize = 0;
        assert(names.deep_view() =~= self@.items.take(0).filter_map(pick));
        while i < self.items.len()
            invariant
                i <= self.items.len(),
                pick == |item: ItemView| item.scalar_name(),
                names.deep_view() == self@.items.take(i as int).filter_map(pick),
            decreases self.items.len() - i,
        {
            let ghost before = names.deep_view();
            proof {
                let next = self@.items.take(i + 1);
                assert(next.drop_last() =~= self@.items.take(i as int));
                assert(next.last() == self.items[i as int]@);
            }
            match &self.items[i] {
                Item::RawEnum(item) => {
                    names.push(item.name.clone());
                    assert(names.deep_view() =~= before + seq![item.name@]);
                },
                Item::Flags(item) => {
                    names.push(item.name.clone());
                    assert(names.deep_view() =~= before + seq![item.name@]);
                },
                _ => {},
            }
            i += 1;
        }
        assert(self@.items.take(i as int) =~= self@.items);
        names
    }

    /// Resolves the types that the schema itself declares: a field whose
    /// type is the name of a raw enum or of a flag set of the schema is
    /// a scalar from here on.
    pub fn resolve_pending(&mut self)
        ensures
            final(self)@ == old(self)@.resolved(),
    {
        let scalars = self.scalar_names();
        let ghost given = self@;
        let ghost want = given.resolved();
        let mut i: usize = 0;
        while i < self.items.len()
            invariant
                i <= self.items.len(),
                self.items.len() == given.items.len(),
                self@.parse_module_path == given.parse_module_path,
                scalars.deep_view() == given.scalar_names(),
                want == given.resolved(),
                forall|k: int| 0 <= k < i ==> (#[trigger] self@.items[k]) == want.items[k],
                forall|k: int|
                    i <= k < given.items.len() ==> (#[trigger] self@.items[k]) == given.items[k],
            decreases self.items.len() - i,
        {
            let ghost before = self@;
            self.items[i].resolve(&scalars);
            proof {
                assert forall|k: int| 0 <= k < given.items.len() && k != i implies (
                #[trigger] self@.items[k]) == before.items[k] by {}
                assert(self@.items[i as int] == before.items[i as int].resolved(
                    scalars.deep_view(),
                ));
            }
            i += 1;
        }
        assert(self@.items =~= want.items);
    }

    /// Appends what there is to say of the item that the type of `field`
    /// names.
    fn check_type(&self, field: &Field, errors: &mut Vec<AnalysisError>)
        ensures
            final(errors).deep_view() == old(errors).deep_view() + self@.type_findings(field@),
    {
        let ghost none = Seq::<AnalysisErrorView>::empty();
        match field.typ.referenced_item() {
            Some((name, record)) => match self.find(name) {
                Some(item) => {
                    if record && !matches!(item, Item::Record(_)) && !matches!(
                        item,
                        Item::Extern(_)
                    ) {
                        let message = String::from_str("`").concat(name.as_str()).concat(
                            "` is not a record",
                        );
                        errors.push(
                            AnalysisError::new(
                                ErrorKind::TypeMisuse,
                                field.name.as_str(),
                                field.span,
                                message.as_str(),
                            ),
                        );
                        assert(errors.deep_view() =~= old(errors).deep_view() + seq![
                            self@.not_a_record(field@, name@),
                        ]);
                    } else {
                        assert(errors.deep_view() =~= old(errors).deep_view() + none);
                    }
                },
                None => {
                    let message = String::from_str("no item named `").concat(
                        name.as_str(),
                    ).concat("`");
                    errors.push(
                        AnalysisError::new(
                            ErrorKind::UnresolvedReference,
                            field.name.as_str(),
                            field.span,
                            message.as_str(),
                        ),
                    );
                    assert(errors.deep_view() =~= old(errors).deep_view() + seq![
                        self@.no_such_item(field@, name@),
                    ]);
                },
            },
            None => {
                assert(errors.deep_view() =~= old(errors).deep_view() + none);
            },
        }
    }

    /// Every finding on the items that the types of the fields name.
    pub fn check_types(&self, fields: &Fields) -> (errors: Vec<AnalysisError>)
        ensures
            errors.deep_view() == self@.type_errors(fields@),
    {
        let mut errors: Vec<AnalysisError> = Vec::new();
        let ghost all = fields@.fields.map_values(|f: FieldView| self@.type_findings(f));
        let mut i: usize = 0;
        assert(errors.deep_view() =~= all.take(0).flatten());
        while i < fields.fields.len()
            invariant
                i <= fields.fields.len(),
                all == fields@.fields.map_values(|f: FieldView| self@.type_findings(f)),
                errors.deep_view() == all.take(i as int).flatten(),
            decreases fields.fields.len() - i,
        {
            self.check_type(&fields.fields[i], &mut errors);
            proof {
                assert(all.take(i + 1) =~= all.take(i as int).push(all[i as int]));
                all.take(i as int).lemma_flatten_push(all[i as int]);
            }
            i += 1;
        }
        assert(all.take(i as int) =~= all);
        errors
    }

    /// Every finding on the fields of a record or table in `phase`.
    pub fn check_fields(&self, fields: &Fields, phase: Phase) -> (errors: Vec<AnalysisError>)
        ensures
            errors.deep_view() == self@.fields_errors(fields@, phase),
    {
        let mut errors = fields.sanity_check();
        let ghost own = errors.deep_view();
        let scalars = self.scalar_names();
        let mut references = fields.check_references(&scalars);
        let ghost found = references.deep_view();
        errors.append(&mut references);
        assert(errors.deep_view() =~= own + found);
        match phase {
            Phase::Analysis => {
                let mut types = self.check_types(fields);
                let ghost named = types.deep_view();
                errors.append(&mut types);
                assert(errors.deep_view() =~= own + found + named);
            },
            Phase::Parse => {
                assert(errors.deep_view() =~= own + found + Seq::<AnalysisErrorView>::empty());
            },
        }
        errors
    }
}

} // verus!
