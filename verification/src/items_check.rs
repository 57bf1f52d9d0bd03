//! The analyzer's checks on groups, and the two passes of the analyzer
//! over a whole schema.

use crate::analysis::lemma_flatten_empty;
use crate::error::{AnalysisError, AnalysisErrorView, ErrorKind};
use crate::parsing::{
    FieldView, FieldsView, GenericGroup, GenericGroupView, Item, ItemView, Items, ItemsView,
    Phase, Span, TableFormat, TableFormatView, Variant, VariantView,
};
use vstd::prelude::*;

verus! {

/// A finding on a variant of a group.
pub open spec fn variant_error(kind: ErrorKind, name: Seq<char>, span: Span, message: Seq<char>) -> AnalysisErrorView {
    AnalysisErrorView { kind, name, span, message }
}

impl ItemsView {
    /// The discriminant that a variant of a format group stands for: that
    /// of the table that it names.
    pub open spec fn variant_value(self, v: VariantView) -> Option<u32> {
        match self.find(v.typ) {
            Some(ItemView::Table(table)) => match table.discriminant_among(self.scalar_names()) {
                Some((typ, value)) => Some(value),
                None => None,
            },
            _ => None,
        }
    }

    /// Whether a variant before variant `k` stands for `value`.
    pub open spec fn taken(self, group: TableFormatView, k: int, value: u32) -> bool {
        exists|j: int| 0 <= j < k && self.variant_value(#[trigger] group.variants[j]) == Some(value)
    }

    /// What there is to say of variant `k` of a format group: the table
    /// that it names is declared, begins with a scalar of the group's
    /// discriminant type that carries a `format` literal, and no
    /// variant before it has that literal.
    pub open spec fn variant_findings(self, group: TableFormatView, k: int) -> Seq<
        AnalysisErrorView,
    > {
        let v = group.variants[k];
        match self.find(v.typ) {
            None => seq![
                variant_error(
                    ErrorKind::UnresolvedReference,
                    v.name,
                    v.span,
                    "no item named `"@ + v.typ + "`"@,
                ),
            ],
            Some(ItemView::Table(table)) => match table.discriminant_among(self.scalar_names()) {
                None => seq![
                    variant_error(
                        ErrorKind::TypeMisuse,
                        v.name,
                        v.span,
                        "`"@ + v.typ + "` does not begin with a scalar that carries #[format]"@,
                    ),
                ],
                Some((typ, value)) => if typ != group.format {
                    seq![
                        variant_error(
                            ErrorKind::TypeMisuse,
                            v.name,
                            v.span,
                            "the discriminant of `"@ + v.typ + "` is no `"@ + group.format + "`"@,
                        ),
                    ]
                } else if self.taken(group, k, value) {
                    seq![
                        variant_error(
                            ErrorKind::DuplicateDiscriminant,
                            v.name,
                            v.span,
                            "the discriminant of `"@ + v.typ + "` is that of an earlier variant"@,
                        ),
                    ]
                } else {
                    Seq::empty()
                },
            },
            Some(_) => seq![
                variant_error(
                    ErrorKind::TypeMisuse,
                    v.name,
                    v.span,
                    "`"@ + v.typ + "` is not a table"@,
                ),
            ],
        }
    }

    /// Every finding on a format group, variant by variant.
    pub open spec fn format_errors(self, group: TableFormatView) -> Seq<AnalysisErrorView> {
        Seq::new(group.variants.len(), |k: int| self.variant_findings(group, k)).flatten()
    }

    /// Whether a variant before variant `k` of a generic group has the
    /// discriminant `value`.
    pub open spec fn group_taken(self, group: GenericGroupView, k: int, value: u32) -> bool {
        exists|j: int| 0 <= j < k && (#[trigger] group.variants[j]).type_id == value
    }

    /// What there is to say of variant `k` of a generic group: the table
    /// that it names is declared, and no variant before it has its
    /// discriminant.
    pub open spec fn group_variant_findings(self, group: GenericGroupView, k: int) -> Seq<
        AnalysisErrorView,
    > {
        let v = group.variants[k];
        if self.find(v.typ) is None {
            seq![
                variant_error(
                    ErrorKind::UnresolvedReference,
                    v.name,
                    v.span,
                    "no item named `"@ + v.typ + "`"@,
                ),
            ]
        } else if self.group_taken(group, k, v.type_id) {
            seq![
                variant_error(
                    ErrorKind::DuplicateDiscriminant,
                    v.name,
                    v.span,
                    "the discriminant of `"@ + v.typ + "` is that of an earlier variant"@,
                ),
            ]
        } else {
            Seq::empty()
        }
    }

    /// Every finding on a generic group, variant by variant.
    pub open spec fn group_errors(self, group: GenericGroupView) -> Seq<AnalysisErrorView> {
        Seq::new(group.variants.len(), |k: int| self.group_variant_findings(group, k)).flatten()
    }

    /// Every finding on an item in `phase`: on the fields of a record
    /// or table, and on the variants of a group.
    pub open spec fn item_errors(self, item: ItemView, phase: Phase) -> Seq<AnalysisErrorView> {
        match item {
            ItemView::Record(item) => self.fields_errors(item.fields, phase),
            ItemView::Table(item) => self.fields_errors(item.fields, phase),
            ItemView::Format(item) => self.format_errors(item),
            ItemView::GenericGroup(item) => self.group_errors(item),
            _ => Seq::empty(),
        }
    }

    /// Every finding on the schema in `phase`, item by item.
    pub open spec fn sanity_errors(self, phase: Phase) -> Seq<AnalysisErrorView> {
        self.items.map_values(|item: ItemView| self.item_errors(item, phase)).flatten()
    }
}

impl Items {
    /// The discriminant that a variant of a format group stands for.
    pub fn value_of_variant(&self, v: &Variant) -> (value: Option<u32>)
        ensures
            value == self@.variant_value(v@),
    {
        let scalars = self.scalar_names();
        match self.find(&v.typ) {
            Some(Item::Table(table)) => match table.discriminant_among(&scalars) {
                Some((typ, value)) => Some(value),
                None => None,
            },
            _ => None,
        }
    }

    /// Whether a variant before variant `k` stands for `value`.
    fn taken(&self, group: &TableFormat, k: usize, value: u32) -> (r: bool)
        requires
            k <= group.variants.len(),
        ensures
            r == self@.taken(group@, k as int, value),
    {
        let mut j: usize = 0;
        while j < k
            invariant
                j <= k <= group.variants.len(),
                forall|i: int|
                    0 <= i < j ==> self@.variant_value(#[trigger] group@.variants[i]) != Some(
                        value,
                    ),
            decreases k - j,
        {
            let found = self.value_of_variant(&group.variants[j]);
            assert(group@.variants[j as int] == group.variants[j as int]@);
            if found == Some(value) {
                return true;
            }
            j += 1;
        }
        false
    }

    /// Appends what there is to say of variant `k` of a format group.
    fn check_variant(&self, group: &TableFormat, k: usize, errors: &mut Vec<AnalysisError>)
        requires
            k < group.variants.len(),
        ensures
            final(errors).deep_view() == old(errors).deep_view() + self@.variant_findings(
                group@,
                k as int,
            ),
    {
        let v = &group.variants[k];
        assert(group@.variants[k as int] == v@);
        let ghost none = Seq::<AnalysisErrorView>::empty();
        let scalars = self.scalar_names();
        let found: Option<(ErrorKind, String)> = match self.find(&v.typ) {
            None => Some(
                (
                    ErrorKind::UnresolvedReference,
                    String::from_str("no item named `").concat(v.typ.as_str()).concat("`"),
                ),
            ),
            Some(Item::Table(table)) => match table.discriminant_among(&scalars) {
                None => Some(
                    (
                        ErrorKind::TypeMisuse,
                        String::from_str("`").concat(v.typ.as_str()).concat(
                            "` does not begin with a scalar that carries #[format]",
                        ),
                    ),
                ),
                Some((typ, value)) => if *typ != group.format {
                    Some(
                        (
                            ErrorKind::TypeMisuse,
                            String::from_str("the discriminant of `").concat(
                                v.typ.as_str(),
                            ).concat("` is no `").concat(group.format.as_str()).concat("`"),
                        ),
                    )
                } else if self.taken(group, k, value) {
                    Some(
                        (
                            ErrorKind::DuplicateDiscriminant,
                            String::from_str("the discriminant of `").concat(
                                v.typ.as_str(),
                            ).concat("` is that of an earlier variant"),
                        ),
                    )
                } else {
                    None
                },
            },
            Some(_) => Some(
                (
                    ErrorKind::TypeMisuse,
                    String::from_str("`").concat(v.typ.as_str()).concat("` is not a table"),
                ),
            ),
        };
        match found {
            Some((kind, message)) => {
                errors.push(AnalysisError::new(kind, v.name.as_str(), v.span, message.as_str()));
                assert(errors.deep_view() =~= old(errors).deep_view() + seq![
                    variant_error(kind, v@.name, v@.span, message@),
                ]);
            },
            None => {
                assert(errors.deep_view() =~= old(errors).deep_view() + none);
            },
        }
    }

    /// Every finding on a format group, variant by variant.
    pub fn check_format(&self, group: &TableFormat) -> (errors: Vec<AnalysisError>)
        ensures
            errors.deep_view() == self@.format_errors(group@),
    {
        let mut errors: Vec<AnalysisError> = Vec::new();
        let ghost all = Seq::new(
            group@.variants.len(),
            |k: int| self@.variant_findings(group@, k),
        );
        let mut k: usize = 0;
        assert(errors.deep_view() =~= all.take(0).flatten());
        while k < group.variants.len()
            invariant
                k <= group.variants.len(),
                all == Seq::new(group@.variants.len(), |k: int| self@.variant_findings(group@, k)),
                errors.deep_view() == all.take(k as int).flatten(),
            decreases group.variants.len() - k,
        {
            self.check_variant(group, k, &mut errors);
            proof {
                assert(all.take(k + 1) =~= all.take(k as int).push(all[k as int]));
                all.take(k as int).lemma_flatten_push(all[k as int]);
            }
            k += 1;
        }
        assert(all.take(k as int) =~= all);
        errors
    }

    /// Whether a variant before variant `k` of a generic group has the
    /// discriminant `value`.
    fn group_taken(&self, group: &GenericGroup, k: usize, value: u32) -> (r: bool)
        requires
            k <= group.variants.len(),
        ensures
            r == self@.group_taken(group@, k as int, value),
    {
        let mut j: usize = 0;
        while j < k
            invariant
                j <= k <= group.variants.len(),
                forall|i: int| 0 <= i < j ==> (#[trigger] group@.variants[i]).type_id != value,
            decreases k - j,
        {
            assert(group@.variants[j as int] == group.variants[j as int]@);
            if group.variants[j].type_id == value {
                return true;
            }
            j += 1;
        }
        false
    }

    /// Appends what there is to say of variant `k` of a generic group.
    fn check_group_variant(&self, group: &GenericGroup, k: usize, errors: &mut Vec<AnalysisError>)
        requires
            k < group.variants.len(),
        ensures
            final(errors).deep_view() == old(errors).deep_view() + self@.group_variant_findings(
                group@,
                k as int,
            ),
    {
        let v = &group.variants[k];
        assert(group@.variants[k as int] == v@);
        if self.find(&v.typ).is_none() {
            let message = String::from_str("no item named `").concat(v.typ.as_str()).concat("`");
            errors.push(
                AnalysisError::new(
                    ErrorKind::UnresolvedReference,
                    v.name.as_str(),
                    v.span,
                    message.as_str(),
                ),
            );
            assert(errors.deep_view() =~= old(errors).deep_view() + seq![
                variant_error(ErrorKind::UnresolvedReference, v@.name, v@.span, message@),
            ]);
        } else if self.group_taken(group, k, v.type_id) {
            let message = String::from_str("the discriminant of `").concat(v.typ.as_str()).concat(
                "` is that of an earlier variant",
            );
            errors.push(
                AnalysisError::new(
                    ErrorKind::DuplicateDiscriminant,
                    v.name.as_str(),
                    v.span,
                    message.as_str(),
                ),
            );
            assert(errors.deep_view() =~= old(errors).deep_view() + seq![
                variant_error(ErrorKind::DuplicateDiscriminant, v@.name, v@.span, message@),
            ]);
        } else {
            assert(errors.deep_view() =~= old(errors).deep_view() + Seq::<
                AnalysisErrorView,
            >::empty());
        }
    }

    /// Every finding on a generic group, variant by variant.
    pub fn check_group(&self, group: &GenericGroup) -> (errors: Vec<AnalysisError>)
        ensures
            errors.deep_view() == self@.group_errors(group@),
    {
        let mut errors: Vec<AnalysisError> = Vec::new();
        let ghost all = Seq::new(
            group@.variants.len(),
            |k: int| self@.group_variant_findings(group@, k),
        );
        let mut k: usize = 0;
        assert(errors.deep_view() =~= all.take(0).flatten());
        while k < group.variants.len()
            invariant
                k <= group.variants.len(),
                all == Seq::new(
                    group@.variants.len(),
                    |k: int| self@.group_variant_findings(group@, k),
                ),
                errors.deep_view() == all.take(k as int).flatten(),
            decreases group.variants.len() - k,
        {
            self.check_group_variant(group, k, &mut errors);
            proof {
                assert(all.take(k + 1) =~= all.take(k as int).push(all[k as int]));
                all.take(k as int).lemma_flatten_push(all[k as int]);
            }
            k += 1;
        }
        assert(all.take(k as int) =~= all);
        errors
    }

    /// Every finding on an item in `phase`.
    pub fn check_item(&self, item: &Item, phase: Phase) -> (errors: Vec<AnalysisError>)
        ensures
            errors.deep_view() == self@.item_errors(item@, phase),
    {
        match item {
            Item::Record(item) => self.check_fields(&item.fields, phase),
            Item::Table(item) => self.check_fields(&item.fields, phase),
            Item::Format(item) => self.check_format(item),
            Item::GenericGroup(item) => self.check_group(item),
            _ => empty_errors(),
        }
    }

    /// One pass of the analyzer. The first pass, which runs on the
    /// schema as it was read, checks each field by itself, the names
    /// that the fields of an item use of each other, where `count(..)`
    /// stands, and the variants of the groups. The second pass, which
    /// runs on the resolved schema, checks that again, and with it that
    /// the items that the types of the fields name are declared. Each
    /// pass returns all that it finds, item by item. Where a rule asks
    /// whether what a name is bound to is a scalar, the enumerations
    /// and flag sets of the schema are scalars in both passes.
    pub fn sanity_check(&self, phase: Phase) -> (errors: Vec<AnalysisError>)
        ensures
            errors.deep_view() == self@.sanity_errors(phase),
            errors.len() == 0 ==> self@.sane(),
    {
        let mut errors: Vec<AnalysisError> = Vec::new();
        let ghost all = self@.items.map_values(|item: ItemView| self@.item_errors(item, phase));
        let mut i: usize = 0;
        assert(errors.deep_view() =~= all.take(0).flatten());
        while i < self.items.len()
            invariant
                i <= self.items.len(),
                all == self@.items.map_values(|item: ItemView| self@.item_errors(item, phase)),
                errors.deep_view() == all.take(i as int).flatten(),
            decreases self.items.len() - i,
        {
            let mut found = self.check_item(&self.items[i], phase);
            let ghost before = errors.deep_view();
            let ghost added = found.deep_view();
            errors.append(&mut found);
            proof {
                assert(self@.items[i as int] == self.items[i as int]@);
                assert(errors.deep_view() =~= before + added);
                assert(all.take(i + 1) =~= all.take(i as int).push(added));
                all.take(i as int).lemma_flatten_push(added);
            }
            i += 1;
        }
        proof {
            assert(all.take(i as int) =~= all);
            assert(errors.len() == errors.deep_view().len());
            if errors.len() == 0 {
                lemma_no_findings_sane(self@, phase);
            }
        }
        errors
    }
}

/// No findings.
fn empty_errors() -> (errors: Vec<AnalysisError>)
    ensures
        errors.deep_view() == Seq::<AnalysisErrorView>::empty(),
{
    let errors: Vec<AnalysisError> = Vec::new();
    assert(errors.deep_view() =~= Seq::<AnalysisErrorView>::empty());
    errors
}

/// Where a pass of the analyzer finds nothing, every field of every
/// record and table meets the rules that it has to meet by itself.
pub proof fn lemma_no_findings_sane(items: ItemsView, phase: Phase)
    requires
        items.sanity_errors(phase).len() == 0,
    ensures
        items.sane(),
{
    let all = items.items.map_values(|item: ItemView| items.item_errors(item, phase));
    lemma_flatten_empty(all);
    assert forall|i: int| 0 <= i < items.items.len() implies ((
    #[trigger] items.items[i]).fields() matches Some(fields) ==> fields.sane()) by {
        assert(all[i].len() == 0);
        match items.items[i].fields() {
            Some(fields) => {
                assert(items.fields_errors(fields, phase).len() == 0);
                assert(fields.sanity_errors().len() == 0);
                lemma_fields_sane(fields);
            },
            None => {},
        }
    }
}

/// The fields of an item meet the rules exactly when there is no
/// finding on any of them.
pub proof fn lemma_fields_sane(fields: FieldsView)
    ensures
        fields.sanity_errors().len() == 0 <==> fields.sane(),
{
    let all = fields.fields.map_values(|f: FieldView| f.sanity_errors());
    lemma_flatten_empty(all);
    if fields.sane() {
        assert forall|k: int| 0 <= k < all.len() implies (#[trigger] all[k]).len() == 0 by {
            assert(fields.fields[k].sane());
            crate::fields::lemma_sane_iff_no_findings(fields.fields[k]);
        }
    }
    if fields.sanity_errors().len() == 0 {
        assert forall|k: int| 0 <= k < fields.fields.len() implies (#[trigger] fields.fields[k]).sane() by {
            assert(all[k].len() == 0);
            crate::fields::lemma_sane_iff_no_findings(fields.fields[k]);
        }
    }
}

/// Where the second pass of the analyzer finds nothing, it has nothing
/// to say of any item: the fields of every record and table meet
/// their rules, the names that they use are bound, the types that they
/// name are declared, and every format group is in order.
pub proof fn lemma_analysis_passed(items: ItemsView, k: int)
    requires
        items.sanity_errors(Phase::Analysis).len() == 0,
        0 <= k < items.items.len(),
    ensures
        items.items[k].fields() matches Some(fields) ==> fields.sane()
            && fields.reference_errors(items.scalar_names()).len() == 0 && items.type_errors(fields).len() == 0,
        items.items[k] matches ItemView::Format(group) ==> items.format_errors(group).len() == 0,
        items.items[k] matches ItemView::GenericGroup(group) ==> items.group_errors(group).len()
            == 0,
{
    let all = items.items.map_values(|item: ItemView| items.item_errors(item, Phase::Analysis));
    lemma_flatten_empty(all);
    assert(all[k].len() == 0);
    match items.items[k].fields() {
        Some(fields) => {
            assert(items.fields_errors(fields, Phase::Analysis).len() == 0);
            lemma_fields_sane(fields);
        },
        None => {},
    }
}

/// Each pass of the analyzer finds the names that are not bound: the
/// finding on a name that a field of a record or table uses, and that
/// belongs to no field before it and to no argument of the item, is
/// among the findings of the pass.
pub proof fn lemma_pass_finds_unbound_names(
    items: ItemsView,
    phase: Phase,
    k: int,
    i: int,
    name: Seq<char>,
)
    requires
        0 <= k < items.items.len(),
        items.items[k].fields() is Some,
        0 <= i < items.items[k].fields().unwrap().fields.len(),
        items.items[k].fields().unwrap().fields[i].parse_inputs().contains(name)
            || items.items[k].fields().unwrap().fields[i].compile_inputs().contains(name),
        !items.items[k].fields().unwrap().resolves(i, name),
    ensures
        items.sanity_errors(phase).contains(items.items[k].fields().unwrap().unresolved(i, name)),
{
    let fields = items.items[k].fields().unwrap();
    let finding = fields.unresolved(i, name);
    crate::analysis::lemma_unbound_name_is_found(fields, items.scalar_names(), i, name);
    crate::analysis::lemma_joined_holds(fields.sanity_errors(), fields.reference_errors(items.scalar_names()), finding);
    crate::analysis::lemma_joined_holds(
        fields.sanity_errors() + fields.reference_errors(items.scalar_names()),
        if phase == Phase::Analysis {
            items.type_errors(fields)
        } else {
            Seq::empty()
        },
        finding,
    );
    assert(items.fields_errors(fields, phase).contains(finding));
    let all = items.items.map_values(|item: ItemView| items.item_errors(item, phase));
    assert(all[k] == items.fields_errors(fields, phase));
    crate::analysis::lemma_flatten_holds(all, k, finding);
}

/// The discriminants of a format group that the analyzer has nothing
/// to say of are pairwise distinct, and each variant stands for one.
pub proof fn lemma_discriminants_are_distinct(
    items: ItemsView,
    group: TableFormatView,
    j: int,
    k: int,
)
    requires
        items.format_errors(group).len() == 0,
        0 <= j < k < group.variants.len(),
    ensures
        items.variant_value(group.variants[j]) is Some,
        items.variant_value(group.variants[k]) is Some,
        items.variant_value(group.variants[j]) != items.variant_value(group.variants[k]),
{
    let all = Seq::new(group.variants.len(), |k: int| items.variant_findings(group, k));
    lemma_flatten_empty(all);
    assert(all[j].len() == 0);
    assert(all[k].len() == 0);
    let value = items.variant_value(group.variants[k]);
    if items.variant_value(group.variants[j]) == value {
        assert(items.taken(group, k, value->0));
    }
}

} // verus!
