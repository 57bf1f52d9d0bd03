//! What a field is: the predicates that the lowering passes ask of it,
//! and the checks that the analyzer makes on it.

use crate::error::{AnalysisError, AnalysisErrorView, ErrorKind};
use crate::parsing::{
    Count, CountView, Expr, ExprView, Field, FieldType, FieldTypeView, FieldView, Span,
    field_type_view,
};
use vstd::prelude::*;

verus! {

impl ExprView {
    /// The fields that the expression names, from left to right.
    pub open spec fn referenced_fields(self) -> Seq<Seq<char>>
        decreases self,
    {
        match self {
            ExprView::Field(name) => seq![name],
            ExprView::Literal(_) => Seq::empty(),
            ExprView::Call { op, lhs, rhs } => lhs.referenced_fields() + rhs.referenced_fields(),
        }
    }
}

impl Expr {
    /// Appends the fields that the expression names, from left to right.
    pub fn collect_referenced_fields(&self, out: &mut Vec<String>)
        ensures
            final(out).deep_view() == old(out).deep_view() + self@.referenced_fields(),
        decreases self,
    {
        match self {
            Expr::Field(name) => {
                out.push(name.clone());
                assert(out.deep_view() =~= old(out).deep_view() + seq![name@]);
            },
            Expr::Literal(_) => {
                assert(out.deep_view() =~= old(out).deep_view() + Seq::<Seq<char>>::empty());
            },
            Expr::Call { op, lhs, rhs } => {
                lhs.collect_referenced_fields(out);
                rhs.collect_referenced_fields(out);
                assert(out.deep_view() =~= old(out).deep_view() + (lhs@.referenced_fields()
                    + rhs@.referenced_fields()));
            },
        }
    }

    /// The fields that the expression names, from left to right.
    pub fn referenced_fields(&self) -> (out: Vec<String>)
        ensures
            out.deep_view() == self@.referenced_fields(),
    {
        let mut out: Vec<String> = Vec::new();
        self.collect_referenced_fields(&mut out);
        assert(out.deep_view() =~= self@.referenced_fields());
        out
    }
}

impl CountView {
    /// The fields that the count names, from left to right.
    pub open spec fn referenced_fields(self) -> Seq<Seq<char>> {
        match self {
            CountView::Field(name) => seq![name],
            CountView::Literal(_) => Seq::empty(),
            CountView::All => Seq::empty(),
            CountView::Expr(e) => e.referenced_fields(),
        }
    }
}

impl Count {
    /// Appends the fields that the count names, from left to right.
    pub fn collect_referenced_fields(&self, out: &mut Vec<String>)
        ensures
            final(out).deep_view() == old(out).deep_view() + self@.referenced_fields(),
    {
        match self {
            Count::Field(name) => {
                out.push(name.clone());
                assert(out.deep_view() =~= old(out).deep_view() + seq![name@]);
            },
            Count::Literal(_) => {
                assert(out.deep_view() =~= old(out).deep_view() + Seq::<Seq<char>>::empty());
            },
            Count::All => {
                assert(out.deep_view() =~= old(out).deep_view() + Seq::<Seq<char>>::empty());
            },
            Count::Expr(e) => {
                e.collect_referenced_fields(out);
            },
        }
    }
}

impl FieldTypeView {
    /// Whether no array stands inside an array.
    pub open spec fn is_flat(self) -> bool {
        match self {
            FieldTypeView::Array { inner_typ } => !(*inner_typ is Array) && !(*inner_typ is ComputedArray),
            _ => true,
        }
    }

    /// Whether this is an array of offsets.
    pub open spec fn is_offset_array(self) -> bool {
        match self {
            FieldTypeView::Array { inner_typ } => *inner_typ is Offset,
            _ => false,
        }
    }

    /// Whether a value of this type needs its own validation when it is
    /// compiled: offsets and what holds them, and computed arrays.
    pub open spec fn gets_recursive_validation(self) -> bool {
        match self {
            FieldTypeView::Scalar { .. } | FieldTypeView::Other { .. } => false,
            FieldTypeView::Offset { .. } | FieldTypeView::ComputedArray(_) => true,
            FieldTypeView::Array { inner_typ } => *inner_typ is Offset || *inner_typ is Other,
        }
    }
}

impl FieldType {
    /// Whether no array stands inside an array.
    pub fn is_flat(&self) -> (r: bool)
        ensures
            r == self@.is_flat(),
    {
        proof {
            reveal_with_fuel(field_type_view, 2);
        }
        match self {
            FieldType::Array { inner_typ } => {
                !matches!(**inner_typ, FieldType::Array { .. } | FieldType::ComputedArray(_))
            },
            _ => true,
        }
    }

    /// Whether this is an array of offsets.
    pub fn is_offset_array(&self) -> (r: bool)
        ensures
            r == self@.is_offset_array(),
    {
        proof {
            reveal_with_fuel(field_type_view, 2);
        }
        match self {
            FieldType::Array { inner_typ } => matches!(**inner_typ, FieldType::Offset { .. }),
            _ => false,
        }
    }
}

impl FieldView {
    pub open spec fn is_array(self) -> bool {
        self.typ is Array
    }

    pub open spec fn is_computed_array(self) -> bool {
        self.typ is ComputedArray
    }

    /// Whether an attribute gives the field's length.
    pub open spec fn has_computed_len(self) -> bool {
        self.attrs.len is Some || self.attrs.count is Some || self.attrs.read_with_args is Some
    }

    /// Whether the field is there only from some version on.
    pub open spec fn is_version_dependent(self) -> bool {
        self.attrs.available is Some
    }

    pub open spec fn is_nullable(self) -> bool {
        self.attrs.nullable
    }

    /// Whether the field's value is made when the table is written, so
    /// that the owned table does not hold it.
    pub open spec fn is_computed(self) -> bool {
        self.attrs.format is Some || self.attrs.compile is Some
    }

    pub open spec fn has_getter(self) -> bool {
        !self.attrs.skip_getter
    }

    /// The names that the field's length and arguments are computed
    /// from: those of `count`, then of `len`, then of `read_with_args`.
    pub open spec fn input_fields(self) -> Seq<Seq<char>> {
        (match self.attrs.count {
            Some(count) => count.referenced_fields(),
            None => Seq::empty(),
        }) + (match self.attrs.len {
            Some(expr) => expr.referenced_fields(),
            None => Seq::empty(),
        }) + (match self.attrs.read_with_args {
            Some(args) => args.inputs,
            None => Seq::empty(),
        })
    }

    /// What a field that is there only from some version on is decided
    /// by: the field of the table that holds the version.
    pub open spec fn version_inputs(self) -> Seq<Seq<char>> {
        if self.attrs.available is Some {
            seq![version_name()]
        } else {
            Seq::empty()
        }
    }

    /// Every name that the validator needs a value for when it comes
    /// to the field: what its length and arguments are computed from,
    /// and what decides whether it is there.
    pub open spec fn parse_inputs(self) -> Seq<Seq<char>> {
        self.input_fields() + self.version_inputs()
    }
}

/// The name of the field that holds the version of a table.
pub open spec fn version_name() -> Seq<char> {
    "version"@
}

/// The name of the field that holds the version of a table.
pub fn version_name_text() -> (name: String)
    ensures
        name@ == version_name(),
{
    String::from_str("version")
}

impl Field {
    pub fn is_array(&self) -> (r: bool)
        ensures
            r == self@.is_array(),
    {
        matches!(&self.typ, FieldType::Array { .. })
    }

    pub fn is_computed_array(&self) -> (r: bool)
        ensures
            r == self@.is_computed_array(),
    {
        matches!(&self.typ, FieldType::ComputedArray { .. })
    }

    /// Whether an attribute gives the field's length.
    pub fn has_computed_len(&self) -> (r: bool)
        ensures
            r == self@.has_computed_len(),
    {
        self.attrs.len.is_some() || self.attrs.count.is_some()
            || self.attrs.read_with_args.is_some()
    }

    /// Whether the field is there only from some version on.
    pub fn is_version_dependent(&self) -> (r: bool)
        ensures
            r == self@.is_version_dependent(),
    {
        self.attrs.available.is_some()
    }

    pub fn is_nullable(&self) -> (r: bool)
        ensures
            r == self@.is_nullable(),
    {
        self.attrs.nullable
    }

    /// Whether the field's value is made when the table is written.
    pub fn is_computed(&self) -> (r: bool)
        ensures
            r == self@.is_computed(),
    {
        self.attrs.format.is_some() || self.attrs.compile.is_some()
    }

    /// Whether the validator checks the field's value. No field's value
    /// is checked while a table is parsed.
    pub fn validate_at_parse(&self) -> (r: bool)
        ensures
            !r,
    {
        false
    }

    pub fn has_getter(&self) -> (r: bool)
        ensures
            r == self@.has_getter(),
    {
        !self.attrs.skip_getter
    }

    /// Whether the field's owned value is validated on its own.
    pub fn gets_recursive_validation(&self) -> (r: bool)
        ensures
            r == self@.typ.gets_recursive_validation(),
    {
        proof {
            reveal_with_fuel(field_type_view, 2);
        }
        match &self.typ {
            FieldType::Scalar { .. } | FieldType::Other { .. } => false,
            FieldType::Offset { .. } | FieldType::ComputedArray { .. } => true,
            FieldType::Array { inner_typ } => match &**inner_typ {
                FieldType::Offset { .. } | FieldType::Other { .. } => true,
                _ => false,
            },
        }
    }

    /// The names that the field's length and arguments are computed from.
    pub fn input_fields(&self) -> (out: Vec<String>)
        ensures
            out.deep_view() == self@.input_fields(),
    {
        let mut out: Vec<String> = Vec::new();
        assert(out.deep_view() =~= Seq::<Seq<char>>::empty());
        let ghost none = Seq::<Seq<char>>::empty();
        match &self.attrs.count {
            Some(count) => {
                count.collect_referenced_fields(&mut out);
            },
            None => {
                assert(out.deep_view() =~= none + none);
            },
        }
        let ghost after_count = out.deep_view();
        match &self.attrs.len {
            Some(expr) => {
                expr.collect_referenced_fields(&mut out);
            },
            None => {
                assert(out.deep_view() =~= after_count + none);
            },
        }
        let ghost after_len = out.deep_view();
        match &self.attrs.read_with_args {
            Some(args) => {
                let mut i: usize = 0;
                while i < args.inputs.len()
                    invariant
                        i <= args.inputs.len(),
                        out.deep_view() == after_len + args.inputs.deep_view().take(i as int),
                    decreases args.inputs.len() - i,
                {
                    let ghost before = out.deep_view();
                    out.push(args.inputs[i].clone());
                    assert(out.deep_view() =~= before.push(args.inputs[i as int]@));
                    assert(args.inputs.deep_view().take(i + 1) =~= args.inputs.deep_view().take(
                        i as int,
                    ).push(args.inputs[i as int]@));
                    i += 1;
                }
                assert(args.inputs.deep_view().take(i as int) =~= args.inputs.deep_view());
            },
            None => {
                assert(out.deep_view() =~= after_len + none);
            },
        }
        assert(after_count =~= none + match self@.attrs.count {
            Some(count) => count.referenced_fields(),
            None => none,
        });
        out
    }

    /// What a field that is there only from some version on is decided
    /// by.
    pub fn version_inputs(&self) -> (out: Vec<String>)
        ensures
            out.deep_view() == self@.version_inputs(),
    {
        let mut out: Vec<String> = Vec::new();
        if self.attrs.available.is_some() {
            out.push(version_name_text());
            assert(out.deep_view() =~= seq![version_name()]);
        } else {
            assert(out.deep_view() =~= Seq::<Seq<char>>::empty());
        }
        out
    }

    /// Every name that the validator needs a value for when it comes
    /// to the field.
    pub fn parse_inputs(&self) -> (out: Vec<String>)
        ensures
            out.deep_view() == self@.parse_inputs(),
    {
        let mut out = self.input_fields();
        let ghost inputs = out.deep_view();
        let mut version = self.version_inputs();
        let ghost added = version.deep_view();
        out.append(&mut version);
        assert(out.deep_view() =~= inputs + added);
        out
    }
}

/// The rules that a field has to meet by itself.
#[derive(Debug, Clone, Copy, PartialEq, Eq, Structural)]
pub enum FieldRule {
    /// arrays never nest
    NestedArray,
    /// an array has a `count` or a `len`
    ArrayWithoutLength,
    /// an array has only one of `count` and `len`
    ArrayWithTwoLengths,
    /// `read_with_args` goes without `len`
    LenWithReadArgs,
    /// a computed array has a `count`
    ComputedArrayWithoutCount,
    /// a computed array has `read_with_args`
    ComputedArrayWithoutArgs,
    /// `read_with_args` stands on no scalar and on no array but one of
    /// offsets
    ReadArgsOnWrongType,
    /// `count` stands on no scalar and on no offset
    CountOnWrongType,
    /// `count(..)` goes without `available`
    CountAllWithAvailable,
    /// `format` stands on what has a type with a name, not on arrays
    FormatOnArray,
    /// the accessor that resolves an offset has a name: the field's
    /// name is more than `_offset` or `_offsets`
    OffsetWithoutName,
}

impl FieldRule {
    /// How a breach of the rule is classified.
    pub open spec fn spec_kind(self) -> ErrorKind {
        match self {
            FieldRule::ArrayWithoutLength | FieldRule::ComputedArrayWithoutCount => {
                ErrorKind::MissingLength
            },
            _ => ErrorKind::TypeMisuse,
        }
    }

    /// What is said of a breach of the rule.
    pub open spec fn spec_message(self) -> Seq<char> {
        match self {
            FieldRule::NestedArray => "nested arrays are not allowed"@,
            FieldRule::ArrayWithoutLength => "array requires #[count] attribute"@,
            FieldRule::ArrayWithTwoLengths => "array takes one of #[count] and #[len], not both"@,
            FieldRule::LenWithReadArgs => "#[len_expr] unnecessary, #[read_with] provides computed length"@,
            FieldRule::ComputedArrayWithoutCount => "missing count attribute"@,
            FieldRule::ComputedArrayWithoutArgs => "computed array requires #[read_with_args]"@,
            FieldRule::ReadArgsOnWrongType => "attribute not valid on this type"@,
            FieldRule::CountOnWrongType => "#[count] is not valid on scalars and offsets"@,
            FieldRule::CountAllWithAvailable => "#[count(..)] cannot be combined with #[available]"@,
            FieldRule::FormatOnArray => "#[format] is not valid on arrays"@,
            FieldRule::OffsetWithoutName => "the name of an offset is more than `_offset`"@,
        }
    }

    /// How a breach of the rule is classified.
    pub fn kind(self) -> (kind: ErrorKind)
        ensures
            kind == self.spec_kind(),
    {
        match self {
            FieldRule::ArrayWithoutLength | FieldRule::ComputedArrayWithoutCount => {
                ErrorKind::MissingLength
            },
            _ => ErrorKind::TypeMisuse,
        }
    }

    /// What is said of a breach of the rule.
    pub fn message(self) -> (message: &'static str)
        ensures
            message@ == self.spec_message(),
    {
        match self {
            FieldRule::NestedArray => "nested arrays are not allowed",
            FieldRule::ArrayWithoutLength => "array requires #[count] attribute",
            FieldRule::ArrayWithTwoLengths => "array takes one of #[count] and #[len], not both",
            FieldRule::LenWithReadArgs => "#[len_expr] unnecessary, #[read_with] provides computed length",
            FieldRule::ComputedArrayWithoutCount => "missing count attribute",
            FieldRule::ComputedArrayWithoutArgs => "computed array requires #[read_with_args]",
            FieldRule::ReadArgsOnWrongType => "attribute not valid on this type",
            FieldRule::CountOnWrongType => "#[count] is not valid on scalars and offsets",
            FieldRule::CountAllWithAvailable => "#[count(..)] cannot be combined with #[available]",
            FieldRule::FormatOnArray => "#[format] is not valid on arrays",
            FieldRule::OffsetWithoutName => "the name of an offset is more than `_offset`",
        }
    }
}

impl FieldView {
    /// Whether the field breaks `rule`.
    pub open spec fn breaks(self, rule: FieldRule) -> bool {
        match rule {
            FieldRule::NestedArray => !self.typ.is_flat(),
            FieldRule::ArrayWithoutLength => self.is_array() && self.attrs.count is None
                && self.attrs.len is None,
            FieldRule::ArrayWithTwoLengths => self.is_array() && self.attrs.count is Some
                && self.attrs.len is Some,
            FieldRule::LenWithReadArgs => self.attrs.read_with_args is Some && self.attrs.len is Some,
            FieldRule::ComputedArrayWithoutCount => self.is_computed_array()
                && self.attrs.count is None,
            FieldRule::ComputedArrayWithoutArgs => self.is_computed_array()
                && self.attrs.read_with_args is None,
            FieldRule::ReadArgsOnWrongType => self.attrs.read_with_args is Some && (self.typ is Scalar
                || (self.is_array() && !self.typ.is_offset_array())),
            FieldRule::CountOnWrongType => self.attrs.count is Some && (self.typ is Scalar
                || self.typ is Offset),
            FieldRule::CountAllWithAvailable => self.attrs.count == Some(CountView::All)
                && self.attrs.available is Some,
            FieldRule::FormatOnArray => self.attrs.format is Some && (self.is_array()
                || self.is_computed_array()),
            FieldRule::OffsetWithoutName => self.typed_offset_field_getter() is Some && (
            self.offset_getter_name() matches Some(name) && name.len() == 0),
        }
    }

    /// Where a breach of `rule` by this field is found: at the `len`
    /// that goes with `read_with_args`, at a computed array that lacks
    /// its count or its arguments, at the `read_with_args` that stands
    /// on the wrong type, and else at the field's name.
    pub open spec fn rule_span(self, rule: FieldRule) -> Span {
        match rule {
            FieldRule::LenWithReadArgs => self.attrs.len_span,
            FieldRule::ComputedArrayWithoutCount | FieldRule::ComputedArrayWithoutArgs => match self.typ {
                FieldTypeView::ComputedArray(array) => array.span,
                _ => self.span,
            },
            FieldRule::ReadArgsOnWrongType => self.attrs.read_with_args_span,
            _ => self.span,
        }
    }

    /// The finding that a breach of `rule` by this field gives.
    pub open spec fn finding(self, rule: FieldRule) -> AnalysisErrorView {
        AnalysisErrorView {
            kind: rule.spec_kind(),
            name: self.name,
            span: self.rule_span(rule),
            message: rule.spec_message(),
        }
    }

    /// The finding for `rule` if the field breaks it, and nothing if not.
    pub open spec fn findings(self, rule: FieldRule) -> Seq<AnalysisErrorView> {
        if self.breaks(rule) {
            seq![self.finding(rule)]
        } else {
            Seq::empty()
        }
    }

    /// Whether the field meets every rule.
    pub open spec fn sane(self) -> bool {
        forall|rule: FieldRule| !self.breaks(rule)
    }

    /// Every finding on the field, in the order of the rules.
    pub open spec fn sanity_errors(self) -> Seq<AnalysisErrorView> {
        self.findings(FieldRule::NestedArray) + self.findings(FieldRule::ArrayWithoutLength)
            + self.findings(FieldRule::ArrayWithTwoLengths) + self.findings(
            FieldRule::LenWithReadArgs,
        ) + self.findings(FieldRule::ComputedArrayWithoutCount) + self.findings(
            FieldRule::ComputedArrayWithoutArgs,
        ) + self.findings(FieldRule::ReadArgsOnWrongType) + self.findings(
            FieldRule::CountOnWrongType,
        ) + self.findings(FieldRule::CountAllWithAvailable) + self.findings(
            FieldRule::FormatOnArray,
        ) + self.findings(FieldRule::OffsetWithoutName)
    }
}

impl Field {
    /// Whether the field breaks `rule`.
    pub fn breaks(&self, rule: FieldRule) -> (r: bool)
        ensures
            r == self@.breaks(rule),
    {
        let is_array = self.is_array();
        let is_computed_array = self.is_computed_array();
        match rule {
            FieldRule::NestedArray => !self.typ.is_flat(),
            FieldRule::ArrayWithoutLength => is_array && self.attrs.count.is_none()
                && self.attrs.len.is_none(),
            FieldRule::ArrayWithTwoLengths => is_array && self.attrs.count.is_some()
                && self.attrs.len.is_some(),
            FieldRule::LenWithReadArgs => self.attrs.read_with_args.is_some()
                && self.attrs.len.is_some(),
            FieldRule::ComputedArrayWithoutCount => is_computed_array && self.attrs.count.is_none(),
            FieldRule::ComputedArrayWithoutArgs => is_computed_array
                && self.attrs.read_with_args.is_none(),
            FieldRule::ReadArgsOnWrongType => self.attrs.read_with_args.is_some() && (matches!(
                &self.typ,
                FieldType::Scalar { .. }
            ) || (is_array && !self.typ.is_offset_array())),
            FieldRule::CountOnWrongType => self.attrs.count.is_some() && matches!(
                &self.typ,
                FieldType::Scalar { .. } | FieldType::Offset { .. }
            ),
            FieldRule::CountAllWithAvailable => matches!(&self.attrs.count, Some(Count::All))
                && self.attrs.available.is_some(),
            FieldRule::FormatOnArray => self.attrs.format.is_some() && (is_array
                || is_computed_array),
            FieldRule::OffsetWithoutName => {
                if self.attrs.skip_offset_getter {
                    false
                } else {
                    match (&self.typ, self.offset_getter_name()) {
                        (FieldType::Offset { typ, target: Some(target) }, Some(name)) => {
                            name.as_str().unicode_len() == 0
                        },
                        _ => false,
                    }
                }
            },
        }
    }

    /// Where a breach of `rule` by this field is found.
    pub fn rule_span(&self, rule: FieldRule) -> (span: Span)
        ensures
            span == self@.rule_span(rule),
    {
        match rule {
            FieldRule::LenWithReadArgs => self.attrs.len_span,
            FieldRule::ComputedArrayWithoutCount | FieldRule::ComputedArrayWithoutArgs => match &self.typ {
                FieldType::ComputedArray(array) => array.span,
                _ => self.span,
            },
            FieldRule::ReadArgsOnWrongType => self.attrs.read_with_args_span,
            _ => self.span,
        }
    }

    /// Appends the finding for `rule` if the field breaks it.
    fn check(&self, rule: FieldRule, errors: &mut Vec<AnalysisError>)
        ensures
            final(errors).deep_view() == old(errors).deep_view() + self@.findings(rule),
    {
        if self.breaks(rule) {
            let error = AnalysisError::new(
                rule.kind(),
                self.name.as_str(),
                self.rule_span(rule),
                rule.message(),
            );
            errors.push(error);
            assert(errors.deep_view() =~= old(errors).deep_view() + seq![self@.finding(rule)]);
        } else {
            assert(errors.deep_view() =~= old(errors).deep_view() + Seq::<
                AnalysisErrorView,
            >::empty());
        }
    }

    /// Checks the field against every rule that it has to meet by
    /// itself, and returns every finding, in the order of the rules.
    pub fn sanity_check(&self) -> (errors: Vec<AnalysisError>)
        ensures
            errors.deep_view() == self@.sanity_errors(),
            errors.len() == 0 <==> self@.sane(),
    {
        let mut errors: Vec<AnalysisError> = Vec::new();
        assert(errors.deep_view() =~= Seq::<AnalysisErrorView>::empty());
        self.check(FieldRule::NestedArray, &mut errors);
        assert(errors.deep_view() =~= self@.findings(FieldRule::NestedArray));
        self.check(FieldRule::ArrayWithoutLength, &mut errors);
        self.check(FieldRule::ArrayWithTwoLengths, &mut errors);
        self.check(FieldRule::LenWithReadArgs, &mut errors);
        self.check(FieldRule::ComputedArrayWithoutCount, &mut errors);
        self.check(FieldRule::ComputedArrayWithoutArgs, &mut errors);
        self.check(FieldRule::ReadArgsOnWrongType, &mut errors);
        self.check(FieldRule::CountOnWrongType, &mut errors);
        self.check(FieldRule::CountAllWithAvailable, &mut errors);
        self.check(FieldRule::FormatOnArray, &mut errors);
        self.check(FieldRule::OffsetWithoutName, &mut errors);
        proof {
            lemma_sane_iff_no_findings(self@);
            assert(errors.len() == errors.deep_view().len());
        }
        errors
    }
}

/// The number of findings on a field: one for each rule that it breaks.
pub proof fn lemma_count_findings(f: FieldView)
    ensures
        f.sanity_errors().len() == f.findings(FieldRule::NestedArray).len() + f.findings(
            FieldRule::ArrayWithoutLength,
        ).len() + f.findings(FieldRule::ArrayWithTwoLengths).len() + f.findings(
            FieldRule::LenWithReadArgs,
        ).len() + f.findings(FieldRule::ComputedArrayWithoutCount).len() + f.findings(
            FieldRule::ComputedArrayWithoutArgs,
        ).len() + f.findings(FieldRule::ReadArgsOnWrongType).len() + f.findings(
            FieldRule::CountOnWrongType,
        ).len() + f.findings(FieldRule::CountAllWithAvailable).len() + f.findings(
            FieldRule::FormatOnArray,
        ).len() + f.findings(FieldRule::OffsetWithoutName).len(),
{
}

/// A field meets every rule exactly when no rule gives a finding.
pub proof fn lemma_sane_iff_no_findings(f: FieldView)
    ensures
        f.sane() <==> f.sanity_errors().len() == 0,
{
    lemma_count_findings(f);
    if f.sane() {
        assert(f.findings(FieldRule::NestedArray).len() == 0);
        assert(f.findings(FieldRule::ArrayWithoutLength).len() == 0);
        assert(f.findings(FieldRule::ArrayWithTwoLengths).len() == 0);
        assert(f.findings(FieldRule::LenWithReadArgs).len() == 0);
        assert(f.findings(FieldRule::ComputedArrayWithoutCount).len() == 0);
        assert(f.findings(FieldRule::ComputedArrayWithoutArgs).len() == 0);
        assert(f.findings(FieldRule::ReadArgsOnWrongType).len() == 0);
        assert(f.findings(FieldRule::CountOnWrongType).len() == 0);
        assert(f.findings(FieldRule::CountAllWithAvailable).len() == 0);
        assert(f.findings(FieldRule::FormatOnArray).len() == 0);
        assert(f.findings(FieldRule::OffsetWithoutName).len() == 0);
    }
    if f.sanity_errors().len() == 0 {
        assert forall|rule: FieldRule| !f.breaks(rule) by {
            lemma_finding_counts(f, rule);
        }
    }
}

/// A rule that a field breaks gives one finding, which is among the
/// findings on the field.
proof fn lemma_finding_counts(f: FieldView, rule: FieldRule)
    ensures
        f.breaks(rule) ==> f.sanity_errors().len() > 0,
{
    lemma_count_findings(f);
    if f.breaks(rule) {
        assert(f.findings(rule).len() == 1);
        match rule {
            FieldRule::NestedArray => {},
            FieldRule::ArrayWithoutLength => {},
            FieldRule::ArrayWithTwoLengths => {},
            FieldRule::LenWithReadArgs => {},
            FieldRule::ComputedArrayWithoutCount => {},
            FieldRule::ComputedArrayWithoutArgs => {},
            FieldRule::ReadArgsOnWrongType => {},
            FieldRule::CountOnWrongType => {},
            FieldRule::CountAllWithAvailable => {},
            FieldRule::FormatOnArray => {},
            FieldRule::OffsetWithoutName => {},
        }
    }
}

} // verus!
