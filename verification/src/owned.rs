//! The owned form of a table that was read, and how it is written
//! back.

use crate::font_data::{
    be_bytes, be_uint, lemma_be_uint_bound, lemma_limit_monotonic, lemma_limit_values,
    lemma_read_then_write, limit, read_be, write_be,
};
use crate::parsing::{Field, FieldType, FieldView, Fields, FieldsView};
use crate::shape::{FieldShape, Shape, total_len, well_placed};
use vstd::prelude::*;

verus! {

/// What the owned table holds for a field.
#[derive(Debug, PartialEq, Eq)]
pub enum Owned {
    /// nothing, for a field that the version of the table does not have
    Absent,
    /// nothing but the width, for a field whose value is made when the
    /// table is written
    Computed { width: usize },
    /// the value of a scalar or an offset
    Scalar { value: u64, width: usize },
    /// the bytes of anything else
    Raw(Vec<u8>),
}

pub enum OwnedView {
    Absent,
    Computed { width: usize },
    Scalar { value: u64, width: usize },
    Raw(Seq<u8>),
}

impl View for Owned {
    type V = OwnedView;

    open spec fn view(&self) -> OwnedView {
        match self {
            Owned::Absent => OwnedView::Absent,
            Owned::Computed { width } => OwnedView::Computed { width: *width },
            Owned::Scalar { value, width } => OwnedView::Scalar { value: *value, width: *width },
            Owned::Raw(bytes) => OwnedView::Raw(bytes@),
        }
    }
}

impl DeepView for Owned {
    type V = OwnedView;

    open spec fn deep_view(&self) -> OwnedView {
        self@
    }
}

impl FieldView {
    /// Whether the owned table holds the field by its value.
    pub open spec fn is_held_by_value(self, shape: FieldShape) -> bool {
        (self.typ is Scalar || self.typ is Offset) && 0 < shape.len <= 8
    }

    /// What the owned table holds for the field, which lies in `data` as
    /// `shape` says.
    pub open spec fn owned(self, shape: FieldShape, data: Seq<u8>) -> OwnedView {
        let bytes = data.subrange(shape.start as int, shape.start + shape.len);
        if !shape.present {
            OwnedView::Absent
        } else if self.is_computed() {
            OwnedView::Computed { width: shape.len }
        } else if self.is_held_by_value(shape) {
            OwnedView::Scalar { value: be_uint(bytes) as u64, width: shape.len }
        } else {
            OwnedView::Raw(bytes)
        }
    }

    /// The bytes that are written for the field. A field that carries
    /// `format` is written as its literal.
    pub open spec fn written(self, held: OwnedView) -> Seq<u8> {
        match held {
            OwnedView::Absent => Seq::empty(),
            OwnedView::Computed { width } => match self.attrs.format {
                Some(format) => be_bytes(format as nat, width as nat),
                None => Seq::empty(),
            },
            OwnedView::Scalar { value, width } => be_bytes(value as nat, width as nat),
            OwnedView::Raw(bytes) => bytes,
        }
    }

    /// Whether what is held for the field can be written: a value fits
    /// in its width.
    pub open spec fn can_write(self, held: OwnedView) -> bool {
        match held {
            OwnedView::Computed { width } => self.attrs.format matches Some(format) ==> width <= 8
                && format < limit(width as nat),
            OwnedView::Scalar { value, width } => width <= 8 && value < limit(width as nat),
            _ => true,
        }
    }
}

/// The owned form of a table that lies in `data` as `shapes` say.
pub open spec fn owned_of(fields: Seq<FieldView>, shapes: Seq<FieldShape>, data: Seq<u8>) -> Seq<
    OwnedView,
> {
    Seq::new(fields.len(), |i: int| fields[i].owned(shapes[i], data))
}

/// The bytes that are written for the first `n` fields of an owned
/// table.
pub open spec fn written_prefix(fields: Seq<FieldView>, held: Seq<OwnedView>, n: int) -> Seq<u8> {
    Seq::new(n as nat, |i: int| fields[i].written(held[i])).flatten()
}

/// The bytes that are written for an owned table: those of its fields
/// in declaration order.
pub open spec fn written(fields: Seq<FieldView>, held: Seq<OwnedView>) -> Seq<u8> {
    written_prefix(fields, held, fields.len() as int)
}

/// Whether an owned table can be written.
pub open spec fn can_write(fields: Seq<FieldView>, held: Seq<OwnedView>) -> bool {
    held.len() == fields.len() && forall|i: int|
        0 <= i < fields.len() ==> (#[trigger] fields[i]).can_write(held[i])
}

/// Whether the data holds the literal of every field that carries
/// `format`.
pub open spec fn formats_hold(fields: Seq<FieldView>, shapes: Seq<FieldShape>, data: Seq<u8>) -> bool {
    forall|i: int|
        0 <= i < fields.len() && (#[trigger] shapes[i]).present ==> (
        fields[i].attrs.format matches Some(format) ==> be_uint(
            data.subrange(shapes[i].start as int, shapes[i].start + shapes[i].len),
        ) == format)
}

/// The lengths of the first fields add up to no more than the lengths
/// of all fields.
pub proof fn lemma_total_len_grows(shapes: Seq<FieldShape>, n: int)
    requires
        0 <= n <= shapes.len(),
    ensures
        total_len(shapes.take(n)) <= total_len(shapes),
        n < shapes.len() ==> total_len(shapes.take(n + 1)) == total_len(shapes.take(n))
            + shapes[n].len,
    decreases shapes.len() - n,
{
    if n < shapes.len() {
        lemma_total_len_grows(shapes, n + 1);
        assert(shapes.take(n + 1).drop_last() =~= shapes.take(n));
    } else {
        assert(shapes.take(n) =~= shapes);
    }
}

/// What is written for the first `n` fields of a table that was read
/// is the data up to the end of those fields.
pub proof fn lemma_round_trip_prefix(
    fields: Seq<FieldView>,
    shapes: Seq<FieldShape>,
    data: Seq<u8>,
    n: int,
)
    requires
        shapes.len() == fields.len(),
        well_placed(shapes),
        total_len(shapes) <= data.len(),
        forall|i: int| 0 <= i < fields.len() ==> (#[trigger] fields[i]).attrs.compile is None,
        formats_hold(fields, shapes, data),
        0 <= n <= fields.len(),
    ensures
        written_prefix(fields, owned_of(fields, shapes, data), n) == data.take(
            total_len(shapes.take(n)) as int,
        ),
    decreases n,
{
    let held = owned_of(fields, shapes, data);
    let pieces = Seq::new(n as nat, |i: int| fields[i].written(held[i]));
    if n == 0 {
        assert(shapes.take(0) =~= Seq::<FieldShape>::empty());
        assert(pieces =~= Seq::<Seq<u8>>::empty());
        assert(data.take(0) =~= Seq::<u8>::empty());
    } else {
        let i = n - 1;
        lemma_round_trip_prefix(fields, shapes, data, i);
        lemma_total_len_grows(shapes, i);
        lemma_total_len_grows(shapes, n);
        let before = Seq::new(i as nat, |k: int| fields[k].written(held[k]));
        let shape = shapes[i];
        let bytes = data.subrange(shape.start as int, shape.start + shape.len);
        let piece = fields[i].written(held[i]);
        assert(shape.start == total_len(shapes.take(i)));
        assert(fields[i].attrs.compile is None);
        assert(piece =~= bytes) by {
            if shape.present {
                lemma_read_then_write(bytes);
                if fields[i].is_computed() {
                    assert(fields[i].attrs.format is Some);
                } else if fields[i].is_held_by_value(shape) {
                    lemma_be_uint_bound(bytes);
                    lemma_limit_values();
                    lemma_limit_monotonic(shape.len as nat, 8);
                }
            }
        }
        assert(pieces =~= before.push(piece));
        before.lemma_flatten_push(piece);
        assert(data.take(total_len(shapes.take(n)) as int) =~= data.take(
            total_len(shapes.take(i)) as int,
        ) + bytes);
    }
}

/// Round trip: for a table without `compile` fields, writing the owned
/// table that was built from reading font data gives the bytes of the
/// table back, bit for bit. The data has to hold the literal of every
/// field that carries `format`, which it does where the table was
/// found through its format group.
pub proof fn lemma_round_trip(fields: Seq<FieldView>, shapes: Seq<FieldShape>, data: Seq<u8>)
    requires
        shapes.len() == fields.len(),
        well_placed(shapes),
        total_len(shapes) <= data.len(),
        forall|i: int| 0 <= i < fields.len() ==> (#[trigger] fields[i]).attrs.compile is None,
        formats_hold(fields, shapes, data),
    ensures
        written(fields, owned_of(fields, shapes, data)) == data.take(total_len(shapes) as int),
{
    lemma_round_trip_prefix(fields, shapes, data, fields.len() as int);
    assert(shapes.take(fields.len() as int) =~= shapes);
}

/// What was read can be written: where the data holds the literal of
/// every field that carries `format`, in no more than eight bytes, the
/// owned table that was built from reading it can be written.
pub proof fn lemma_read_can_be_written(
    fields: Seq<FieldView>,
    shapes: Seq<FieldShape>,
    data: Seq<u8>,
)
    requires
        shapes.len() == fields.len(),
        well_placed(shapes),
        total_len(shapes) <= data.len(),
        formats_hold(fields, shapes, data),
        forall|i: int|
            0 <= i < fields.len() && (#[trigger] shapes[i]).present && fields[i].attrs.format
                is Some ==> shapes[i].len <= 8,
    ensures
        can_write(fields, owned_of(fields, shapes, data)),
{
    let held = owned_of(fields, shapes, data);
    assert forall|i: int| 0 <= i < fields.len() implies (#[trigger] fields[i]).can_write(
        held[i],
    ) by {
        let shape = shapes[i];
        lemma_total_len_grows(shapes, i);
        lemma_total_len_grows(shapes, i + 1);
        let bytes = data.subrange(shape.start as int, shape.start + shape.len);
        lemma_be_uint_bound(bytes);
        lemma_limit_values();
        if shape.len <= 8 {
            lemma_limit_monotonic(shape.len as nat, 8);
        }
        if shape.present && fields[i].attrs.format is Some {
            assert(shapes[i].len <= 8);
        }
    }
}

impl Field {
    /// What the owned table holds for the field.
    pub fn read_owned(&self, shape: FieldShape, data: &[u8]) -> (held: Owned)
        requires
            shape.present ==> shape.start + shape.len <= data@.len(),
        ensures
            held@ == self@.owned(shape, data@),
            self@.attrs.format is None ==> self@.can_write(held@),
    {
        if !shape.present {
            Owned::Absent
        } else if self.is_computed() {
            Owned::Computed { width: shape.len }
        } else if matches!(self.typ, FieldType::Scalar { .. } | FieldType::Offset { .. })
            && 0 < shape.len && shape.len <= 8 {
            proof {
                lemma_be_uint_bound(data@.subrange(shape.start as int, shape.start + shape.len));
                lemma_limit_values();
                lemma_limit_monotonic(shape.len as nat, 8);
            }
            match read_be(data, shape.start, shape.len) {
                Some(value) => Owned::Scalar { value, width: shape.len },
                None => Owned::Absent,
            }
        } else {
            assert(shape.start + shape.len <= data.len());
            let bytes = vstd::slice::slice_subrange(data, shape.start, shape.start + shape.len);
            Owned::Raw(vstd::slice::slice_to_vec(bytes))
        }
    }

    /// Whether what is held for the field can be written.
    pub fn can_write(&self, held: &Owned) -> (r: bool)
        ensures
            r == self@.can_write(held@),
    {
        match held {
            Owned::Computed { width } => match self.attrs.format {
                Some(format) => *width <= 8 && fits(format as u64, *width),
                None => true,
            },
            Owned::Scalar { value, width } => *width <= 8 && fits(*value, *width),
            _ => true,
        }
    }

    /// Appends the bytes that are written for the field.
    pub fn write_owned(&self, held: &Owned, out: &mut Vec<u8>)
        requires
            self@.can_write(held@),
        ensures
            final(out)@ == old(out)@ + self@.written(held@),
    {
        match held {
            Owned::Absent => {
                assert(out@ =~= old(out)@ + Seq::<u8>::empty());
            },
            Owned::Computed { width } => match self.attrs.format {
                Some(format) => {
                    write_be(out, format as u64, *width);
                },
                None => {
                    assert(out@ =~= old(out)@ + Seq::<u8>::empty());
                },
            },
            Owned::Scalar { value, width } => {
                write_be(out, *value, *width);
            },
            Owned::Raw(bytes) => {
                out.extend_from_slice(bytes.as_slice());
            },
        }
    }
}

/// Whether `value` fits in `width` bytes.
pub fn fits(value: u64, width: usize) -> (r: bool)
    requires
        width <= 8,
    ensures
        r == (value < limit(width as nat)),
{
    proof {
        lemma_limit_values();
        reveal_with_fuel(limit, 9);
    }
    if width == 8 {
        true
    } else if width == 0 {
        value < 1
    } else if width == 1 {
        value < 0x100
    } else if width == 2 {
        value < 0x1_0000
    } else if width == 3 {
        value < 0x100_0000
    } else if width == 4 {
        value < 0x1_0000_0000
    } else if width == 5 {
        value < 0x100_0000_0000
    } else if width == 6 {
        value < 0x1_0000_0000_0000
    } else {
        value < 0x100_0000_0000_0000
    }
}

impl Fields {
    /// The owned form of the table, which lies in `data` as `shape`
    /// says.
    pub fn read_owned(&self, shape: &Shape, data: &[u8]) -> (held: Vec<Owned>)
        requires
            shape.fields@.len() == self@.fields.len(),
            well_placed(shape.fields@),
            total_len(shape.fields@) <= data@.len(),
        ensures
            held.deep_view() == owned_of(self@.fields, shape.fields@, data@),
    {
        let mut held: Vec<Owned> = Vec::new();
        let ghost want = owned_of(self@.fields, shape.fields@, data@);
        let mut i: usize = 0;
        while i < self.fields.len()
            invariant
                i <= self.fields.len(),
                shape.fields@.len() == self@.fields.len(),
                well_placed(shape.fields@),
                total_len(shape.fields@) <= data@.len(),
                want == owned_of(self@.fields, shape.fields@, data@),
                held.deep_view() == want.take(i as int),
            decreases self.fields.len() - i,
        {
            proof {
                lemma_total_len_grows(shape.fields@, i as int);
                lemma_total_len_grows(shape.fields@, i + 1);
                assert(self@.fields[i as int] == self.fields[i as int]@);
            }
            let ghost before = held.deep_view();
            let one = self.fields[i].read_owned(shape.fields[i], data);
            let ghost added = one@;
            held.push(one);
            assert(held.deep_view() =~= before.push(added));
            assert(want.take(i + 1) =~= before.push(added));
            i += 1;
        }
        assert(want.take(i as int) =~= want);
        held
    }

    /// Whether an owned table can be written.
    pub fn can_write(&self, held: &Vec<Owned>) -> (r: bool)
        ensures
            r == can_write(self@.fields, held.deep_view()),
    {
        if held.len() != self.fields.len() {
            return false;
        }
        let mut i: usize = 0;
        while i < self.fields.len()
            invariant
                i <= self.fields.len(),
                held.len() == self.fields.len(),
                forall|k: int|
                    0 <= k < i ==> (#[trigger] self@.fields[k]).can_write(held.deep_view()[k]),
            decreases self.fields.len() - i,
        {
            assert(self@.fields[i as int] == self.fields[i as int]@);
            assert(held.deep_view()[i as int] == held[i as int]@);
            if !self.fields[i].can_write(&held[i]) {
                return false;
            }
            i += 1;
        }
        true
    }

    /// Writes an owned table: the bytes of its fields in declaration
    /// order.
    pub fn write_owned(&self, held: &Vec<Owned>) -> (out: Vec<u8>)
        requires
            can_write(self@.fields, held.deep_view()),
        ensures
            out@ == written(self@.fields, held.deep_view()),
    {
        let mut out: Vec<u8> = Vec::new();
        let ghost pieces = Seq::new(
            self@.fields.len(),
            |i: int| self@.fields[i].written(held.deep_view()[i]),
        );
        let mut i: usize = 0;
        assert(out@ =~= pieces.take(0).flatten());
        while i < self.fields.len()
            invariant
                i <= self.fields.len(),
                can_write(self@.fields, held.deep_view()),
                pieces == Seq::new(
                    self@.fields.len(),
                    |i: int| self@.fields[i].written(held.deep_view()[i]),
                ),
                out@ == pieces.take(i as int).flatten(),
            decreases self.fields.len() - i,
        {
            proof {
                assert(self@.fields[i as int] == self.fields[i as int]@);
                assert(held.deep_view()[i as int] == held[i as int]@);
                assert(self@.fields[i as int].can_write(held.deep_view()[i as int]));
                assert(pieces.take(i + 1) =~= pieces.take(i as int).push(pieces[i as int]));
                pieces.take(i as int).lemma_flatten_push(pieces[i as int]);
            }
            self.fields[i].write_owned(&held[i], &mut out);
            i += 1;
        }
        assert(pieces.take(i as int) =~= pieces);
        out
    }
}

/// What the validation of an owned table reports.
#[derive(Debug, Clone, Copy, PartialEq, Eq, Structural)]
pub enum CompileErrorKind {
    /// an array holds more elements than the scalar that holds its
    /// length can say
    ArrayTooLong,
}

/// A finding of the validation of an owned table, under the name of
/// the field that it is about.
#[derive(Debug, PartialEq, Eq)]
pub struct CompileError {
    pub field: String,
    pub kind: CompileErrorKind,
}

pub struct CompileErrorView {
    pub field: Seq<char>,
    pub kind: CompileErrorKind,
}

impl View for CompileError {
    type V = CompileErrorView;

    open spec fn view(&self) -> CompileErrorView {
        CompileErrorView { field: self.field@, kind: self.kind }
    }
}

impl DeepView for CompileError {
    type V = CompileErrorView;

    open spec fn deep_view(&self) -> CompileErrorView {
        self@
    }
}

impl FieldsView {
    /// The width of the scalar that holds the length of field `i`: that
    /// of the field or argument that the count of the array names
    /// first, where the runtime defines its type.
    pub open spec fn count_width(self, i: int) -> Option<nat> {
        match self.fields[i].attrs.count {
            Some(count) => if count.referenced_fields().len() > 0 {
                match self.scalar_field_type(count.referenced_fields()[0]) {
                    Some(typ) => crate::layout::scalar_size(typ),
                    None => None,
                }
            } else {
                None
            },
            None => None,
        }
    }

    /// Whether field `i` is too long with `len` elements: the scalar
    /// that holds its length cannot say that many.
    pub open spec fn too_long(self, i: int, len: u64) -> bool {
        self.count_width(i) matches Some(width) && len >= limit(width)
    }

    /// What the validation reports of field `i`, which holds `len`
    /// elements.
    pub open spec fn len_findings(self, i: int, len: u64) -> Seq<CompileErrorView> {
        if self.too_long(i, len) {
            seq![
                CompileErrorView {
                    field: self.fields[i].name,
                    kind: CompileErrorKind::ArrayTooLong,
                },
            ]
        } else {
            Seq::empty()
        }
    }

    /// What the validation of the lengths reports, field by field.
    pub open spec fn len_errors(self, lens: Seq<u64>) -> Seq<CompileErrorView> {
        Seq::new(self.fields.len(), |i: int| self.len_findings(i, lens[i])).flatten()
    }
}

impl Fields {
    /// The width of the scalar that holds the length of field `i`.
    pub fn count_width(&self, i: usize) -> (width: Option<u64>)
        requires
            i < self.fields.len(),
        ensures
            match width {
                Some(w) => self@.count_width(i as int) == Some(w as nat) && 1 <= w <= 8,
                None => self@.count_width(i as int) is None,
            },
    {
        assert(self@.fields[i as int] == self.fields[i as int]@);
        match &self.fields[i].attrs.count {
            Some(count) => {
                let mut names: Vec<String> = Vec::new();
                count.collect_referenced_fields(&mut names);
                assert(names.deep_view() =~= count@.referenced_fields());
                if names.len() > 0 {
                    assert(names.deep_view()[0] == names[0]@);
                    match self.find_scalar_field_type(&names[0]) {
                        Some(typ) => crate::layout::size_of_scalar(typ),
                        None => None,
                    }
                } else {
                    None
                }
            },
            None => None,
        }
    }

    /// Validates the lengths of the arrays of an owned table. `lens`
    /// gives for each field the number of elements that the owned table
    /// holds for it. Every array that is too long is reported under its
    /// name; the validation does not stop at the first.
    pub fn validate_lens(&self, lens: &Vec<u64>) -> (errors: Vec<CompileError>)
        requires
            lens.len() == self.fields.len(),
        ensures
            errors.deep_view() == self@.len_errors(lens@),
    {
        let mut errors: Vec<CompileError> = Vec::new();
        let ghost all = Seq::new(self@.fields.len(), |i: int| self@.len_findings(i, lens@[i]));
        let mut i: usize = 0;
        assert(errors.deep_view() =~= all.take(0).flatten());
        while i < self.fields.len()
            invariant
                i <= self.fields.len(),
                lens.len() == self.fields.len(),
                all == Seq::new(self@.fields.len(), |i: int| self@.len_findings(i, lens@[i])),
                errors.deep_view() == all.take(i as int).flatten(),
            decreases self.fields.len() - i,
        {
            let ghost before = errors.deep_view();
            assert(self@.fields[i as int] == self.fields[i as int]@);
            let long = match self.count_width(i) {
                Some(width) => width < 8 && !fits(lens[i], width as usize),
                None => false,
            };
            proof {
                lemma_limit_values();
                assert(long == self@.too_long(i as int, lens@[i as int]));
                assert(all.take(i + 1) =~= all.take(i as int).push(all[i as int]));
                all.take(i as int).lemma_flatten_push(all[i as int]);
            }
            if long {
                let error = CompileError {
                    field: self.fields[i].name.clone(),
                    kind: CompileErrorKind::ArrayTooLong,
                };
                let ghost added = error@;
                errors.push(error);
                assert(errors.deep_view() =~= before + seq![added]);
            } else {
                assert(errors.deep_view() =~= before + Seq::<CompileErrorView>::empty());
            }
            i += 1;
        }
        assert(all.take(i as int) =~= all);
        errors
    }
}

} // verus!
