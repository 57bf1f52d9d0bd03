//! What holds of every table that the validator accepts: each field
//! lies where the fields before it end, is present as the version of
//! the table says, and has the length that the schema gives it.

use crate::fields::version_name;
use crate::font_data::{ReadError, be_uint};
use crate::parsing::Op;
use crate::shape::{FieldShape, Reading, apply, total_len};
use vstd::prelude::*;

verus! {

impl Reading {
    /// Whether `shapes` say of field `j` what the schema and the data
    /// give: the field begins where the fields before it end; it is
    /// present exactly where the table has it in its version; where it
    /// is present it has the length that the schema gives it and lies
    /// within the data; and where it is not it has no length.
    pub open spec fn describes(self, shapes: Seq<FieldShape>, j: int) -> bool {
        &&& shapes.len() == self.fields.fields.len()
        &&& shapes[j].start == total_len(shapes.take(j))
        &&& self.has_field(shapes.take(j), j) == Ok::<bool, ReadError>(shapes[j].present)
        &&& shapes[j].present ==> self.field_len(shapes.take(j), j, shapes[j].start as nat)
            == Ok::<nat, ReadError>(shapes[j].len as nat) && shapes[j].start + shapes[j].len
            <= self.data.len()
        &&& !shapes[j].present ==> shapes[j].len == 0
    }
}

/// The walk keeps the shapes that it was given and adds one for each
/// field that is left.
proof fn lemma_walk_keeps(r: Reading, i: int, pos: nat, acc: Seq<FieldShape>)
    requires
        0 <= i <= r.fields.fields.len(),
        acc.len() == i,
        r.walk(i, pos, acc) is Ok,
    ensures
        r.walk(i, pos, acc) matches Ok(out) && out.0.len() == r.fields.fields.len() && out.0.take(
            i,
        ) == acc,
    decreases r.fields.fields.len() - i,
{
    let shapes = r.walk(i, pos, acc)->Ok_0.0;
    if i >= r.fields.fields.len() {
        assert(shapes.take(i) =~= acc);
    } else {
        match r.has_field(acc, i) {
            Err(e) => {},
            Ok(false) => {
                let next = acc.push(FieldShape { start: pos as usize, len: 0, present: false });
                lemma_walk_keeps(r, i + 1, pos, next);
                assert(shapes.take(i) =~= shapes.take(i + 1).take(i));
                assert(next.take(i) =~= acc);
            },
            Ok(true) => {
                let len = r.field_len(acc, i, pos)->Ok_0;
                let next = acc.push(
                    FieldShape { start: pos as usize, len: len as usize, present: true },
                );
                lemma_walk_keeps(r, i + 1, pos + len, next);
                assert(shapes.take(i) =~= shapes.take(i + 1).take(i));
                assert(next.take(i) =~= acc);
            },
        }
    }
}

/// What the walk finds for field `j`, which it has yet to come to.
proof fn lemma_walk_finds(r: Reading, i: int, pos: nat, acc: Seq<FieldShape>, j: int)
    requires
        r.data.len() <= usize::MAX,
        0 <= i <= j < r.fields.fields.len(),
        acc.len() == i,
        pos <= r.data.len(),
        pos == total_len(acc),
        r.walk(i, pos, acc) is Ok,
    ensures
        r.walk(i, pos, acc) matches Ok(out) && r.describes(out.0, j),
    decreases r.fields.fields.len() - i,
{
    let shapes = r.walk(i, pos, acc)->Ok_0.0;
    match r.has_field(acc, i) {
        Err(e) => {},
        Ok(false) => {
            let next = acc.push(FieldShape { start: pos as usize, len: 0, present: false });
            assert(next.drop_last() =~= acc);
            if j == i {
                lemma_walk_keeps(r, i + 1, pos, next);
                assert(shapes.take(i) =~= shapes.take(i + 1).take(i));
                assert(next.take(i) =~= acc);
                assert(shapes[i] == shapes.take(i + 1)[i]);
            } else {
                lemma_walk_finds(r, i + 1, pos, next, j);
            }
        },
        Ok(true) => {
            let len = r.field_len(acc, i, pos)->Ok_0;
            let next = acc.push(
                FieldShape { start: pos as usize, len: len as usize, present: true },
            );
            assert(next.drop_last() =~= acc);
            if j == i {
                lemma_walk_keeps(r, i + 1, pos + len, next);
                assert(shapes.take(i) =~= shapes.take(i + 1).take(i));
                assert(next.take(i) =~= acc);
                assert(shapes[i] == shapes.take(i + 1)[i]);
            } else {
                lemma_walk_finds(r, i + 1, pos + len, next, j);
            }
        },
    }
}

/// The shapes that the validator finds say of every field what the
/// schema and the data give.
pub proof fn lemma_validated_fields(r: Reading, shapes: Seq<FieldShape>, end: nat, j: int)
    requires
        r.data.len() <= usize::MAX,
        r.validated() == Ok::<(Seq<FieldShape>, nat), ReadError>((shapes, end)),
        0 <= j < r.fields.fields.len(),
    ensures
        r.describes(shapes, j),
{
    lemma_walk_finds(r, 0, 0, Seq::empty(), j);
}

/// Versioned fields: in a table that the validator accepts, a field
/// that came with version `since` is present exactly where the version
/// that the table holds is at least `since`. Where it is absent its
/// accessor gives nothing. Where it is present and a scalar, its
/// accessor gives the big-endian number that the data holds where the
/// fields before it end.
pub proof fn lemma_versioned_field(
    r: Reading,
    shapes: Seq<FieldShape>,
    end: nat,
    j: int,
    since: u32,
)
    requires
        r.data.len() <= usize::MAX,
        r.validated() == Ok::<(Seq<FieldShape>, nat), ReadError>((shapes, end)),
        0 <= j < r.fields.fields.len(),
        r.fields.fields[j].attrs.available == Some(since),
    ensures
        r.value_of(shapes.take(j), j, version_name()) matches Ok(version) && (shapes[j].present
            <==> version >= since),
        !shapes[j].present ==> r.optional_scalar(shapes[j]) is None,
        shapes[j].present && r.fields.fields[j].typ is Scalar
            && !r.fields.fields[j].has_computed_len() ==> (r.own_size(
            r.fields.fields[j].typ,
        ) matches Ok(size) && (0 < size <= 8 ==> r.optional_scalar(shapes[j]) == Some(
            Ok::<nat, ReadError>(
                be_uint(
                    r.data.subrange(
                        total_len(shapes.take(j)) as int,
                        (total_len(shapes.take(j)) + size) as int,
                    ),
                ),
            ),
        ))),
{
    lemma_validated_fields(r, shapes, end, j);
}

/// Counted arrays: in a table that the validator accepts, an array
/// that is present and has a `count` holds as many elements as the
/// count says, of the size of its element type each, and element `k`
/// is the bytes that lie `k` elements behind the start of the array.
pub proof fn lemma_counted_array(r: Reading, shapes: Seq<FieldShape>, end: nat, j: int, k: nat)
    requires
        r.data.len() <= usize::MAX,
        r.validated() == Ok::<(Seq<FieldShape>, nat), ReadError>((shapes, end)),
        0 <= j < r.fields.fields.len(),
        r.fields.fields[j].typ is Array,
        r.fields.fields[j].attrs.len is None,
        r.fields.fields[j].attrs.count is Some,
        shapes[j].present,
    ensures
        r.element_size(j) matches Ok(elem) && r.count_value(
            shapes.take(j),
            j,
            r.fields.fields[j].attrs.count.unwrap(),
            elem,
            shapes[j].start as nat,
        ) matches Ok(n) && shapes[j].len == n * elem && (elem > 0 ==> r.element_count(
            shapes[j],
            elem,
        ) == n && (k < n ==> r.element_of(shapes[j], j, k) == Some(
            r.data.subrange(shapes[j].start + k * elem, shapes[j].start + k * elem + elem),
        ))),
{
    lemma_validated_fields(r, shapes, end, j);
    let elem = r.element_size(j)->Ok_0;
    let n = r.count_value(
        shapes.take(j),
        j,
        r.fields.fields[j].attrs.count.unwrap(),
        elem,
        shapes[j].start as nat,
    )->Ok_0;
    assert(apply(Op::Mul, n, elem) == Ok::<nat, ReadError>(shapes[j].len as nat));
    if elem > 0 {
        assert((n * elem) / elem == n) by (nonlinear_arith)
            requires
                elem > 0,
        ;
    }
}

} // verus!
