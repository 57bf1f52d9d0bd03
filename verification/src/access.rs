//! What a validated table gives: its scalars, the elements of its
//! arrays, and for a format group the table that the data holds.

use crate::font_data::{ReadError, be_uint, lemma_be_uint_bound, lemma_limit_values, read_be};
use crate::layout::{scalar_size, size_of_scalar};
use crate::parsing::{FieldType, FieldTypeView, TableFormat, TableFormatView};
use crate::shape::{FieldShape, Reader, Reading, Shape};
use vstd::prelude::*;

verus! {

impl Reading {
    /// What the accessor of a field of that shape gives where the
    /// field may be absent: nothing for a field that the version of
    /// the table does not have, and else the number that it holds.
    pub open spec fn optional_scalar(self, shape: FieldShape) -> Option<Result<nat, ReadError>> {
        if shape.present {
            Some(self.scalar_at(shape))
        } else {
            None
        }
    }

    /// The size of one element of field `i`, which is an array.
    pub open spec fn element_size(self, i: int) -> Result<nat, ReadError> {
        match self.fields.fields[i].typ {
            FieldTypeView::Array { inner_typ } => self.own_size(*inner_typ),
            _ => Err(ReadError::Unsized),
        }
    }

    /// The number of elements that an array of that shape holds, each
    /// of `elem` bytes: none where the array is not present.
    pub open spec fn element_count(self, shape: FieldShape, elem: nat) -> nat {
        if shape.present && elem > 0 {
            (shape.len as nat / elem) as nat
        } else {
            0
        }
    }

    /// The bytes of element `k` of field `i`, which is an array of that
    /// shape: the array has to be present, to lie within the data and to
    /// hold more than `k` elements.
    pub open spec fn element_of(self, shape: FieldShape, i: int, k: nat) -> Option<Seq<u8>> {
        match self.element_size(i) {
            Ok(elem) => if k < self.element_count(shape, elem) && shape.start + shape.len
                <= self.data.len() {
                Some(
                    self.data.subrange(
                        shape.start + k * elem,
                        shape.start + k * elem + elem,
                    ),
                )
            } else {
                None
            },
            Err(_) => None,
        }
    }

    /// The first variant before `limit` that stands for `value`.
    pub open spec fn variant_for(self, group: TableFormatView, limit: int, value: u32) -> Option<
        int,
    >
        decreases limit,
    {
        if limit <= 0 {
            None
        } else {
            match self.variant_for(group, limit - 1, value) {
                Some(j) => Some(j),
                None => if self.items.variant_value(group.variants[limit - 1]) == Some(value) {
                    Some(limit - 1)
                } else {
                    None
                },
            }
        }
    }

    /// The variant of a format group that the data holds: the first one
    /// that stands for the discriminant that the data begins with. A
    /// discriminant that no variant stands for is an error that says
    /// which it was.
    pub open spec fn dispatched(self, group: TableFormatView) -> Result<int, ReadError> {
        match scalar_size(group.format) {
            None => Err(ReadError::Unsized),
            Some(size) => if size > 4 {
                Err(ReadError::Unsized)
            } else if self.data.len() < size {
                Err(ReadError::OutOfBounds)
            } else {
                let value = be_uint(self.data.subrange(0, size as int)) as u32;
                match self.variant_for(group, group.variants.len() as int, value) {
                    Some(k) => Ok(k),
                    None => Err(ReadError::InvalidFormat(value)),
                }
            },
        }
    }
}

impl<'a> Reader<'a> {
    /// The number that field `i` holds, which has to be a scalar that is
    /// present.
    pub fn read_scalar(&self, shape: &Shape, i: usize) -> (r: Result<u64, ReadError>)
        requires
            i < shape.fields.len(),
        ensures
            match r {
                Ok(v) => self@.scalar_at(shape.fields@[i as int]) == Ok::<nat, ReadError>(v as nat),
                Err(e) => self@.scalar_at(shape.fields@[i as int]) == Err::<nat, ReadError>(e),
            },
    {
        self.scalar_at(shape.fields[i])
    }

    /// The number that field `i` holds, where the field may be absent:
    /// nothing for a field that the version of the table does not
    /// have.
    pub fn read_optional(&self, shape: &Shape, i: usize) -> (r: Option<Result<u64, ReadError>>)
        requires
            i < shape.fields.len(),
        ensures
            match r {
                Some(Ok(v)) => self@.optional_scalar(shape.fields@[i as int]) == Some(
                    Ok::<nat, ReadError>(v as nat),
                ),
                Some(Err(e)) => self@.optional_scalar(shape.fields@[i as int]) == Some(
                    Err::<nat, ReadError>(e),
                ),
                None => self@.optional_scalar(shape.fields@[i as int]) is None,
            },
    {
        if shape.fields[i].present {
            Some(self.scalar_at(shape.fields[i]))
        } else {
            None
        }
    }

    /// The size of one element of field `i`.
    pub fn element_size(&self, i: usize) -> (r: Result<u64, ReadError>)
        requires
            i < self.fields.fields.len(),
        ensures
            match r {
                Ok(v) => self@.element_size(i as int) == Ok::<nat, ReadError>(v as nat),
                Err(e) => self@.element_size(i as int) == Err::<nat, ReadError>(e),
            },
    {
        let f = &self.fields.fields[i];
        assert(self@.fields.fields[i as int] == f@);
        proof {
            reveal_with_fuel(crate::parsing::field_type_view, 2);
        }
        match &f.typ {
            FieldType::Array { inner_typ } => self.own_size(inner_typ),
            _ => Err(ReadError::Unsized),
        }
    }

    /// The number of elements that field `i` holds, which is an array
    /// whose elements have a size of their own.
    pub fn array_len(&self, shape: &Shape, i: usize) -> (r: Result<usize, ReadError>)
        requires
            i < self.fields.fields.len(),
            i < shape.fields.len(),
        ensures
            match r {
                Ok(n) => self@.element_size(i as int) matches Ok(elem) && n
                    == self@.element_count(shape.fields@[i as int], elem),
                Err(e) => self@.element_size(i as int) == Err::<nat, ReadError>(e),
            },
    {
        let elem = self.element_size(i)?;
        let at = shape.fields[i];
        if at.present && elem > 0 {
            Ok((at.len as u64 / elem) as usize)
        } else {
            Ok(0)
        }
    }

    /// The bytes of element `k` of field `i`, if the array holds that
    /// many elements and lies within the data.
    pub fn element(&self, shape: &Shape, i: usize, k: usize) -> (r: Option<&'a [u8]>)
        requires
            i < self.fields.fields.len(),
            i < shape.fields.len(),
        ensures
            match r {
                Some(bytes) => self@.element_of(shape.fields@[i as int], i as int, k as nat)
                    == Some(bytes@),
                None => self@.element_of(shape.fields@[i as int], i as int, k as nat) is None,
            },
    {
        let elem = match self.element_size(i) {
            Ok(elem) => elem,
            Err(_) => {
                return None;
            },
        };
        let at = shape.fields[i];
        if !at.present || elem == 0 {
            return None;
        }
        let count = at.len as u64 / elem;
        if k as u64 >= count {
            return None;
        }
        proof {
            assert((k + 1) * elem <= count * elem) by (nonlinear_arith)
                requires
                    k + 1 <= count,
            ;
            assert(count * elem <= at.len) by (nonlinear_arith)
                requires
                    count == at.len as u64 / elem,
                    elem > 0,
            ;
            assert((k + 1) * elem == k * elem + elem) by (nonlinear_arith);
        }
        let offset = k as u64 * elem;
        let data_len = self.data.len();
        if at.len > data_len || at.start > data_len - at.len {
            return None;
        }
        let start = at.start + offset as usize;
        Some(vstd::slice::slice_subrange(self.data, start, start + elem as usize))
    }
}

impl<'a> Reader<'a> {
    /// The variant of a format group that the data holds.
    pub fn dispatch(&self, group: &TableFormat) -> (r: Result<usize, ReadError>)
        ensures
            match r {
                Ok(k) => self@.dispatched(group@) == Ok::<int, ReadError>(k as int) && k
                    < group.variants.len(),
                Err(e) => self@.dispatched(group@) == Err::<int, ReadError>(e),
            },
    {
        let size = match size_of_scalar(&group.format) {
            Some(size) => size,
            None => {
                return Err(ReadError::Unsized);
            },
        };
        if size > 4 {
            return Err(ReadError::Unsized);
        }
        let value = match read_be(self.data, 0, size as usize) {
            Some(value) => value,
            None => {
                return Err(ReadError::OutOfBounds);
            },
        };
        proof {
            lemma_be_uint_bound(self.data@.subrange(0, size as int));
            lemma_limit_values();
            crate::font_data::lemma_limit_monotonic(size as nat, 4);
        }
        let value = value as u32;
        let mut k: usize = 0;
        while k < group.variants.len()
            invariant
                k <= group.variants.len(),
                self@.variant_for(group@, k as int, value) is None,
                self@.dispatched(group@) == (match self@.variant_for(
                    group@,
                    group@.variants.len() as int,
                    value,
                ) {
                    Some(k) => Ok::<int, ReadError>(k),
                    None => Err::<int, ReadError>(ReadError::InvalidFormat(value)),
                }),
            decreases group.variants.len() - k,
        {
            assert(group@.variants[k as int] == group.variants[k as int]@);
            if self.items.value_of_variant(&group.variants[k]) == Some(value) {
                proof {
                    lemma_variant_found(
                        self@,
                        group@,
                        k as int,
                        group@.variants.len() as int,
                        value,
                    );
                }
                return Ok(k);
            }
            k += 1;
        }
        Err(ReadError::InvalidFormat(value))
    }
}

proof fn lemma_variant_found(r: Reading, group: TableFormatView, j: int, limit: int, value: u32)
    requires
        0 <= j < limit,
        r.variant_for(group, j, value) is None,
        r.items.variant_value(group.variants[j]) == Some(value),
    ensures
        r.variant_for(group, limit, value) == Some(j),
    decreases limit,
{
    if limit > j + 1 {
        lemma_variant_found(r, group, j, limit - 1, value);
    }
}

} // verus!
