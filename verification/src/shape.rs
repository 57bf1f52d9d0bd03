//! What the validator of a table does with font data: it walks the
//! fields in declaration order and finds where each of them lies.

use crate::fields::{version_name, version_name_text};
use crate::fields_list::{find_field, lemma_lookup_arg_found, lookup, lookup_arg};
use crate::font_data::{ReadError, be_uint, read_be};
use crate::layout::SIZE_FUEL;
use crate::parsing::{
    Count, CountView, Expr, ExprView, Field, FieldType, FieldTypeView, Fields, FieldsView,
    Items, ItemsView, Op,
};
use vstd::prelude::*;

verus! {

/// Where a field lies in the font data. A field that the version of the
/// table does not have is not present and has no length.
#[derive(Debug, Clone, Copy, PartialEq, Eq, Structural)]
pub struct FieldShape {
    pub start: usize,
    pub len: usize,
    pub present: bool,
}

/// The shape of a table: where each of its fields lies, and the length
/// of the table.
#[derive(Debug, PartialEq, Eq)]
pub struct Shape {
    pub fields: Vec<FieldShape>,
    pub len: usize,
}

/// The sum of the lengths of the fields.
pub open spec fn total_len(shapes: Seq<FieldShape>) -> nat
    decreases shapes.len(),
{
    if shapes.len() == 0 {
        0
    } else {
        total_len(shapes.drop_last()) + shapes.last().len as nat
    }
}

/// Whether each field begins where the fields before it end, and the
/// fields that are not present have no length.
pub open spec fn well_placed(shapes: Seq<FieldShape>) -> bool {
    forall|i: int|
        0 <= i < shapes.len() ==> (#[trigger] shapes[i]).start == total_len(shapes.take(i)) && (
        !shapes[i].present ==> shapes[i].len == 0)
}

/// What two numbers give under an operator of the schema language.
/// Sums and products have to fit in 64 bits, and a difference is no
/// less than zero.
pub open spec fn apply(op: Op, a: nat, b: nat) -> Result<nat, ReadError> {
    match op {
        Op::Add => if a + b <= u64::MAX {
            Ok(a + b)
        } else {
            Err(ReadError::OutOfBounds)
        },
        Op::Sub => if a >= b {
            Ok((a - b) as nat)
        } else {
            Ok(0)
        },
        Op::Mul => if a * b <= u64::MAX {
            Ok(a * b)
        } else {
            Err(ReadError::OutOfBounds)
        },
    }
}

/// What two numbers give under an operator of the schema language.
pub fn apply_op(op: Op, a: u64, b: u64) -> (r: Result<u64, ReadError>)
    ensures
        match r {
            Ok(v) => apply(op, a as nat, b as nat) == Ok::<nat, ReadError>(v as nat),
            Err(e) => apply(op, a as nat, b as nat) == Err::<nat, ReadError>(e),
        },
{
    match op {
        Op::Add => match a.checked_add(b) {
            Some(v) => Ok(v),
            None => Err(ReadError::OutOfBounds),
        },
        Op::Sub => if a >= b {
            Ok(a - b)
        } else {
            Ok(0)
        },
        Op::Mul => match a.checked_mul(b) {
            Some(v) => Ok(v),
            None => Err(ReadError::OutOfBounds),
        },
    }
}

/// A table that is being read: the schema, the fields of the table, the
/// font data from the beginning of the table on, and the arguments
/// that the caller hands to the reader.
pub struct Reading {
    pub items: ItemsView,
    pub fields: FieldsView,
    pub data: Seq<u8>,
    pub args: Seq<u64>,
}

impl Reading {
    /// The number that a field of that shape holds: the shape has to be
    /// that of a scalar that is present.
    pub open spec fn scalar_at(self, shape: FieldShape) -> Result<nat, ReadError> {
        if shape.present && 0 < shape.len <= 8 && shape.start + shape.len <= self.data.len() {
            Ok(be_uint(self.data.subrange(shape.start as int, shape.start + shape.len)))
        } else {
            Err(ReadError::Unsized)
        }
    }

    /// The value behind `name` as field `i` uses it: that of the first
    /// field of that name before field `i`, or that of the argument of
    /// that name.
    pub open spec fn value_of(self, shapes: Seq<FieldShape>, i: int, name: Seq<char>) -> Result<
        nat,
        ReadError,
    > {
        match lookup(self.fields.fields, i, name) {
            Some(j) => if j < shapes.len() {
                self.scalar_at(shapes[j])
            } else {
                Err(ReadError::Unsized)
            },
            None => match self.fields.read_args {
                Some(args) => match lookup_arg(args, args.len() as int, name) {
                    Some(k) => if k < self.args.len() {
                        Ok(self.args[k] as nat)
                    } else {
                        Err(ReadError::Unsized)
                    },
                    None => Err(ReadError::Unsized),
                },
                None => Err(ReadError::Unsized),
            },
        }
    }

    /// The value of an expression of field `i`.
    pub open spec fn eval(self, shapes: Seq<FieldShape>, i: int, e: ExprView) -> Result<
        nat,
        ReadError,
    >
        decreases e,
    {
        match e {
            ExprView::Field(name) => self.value_of(shapes, i, name),
            ExprView::Literal(value) => Ok(value as nat),
            ExprView::Call { op, lhs, rhs } => match self.eval(shapes, i, *lhs) {
                Err(e) => Err(e),
                Ok(a) => match self.eval(shapes, i, *rhs) {
                    Err(e) => Err(e),
                    Ok(b) => apply(op, a, b),
                },
            },
        }
    }

    /// The number of elements of field `i`, whose elements have `elem`
    /// bytes each and which begins at `pos`. `..` takes as many
    /// elements as the rest of the data holds.
    pub open spec fn count_value(
        self,
        shapes: Seq<FieldShape>,
        i: int,
        count: CountView,
        elem: nat,
        pos: nat,
    ) -> Result<nat, ReadError> {
        match count {
            CountView::Field(name) => self.value_of(shapes, i, name),
            CountView::Literal(value) => Ok(value as nat),
            CountView::All => if elem > 0 && pos <= self.data.len() {
                Ok(((self.data.len() - pos) / elem as int) as nat)
            } else {
                Err(ReadError::Unsized)
            },
            CountView::Expr(e) => self.eval(shapes, i, e),
        }
    }

    /// The size of the type of a field that has a size of its own.
    pub open spec fn own_size(self, typ: FieldTypeView) -> Result<nat, ReadError> {
        if typ.has_cooked_type() {
            match self.items.type_size(typ.cooked_type(), SIZE_FUEL as nat) {
                Some(size) => Ok(size),
                None => Err(ReadError::Unsized),
            }
        } else {
            Err(ReadError::Unsized)
        }
    }

    /// The length in bytes of field `i`, which begins at `pos`.
    ///
    /// A scalar, an offset and a record have the size of their type. An
    /// array has the length that `len` gives, or as many elements as
    /// `count` gives. What is sized by arguments has no length here.
    pub open spec fn field_len(self, shapes: Seq<FieldShape>, i: int, pos: nat) -> Result<
        nat,
        ReadError,
    > {
        let f = self.fields.fields[i];
        match f.typ {
            FieldTypeView::Array { inner_typ } => match f.attrs.len {
                Some(e) => self.eval(shapes, i, e),
                None => match f.attrs.count {
                    Some(count) => match self.own_size(*inner_typ) {
                        Err(e) => Err(e),
                        Ok(elem) => match self.count_value(shapes, i, count, elem, pos) {
                            Err(e) => Err(e),
                            Ok(n) => apply(Op::Mul, n, elem),
                        },
                    },
                    None => Err(ReadError::Unsized),
                },
            },
            FieldTypeView::ComputedArray(_) => Err(ReadError::Unsized),
            _ => if f.has_computed_len() {
                Err(ReadError::Unsized)
            } else {
                self.own_size(f.typ)
            },
        }
    }

    /// Whether the table has field `i` in its version: it has every
    /// field that is there in all versions, and a field that came with
    /// a version where its own version is at least that one.
    pub open spec fn has_field(self, shapes: Seq<FieldShape>, i: int) -> Result<bool, ReadError> {
        match self.fields.fields[i].attrs.available {
            None => Ok(true),
            Some(since) => match self.value_of(shapes, i, version_name()) {
                Ok(version) => Ok(version >= since),
                Err(e) => Err(ReadError::VersionMismatch),
            },
        }
    }

    /// The walk over the fields from field `i` on, which begins at
    /// `pos`, behind the fields whose shapes are `shapes`. It gives the
    /// shapes of all fields and the place behind the last of them, or
    /// the reason why the data cannot be read as the table.
    pub open spec fn walk(self, i: int, pos: nat, shapes: Seq<FieldShape>) -> Result<
        (Seq<FieldShape>, nat),
        ReadError,
    >
        decreases self.fields.fields.len() - i,
    {
        if i < 0 || i >= self.fields.fields.len() {
            Ok((shapes, pos))
        } else {
            match self.has_field(shapes, i) {
                Err(e) => Err(e),
                Ok(false) => self.walk(
                    i + 1,
                    pos,
                    shapes.push(FieldShape { start: pos as usize, len: 0, present: false }),
                ),
                Ok(true) => match self.field_len(shapes, i, pos) {
                    Err(e) => Err(e),
                    Ok(len) => if pos + len <= self.data.len() {
                        self.walk(
                            i + 1,
                            pos + len,
                            shapes.push(
                                FieldShape { start: pos as usize, len: len as usize, present: true },
                            ),
                        )
                    } else {
                        Err(ReadError::OutOfBounds)
                    },
                },
            }
        }
    }

    /// What the validator gives for the table.
    pub open spec fn validated(self) -> Result<(Seq<FieldShape>, nat), ReadError> {
        self.walk(0, 0, Seq::empty())
    }
}

/// The reader of a table: the schema, the fields of the table, the font
/// data from the beginning of the table on, and the arguments that the
/// caller hands over.
pub struct Reader<'a> {
    pub items: &'a Items,
    pub fields: &'a Fields,
    pub data: &'a [u8],
    pub args: &'a [u64],
}

impl<'a> View for Reader<'a> {
    type V = Reading;

    open spec fn view(&self) -> Reading {
        Reading { items: self.items@, fields: self.fields@, data: self.data@, args: self.args@ }
    }
}

impl<'a> Reader<'a> {
    /// The number that a field of that shape holds.
    pub fn scalar_at(&self, shape: FieldShape) -> (r: Result<u64, ReadError>)
        ensures
            match r {
                Ok(v) => self@.scalar_at(shape) == Ok::<nat, ReadError>(v as nat),
                Err(e) => self@.scalar_at(shape) == Err::<nat, ReadError>(e),
            },
    {
        if shape.present && 0 < shape.len && shape.len <= 8 {
            match read_be(self.data, shape.start, shape.len) {
                Some(value) => Ok(value),
                None => Err(ReadError::Unsized),
            }
        } else {
            Err(ReadError::Unsized)
        }
    }

    /// The value behind `name` as field `i` uses it.
    pub fn value_of(&self, shapes: &Vec<FieldShape>, i: usize, name: &String) -> (r: Result<
        u64,
        ReadError,
    >)
        requires
            i <= self.fields.fields.len(),
        ensures
            match r {
                Ok(v) => self@.value_of(shapes@, i as int, name@) == Ok::<nat, ReadError>(
                    v as nat,
                ),
                Err(e) => self@.value_of(shapes@, i as int, name@) == Err::<nat, ReadError>(e),
            },
    {
        match find_field(&self.fields.fields, i, name) {
            Some(j) => if j < shapes.len() {
                self.scalar_at(shapes[j])
            } else {
                Err(ReadError::Unsized)
            },
            None => match &self.fields.read_args {
                Some(args) => {
                    let mut k: usize = 0;
                    while k < args.args.len()
                        invariant
                            k <= args.args.len(),
                            self.fields.read_args == Some(*args),
                            lookup(self@.fields.fields, i as int, name@) is None,
                            lookup_arg(args@, k as int, name@) is None,
                        decreases args.args.len() - k,
                    {
                        if args.args[k].ident == *name {
                            proof {
                                assert(args@[k as int].ident == name@);
                                lemma_lookup_arg_found(args@, k as int, args@.len() as int, name@);
                            }
                            return if k < self.args.len() {
                                Ok(self.args[k])
                            } else {
                                Err(ReadError::Unsized)
                            };
                        }
                        k += 1;
                    }
                    Err(ReadError::Unsized)
                },
                None => Err(ReadError::Unsized),
            },
        }
    }

    /// The value of an expression of field `i`.
    pub fn eval(&self, shapes: &Vec<FieldShape>, i: usize, e: &Expr) -> (r: Result<u64, ReadError>)
        requires
            i <= self.fields.fields.len(),
        ensures
            match r {
                Ok(v) => self@.eval(shapes@, i as int, e@) == Ok::<nat, ReadError>(v as nat),
                Err(err) => self@.eval(shapes@, i as int, e@) == Err::<nat, ReadError>(err),
            },
        decreases e,
    {
        match e {
            Expr::Field(name) => self.value_of(shapes, i, name),
            Expr::Literal(value) => Ok(*value as u64),
            Expr::Call { op, lhs, rhs } => {
                let a = self.eval(shapes, i, lhs)?;
                let b = self.eval(shapes, i, rhs)?;
                apply_op(*op, a, b)
            },
        }
    }

    /// The number of elements of field `i`.
    pub fn count_value(
        &self,
        shapes: &Vec<FieldShape>,
        i: usize,
        count: &Count,
        elem: u64,
        pos: usize,
    ) -> (r: Result<u64, ReadError>)
        requires
            i <= self.fields.fields.len(),
        ensures
            match r {
                Ok(v) => self@.count_value(shapes@, i as int, count@, elem as nat, pos as nat)
                    == Ok::<nat, ReadError>(v as nat),
                Err(e) => self@.count_value(shapes@, i as int, count@, elem as nat, pos as nat)
                    == Err::<nat, ReadError>(e),
            },
    {
        match count {
            Count::Field(name) => self.value_of(shapes, i, name),
            Count::Literal(value) => Ok(*value as u64),
            Count::All => if elem > 0 && pos <= self.data.len() {
                Ok((self.data.len() - pos) as u64 / elem)
            } else {
                Err(ReadError::Unsized)
            },
            Count::Expr(e) => self.eval(shapes, i, e),
        }
    }

    /// The size of the type of a field that has a size of its own.
    pub fn own_size(&self, typ: &FieldType) -> (r: Result<u64, ReadError>)
        ensures
            match r {
                Ok(v) => self@.own_size(typ@) == Ok::<nat, ReadError>(v as nat),
                Err(e) => self@.own_size(typ@) == Err::<nat, ReadError>(e),
            },
    {
        match typ {
            FieldType::Scalar { .. } | FieldType::Offset { .. } | FieldType::Other { .. } => {
                match self.items.type_size(typ.cooked_type_tokens(), SIZE_FUEL) {
                    Some(size) => Ok(size),
                    None => Err(ReadError::Unsized),
                }
            },
            _ => Err(ReadError::Unsized),
        }
    }

    /// The length in bytes of field `i`, which begins at `pos`.
    pub fn field_len(&self, shapes: &Vec<FieldShape>, i: usize, pos: usize) -> (r: Result<
        u64,
        ReadError,
    >)
        requires
            i < self.fields.fields.len(),
        ensures
            match r {
                Ok(v) => self@.field_len(shapes@, i as int, pos as nat) == Ok::<nat, ReadError>(
                    v as nat,
                ),
                Err(e) => self@.field_len(shapes@, i as int, pos as nat) == Err::<
                    nat,
                    ReadError,
                >(e),
            },
    {
        let f = &self.fields.fields[i];
        assert(self@.fields.fields[i as int] == f@);
        proof {
            reveal_with_fuel(crate::parsing::field_type_view, 2);
        }
        match &f.typ {
            FieldType::Array { inner_typ } => match &f.attrs.len {
                Some(e) => self.eval(shapes, i, e),
                None => match &f.attrs.count {
                    Some(count) => {
                        let elem = self.own_size(inner_typ)?;
                        let n = self.count_value(shapes, i, count, elem, pos)?;
                        apply_op(Op::Mul, n, elem)
                    },
                    None => Err(ReadError::Unsized),
                },
            },
            FieldType::ComputedArray(_) => Err(ReadError::Unsized),
            _ => if f.has_computed_len() {
                Err(ReadError::Unsized)
            } else {
                self.own_size(&f.typ)
            },
        }
    }

    /// Whether the table has field `i` in its version.
    pub fn has_field(&self, shapes: &Vec<FieldShape>, i: usize) -> (r: Result<bool, ReadError>)
        requires
            i < self.fields.fields.len(),
        ensures
            r == self@.has_field(shapes@, i as int),
    {
        let f = &self.fields.fields[i];
        assert(self@.fields.fields[i as int] == f@);
        match f.attrs.available {
            None => Ok(true),
            Some(since) => match self.value_of(shapes, i, &version_name_text()) {
                Ok(version) => Ok(version >= since as u64),
                Err(_) => Err(ReadError::VersionMismatch),
            },
        }
    }

    /// Validates the font data as the table: walks the fields in
    /// declaration order and finds where each of them lies.
    ///
    /// Length closure: the lengths of the fields add up to the length
    /// of the table, each field begins where the fields before it end,
    /// and the table lies within the data.
    pub fn validate(&self) -> (r: Result<Shape, ReadError>)
        ensures
            match r {
                Ok(shape) => self@.validated() == Ok::<(Seq<FieldShape>, nat), ReadError>(
                    (shape.fields@, shape.len as nat),
                ) && shape.fields@.len() == self@.fields.fields.len() && total_len(shape.fields@)
                    == shape.len && shape.len <= self@.data.len() && well_placed(shape.fields@),
                Err(e) => self@.validated() == Err::<(Seq<FieldShape>, nat), ReadError>(e),
            },
    {
        let mut shapes: Vec<FieldShape> = Vec::new();
        let mut pos: usize = 0;
        let mut i: usize = 0;
        while i < self.fields.fields.len()
            invariant
                i <= self.fields.fields.len(),
                shapes@.len() == i,
                pos <= self.data@.len(),
                pos == total_len(shapes@),
                well_placed(shapes@),
                self@.validated() == self@.walk(i as int, pos as nat, shapes@),
            decreases self.fields.fields.len() - i,
        {
            let ghost before = shapes@;
            let shape = if self.has_field(&shapes, i)? {
                let len = self.field_len(&shapes, i, pos)?;
                if len > (self.data.len() - pos) as u64 {
                    return Err(ReadError::OutOfBounds);
                }
                FieldShape { start: pos, len: len as usize, present: true }
            } else {
                FieldShape { start: pos, len: 0, present: false }
            };
            shapes.push(shape);
            proof {
                assert(shapes@.drop_last() =~= before);
                assert forall|k: int| 0 <= k < shapes@.len() implies (#[trigger] shapes@[k]).start
                    == total_len(shapes@.take(k)) && (!shapes@[k].present ==> shapes@[k].len
                    == 0) by {
                    if k < before.len() {
                        assert(shapes@.take(k) =~= before.take(k));
                        assert(shapes@[k] == before[k]);
                    } else {
                        assert(shapes@.take(k) =~= before);
                    }
                }
            }
            pos = pos + shape.len;
            i += 1;
        }
        Ok(Shape { fields: shapes, len: pos })
    }
}

} // verus!
