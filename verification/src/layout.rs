//! The sizes of the types of a schema, as far as the schema fixes them.

use crate::parsing::{
    Field, FieldType, FieldTypeView, FieldView, Fields, Item, ItemView, Items, ItemsView,
};
use crate::reader::is_word;
use vstd::prelude::*;

verus! {

/// The size in bytes of a scalar or offset type that the runtime
/// defines.
pub open spec fn scalar_size(name: Seq<char>) -> Option<nat> {
    if name == "u8"@ || name == "i8"@ {
        Some(1)
    } else if name == "u16"@ || name == "i16"@ || name == "F2Dot14"@ || name == "FWord"@ || name
        == "UfWord"@ || name == "GlyphId"@ || name == "Offset16"@ {
        Some(2)
    } else if name == "Uint24"@ || name == "Int24"@ || name == "Offset24"@ {
        Some(3)
    } else if name == "u32"@ || name == "i32"@ || name == "Fixed"@ || name == "Tag"@ || name
        == "Version16Dot16"@ || name == "MajorMinor"@ || name == "Offset32"@ {
        Some(4)
    } else if name == "LongDateTime"@ {
        Some(8)
    } else {
        None
    }
}

/// The size in bytes of a scalar or offset type that the runtime
/// defines.
pub fn size_of_scalar(name: &String) -> (size: Option<u64>)
    ensures
        match size {
            Some(n) => scalar_size(name@) == Some(n as nat) && 1 <= n <= 8,
            None => scalar_size(name@) is None,
        },
{
    if is_word(name, "u8") || is_word(name, "i8") {
        Some(1)
    } else if is_word(name, "u16") || is_word(name, "i16") || is_word(name, "F2Dot14") || is_word(
        name,
        "FWord",
    ) || is_word(name, "UfWord") || is_word(name, "GlyphId") || is_word(name, "Offset16") {
        Some(2)
    } else if is_word(name, "Uint24") || is_word(name, "Int24") || is_word(name, "Offset24") {
        Some(3)
    } else if is_word(name, "u32") || is_word(name, "i32") || is_word(name, "Fixed") || is_word(
        name,
        "Tag",
    ) || is_word(name, "Version16Dot16") || is_word(name, "MajorMinor") || is_word(
        name,
        "Offset32",
    ) {
        Some(4)
    } else if is_word(name, "LongDateTime") {
        Some(8)
    } else {
        None
    }
}

impl FieldView {
    /// The name of the type of the field if the type alone gives the
    /// length of the field: a scalar, an offset or a record, with no
    /// attribute that computes a length, in every version.
    pub open spec fn fixed_type(self) -> Option<Seq<char>> {
        if self.has_computed_len() || self.is_version_dependent() {
            None
        } else {
            match self.typ {
                FieldTypeView::Scalar { typ } => Some(typ),
                FieldTypeView::Offset { typ, .. } => Some(typ),
                FieldTypeView::Other { typ } => Some(typ),
                _ => None,
            }
        }
    }
}

impl Field {
    /// The name of the type of the field if the type alone gives the
    /// length of the field.
    pub fn fixed_type(&self) -> (typ: Option<&String>)
        ensures
            typ.deep_view() == self@.fixed_type(),
    {
        if self.has_computed_len() || self.is_version_dependent() {
            None
        } else {
            match &self.typ {
                FieldType::Scalar { typ } => Some(typ),
                FieldType::Offset { typ, .. } => Some(typ),
                FieldType::Other { typ } => Some(typ),
                _ => None,
            }
        }
    }
}

impl ItemsView {
    /// The size in bytes of the type `name`, if the schema fixes it: that
    /// of a scalar of the runtime, that of the scalar behind a raw enum
    /// or flag set, and that of a record all of whose fields have a
    /// fixed size. `fuel` bounds how deep records are followed.
    pub open spec fn type_size(self, name: Seq<char>, fuel: nat) -> Option<nat>
        decreases fuel, 0nat, 0nat,
    {
        if scalar_size(name) is Some {
            scalar_size(name)
        } else {
            match self.find(name) {
                Some(ItemView::RawEnum(item)) => scalar_size(item.typ),
                Some(ItemView::Flags(item)) => scalar_size(item.typ),
                Some(ItemView::Record(item)) => if fuel == 0 {
                    None
                } else {
                    self.fields_size(
                        item.fields.fields,
                        item.fields.fields.len(),
                        (fuel - 1) as nat,
                    )
                },
                _ => None,
            }
        }
    }

    /// The size in bytes of the first `n` of the fields, if the schema
    /// fixes the size of each. It has to fit in 64 bits.
    pub open spec fn fields_size(self, fields: Seq<FieldView>, n: nat, fuel: nat) -> Option<nat>
        decreases fuel, 1nat, n,
    {
        if n == 0 || n > fields.len() {
            Some(0)
        } else {
            match (
                self.fields_size(fields, (n - 1) as nat, fuel),
                fields[n - 1].fixed_type(),
            ) {
                (Some(before), Some(typ)) => match self.type_size(typ, fuel) {
                    Some(size) => if before + size <= u64::MAX {
                        Some(before + size)
                    } else {
                        None
                    },
                    None => None,
                },
                _ => None,
            }
        }
    }
}

impl Items {
    /// The size in bytes of the type `name`, if the schema fixes it.
    pub fn type_size(&self, name: &String, fuel: u32) -> (size: Option<u64>)
        ensures
            match size {
                Some(n) => self@.type_size(name@, fuel as nat) == Some(n as nat),
                None => self@.type_size(name@, fuel as nat) is None,
            },
        decreases fuel, 0nat, 0nat,
    {
        match size_of_scalar(name) {
            Some(size) => Some(size),
            None => match self.find(name) {
                Some(Item::RawEnum(item)) => size_of_scalar(&item.typ),
                Some(Item::Flags(item)) => size_of_scalar(&item.typ),
                Some(Item::Record(item)) => {
                    if fuel == 0 {
                        None
                    } else {
                        self.fields_size(&item.fields, item.fields.fields.len(), fuel - 1)
                    }
                },
                _ => None,
            },
        }
    }

    /// The size in bytes of the first `n` of the fields, if the schema
    /// fixes the size of each.
    pub fn fields_size(&self, fields: &Fields, n: usize, fuel: u32) -> (size: Option<u64>)
        requires
            n <= fields.fields.len(),
        ensures
            match size {
                Some(total) => self@.fields_size(fields@.fields, n as nat, fuel as nat) == Some(
                    total as nat,
                ),
                None => self@.fields_size(fields@.fields, n as nat, fuel as nat) is None,
            },
        decreases fuel, 1nat, n,
    {
        if n == 0 {
            return Some(0);
        }
        let before = self.fields_size(fields, n - 1, fuel);
        let field = &fields.fields[n - 1];
        assert(fields@.fields[n - 1] == field@);
        match (before, field.fixed_type()) {
            (Some(before), Some(typ)) => match self.type_size(typ, fuel) {
                Some(size) => before.checked_add(size),
                None => None,
            },
            _ => None,
        }
    }
}

/// How deep the sizes of records are followed.
pub const SIZE_FUEL: u32 = 16;

} // verus!
