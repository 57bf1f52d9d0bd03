//! The [os2](https://docs.microsoft.com/en-us/typography/opentype/spec/os2) table

use crate::font_data::{
    ReadError, be_uint, lemma_be_uint_bound, lemma_limit_values, read_be, signed,
};
use vstd::prelude::*;

verus! {

/// 'OS/2'
pub const TAG: [u8; 4] = [79, 83, 47, 50];

/// The length of the table in bytes, for a version: the first version
/// has 78 bytes, the second eight more, the third to fifth ten more,
/// and the later ones four more.
pub open spec fn table_len(version: nat) -> nat {
    if version == 0 {
        78
    } else if version == 1 {
        86
    } else if version < 5 {
        96
    } else {
        100
    }
}

/// The OS/2 table: the font data from its beginning on, which holds all
/// the fields of the table's version.
#[derive(Debug)]
pub struct Os2 {
    data: Vec<u8>,
}

impl Os2 {
    /// The bytes that the table was read from.
    pub closed spec fn view(&self) -> Seq<u8> {
        self.data@
    }

    /// The version as the bytes of the table give it.
    pub open spec fn spec_version(&self) -> nat {
        be_uint(self@.subrange(0, 2))
    }

    /// Whether the table holds all the fields of its version, which
    /// every table that was read does.
    #[verifier::type_invariant]
    pub open spec fn wf(&self) -> bool {
        self@.len() >= 2 && self@.len() >= table_len(self.spec_version())
    }

    /// The number that the field of `width` bytes at `offset` holds, if
    /// the table has the field: it has the fields of its version and of
    /// the versions before it.
    pub open spec fn field(&self, offset: nat, width: nat, since: nat) -> Option<nat> {
        if self.spec_version() >= since {
            Some(be_uint(self@.subrange(offset as int, (offset + width) as int)))
        } else {
            None
        }
    }

    /// Reads the table. The data has to hold the version, and all the
    /// fields that the version has.
    pub fn read(data: &[u8]) -> (r: Result<Os2, ReadError>)
        ensures
            match r {
                Ok(table) => table@ == data@ && table.wf(),
                Err(e) => e == ReadError::OutOfBounds && (data@.len() < 2 || data@.len()
                    < table_len(be_uint(data@.subrange(0, 2)))),
            },
    {
        let version = match read_be(data, 0, 2) {
            Some(version) => version,
            None => {
                return Err(ReadError::OutOfBounds);
            },
        };
        let len: usize = if version == 0 {
            78
        } else if version == 1 {
            86
        } else if version < 5 {
            96
        } else {
            100
        };
        if data.len() < len {
            return Err(ReadError::OutOfBounds);
        }
        let table = Os2 { data: vstd::slice::slice_to_vec(data) };
        Ok(table)
    }

    /// The number that the field of `width` bytes at `offset` holds,
    /// where the version is at least `since`.
    fn read_field(&self, offset: usize, width: usize, since: u16) -> (value: Option<u64>)
        requires
            0 < width <= 8,
            offset + width <= table_len(since as nat),
        ensures
            value.is_some() == (self.spec_version() >= since),
            match value {
                Some(v) => self.field(offset as nat, width as nat, since as nat) == Some(v as nat),
                None => self.field(offset as nat, width as nat, since as nat) is None,
            },
    {
        proof {
            use_type_invariant(self);
        }
        if self.version() >= since {
            read_be(self.data.as_slice(), offset, width)
        } else {
            None
        }
    }

    /// The version of the table.
    pub fn version(&self) -> (value: u16)
        ensures
            value == self.spec_version(),
    {
        proof {
            use_type_invariant(self);
            lemma_be_uint_bound(self@.subrange(0, 2));
            lemma_limit_values();
        }
        match read_be(self.data.as_slice(), 0, 2) {
            Some(value) => value as u16,
            None => 0,
        }
    }

    /// The average width of the glyphs.
    pub fn x_avg_char_width(&self) -> (value: i16)
        ensures
            value == signed(be_uint(self@.subrange(2, 4)), 2),
    {
        proof {
            use_type_invariant(self);
            lemma_be_uint_bound(self@.subrange(2, 4));
            lemma_limit_values();
        }
        match read_be(self.data.as_slice(), 2, 2) {
            Some(value) => to_i16(value as u16),
            None => 0,
        }
    }

    /// The weight class.
    pub fn us_weight_class(&self) -> (value: u16)
        ensures
            value == be_uint(self@.subrange(4, 6)),
    {
        proof {
            use_type_invariant(self);
            lemma_be_uint_bound(self@.subrange(4, 6));
            lemma_limit_values();
        }
        match read_be(self.data.as_slice(), 4, 2) {
            Some(value) => value as u16,
            None => 0,
        }
    }

    /// The first of the two code page ranges, which the table has from
    /// version 1 on.
    pub fn ul_code_page_range_1(&self) -> (value: Option<u32>)
        ensures
            value is Some <==> self.spec_version() >= 1,
            value matches Some(v) ==> self.field(78, 4, 1) == Some(v as nat),
    {
        proof {
            use_type_invariant(self);
            lemma_be_uint_bound(self@.subrange(78, 82));
            lemma_limit_values();
        }
        match self.read_field(78, 4, 1) {
            Some(value) => Some(value as u32),
            None => None,
        }
    }

    /// The x height, which the table has from version 2 on.
    pub fn sx_height(&self) -> (value: Option<i16>)
        ensures
            value is Some <==> self.spec_version() >= 2,
            value matches Some(v) ==> v == signed(be_uint(self@.subrange(86, 88)), 2),
    {
        proof {
            use_type_invariant(self);
            lemma_be_uint_bound(self@.subrange(86, 88));
            lemma_limit_values();
        }
        match self.read_field(86, 2, 2) {
            Some(value) => Some(to_i16(value as u16)),
            None => None,
        }
    }

    /// The cap height, which the table has from version 2 on.
    pub fn s_cap_height(&self) -> (value: Option<i16>)
        ensures
            value is Some <==> self.spec_version() >= 2,
            value matches Some(v) ==> v == signed(be_uint(self@.subrange(88, 90)), 2),
    {
        proof {
            use_type_invariant(self);
            lemma_be_uint_bound(self@.subrange(88, 90));
            lemma_limit_values();
        }
        match self.read_field(88, 2, 2) {
            Some(value) => Some(to_i16(value as u16)),
            None => None,
        }
    }

    /// The lower end of the range of optical sizes, which the table has
    /// from version 5 on.
    pub fn us_lower_optical_point_size(&self) -> (value: Option<u16>)
        ensures
            value is Some <==> self.spec_version() >= 5,
            value matches Some(v) ==> self.field(96, 2, 5) == Some(v as nat),
    {
        proof {
            use_type_invariant(self);
            lemma_be_uint_bound(self@.subrange(96, 98));
            lemma_limit_values();
        }
        match self.read_field(96, 2, 5) {
            Some(value) => Some(value as u16),
            None => None,
        }
    }
}

/// The signed number that `value` stands for in two's complement.
pub fn to_i16(value: u16) -> (out: i16)
    ensures
        out == signed(value as nat, 2),
{
    proof {
        lemma_limit_values();
    }
    if value >= 0x8000 {
        (value as i32 - 0x1_0000) as i16
    } else {
        value as i16
    }
}

} // verus!
