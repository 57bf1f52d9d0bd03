//! The [head](https://docs.microsoft.com/en-us/typography/opentype/spec/head) table

use crate::font_data::{be_uint, lemma_be_uint_bound, lemma_limit_values, read_be, signed};
use vstd::prelude::*;

verus! {

/// A scalar as it stands in the font data: `N` bytes, most significant
/// byte first.
#[derive(Debug, Clone, Copy, PartialEq, Eq)]
pub struct BigEndian<const N: usize> {
    pub raw: [u8; N],
}

/// A 16.16 fixed-point number, held by its bits.
#[derive(Debug, Clone, Copy, PartialEq, Eq, Structural)]
pub struct Fixed {
    pub bits: i32,
}

impl Fixed {
    pub fn from_bits(bits: i32) -> (fixed: Fixed)
        ensures
            fixed.bits == bits,
    {
        Fixed { bits }
    }

    pub fn to_bits(self) -> (bits: i32)
        ensures
            bits == self.bits,
    {
        self.bits
    }
}

/// A date: the seconds since midnight, January 1st 1904, UTC.
#[derive(Debug, Clone, Copy, PartialEq, Eq, Structural)]
pub struct LongDateTime {
    pub secs: i64,
}

impl LongDateTime {
    pub fn new(secs: i64) -> (date: LongDateTime)
        ensures
            date.secs == secs,
    {
        LongDateTime { secs }
    }

    pub fn as_secs(&self) -> (secs: i64)
        ensures
            secs == self.secs,
    {
        self.secs
    }
}

impl BigEndian<2> {
    /// The two bytes at `offset`.
    pub fn read(data: &[u8], offset: usize) -> (out: BigEndian<2>)
        requires
            offset + 2 <= data@.len(),
        ensures
            out.raw@ == data@.subrange(offset as int, offset + 2),
    {
        let out = BigEndian { raw: [data[offset], data[offset + 1]] };
        assert(out.raw@ =~= data@.subrange(offset as int, offset + 2));
        out
    }

    /// The unsigned number that the bytes spell.
    pub fn get(&self) -> (value: u16)
        ensures
            value == be_uint(self.raw@),
    {
        proof {
            lemma_be_uint_bound(self.raw@);
            lemma_limit_values();
        }
        match read_be(self.raw.as_slice(), 0, 2) {
            Some(value) => {
                assert(self.raw@.subrange(0, 2) =~= self.raw@);
                value as u16
            },
            None => 0,
        }
    }

    /// The signed number that the bytes spell in two's complement.
    pub fn get_signed(&self) -> (value: i16)
        ensures
            value == signed(be_uint(self.raw@), 2),
    {
        proof {
            lemma_limit_values();
        }
        let value = self.get();
        if value >= 0x8000 {
            (value as i32 - 0x1_0000) as i16
        } else {
            value as i16
        }
    }
}

impl BigEndian<4> {
    /// The four bytes at `offset`.
    pub fn read(data: &[u8], offset: usize) -> (out: BigEndian<4>)
        requires
            offset + 4 <= data@.len(),
        ensures
            out.raw@ == data@.subrange(offset as int, offset + 4),
    {
        let out = BigEndian {
            raw: [data[offset], data[offset + 1], data[offset + 2], data[offset + 3]],
        };
        assert(out.raw@ =~= data@.subrange(offset as int, offset + 4));
        out
    }

    /// The unsigned number that the bytes spell.
    pub fn get(&self) -> (value: u32)
        ensures
            value == be_uint(self.raw@),
    {
        proof {
            lemma_be_uint_bound(self.raw@);
            lemma_limit_values();
        }
        match read_be(self.raw.as_slice(), 0, 4) {
            Some(value) => {
                assert(self.raw@.subrange(0, 4) =~= self.raw@);
                value as u32
            },
            None => 0,
        }
    }

    /// The signed number that the bytes spell in two's complement.
    pub fn get_signed(&self) -> (value: i32)
        ensures
            value == signed(be_uint(self.raw@), 4),
    {
        proof {
            lemma_limit_values();
        }
        let value = self.get();
        if value >= 0x8000_0000 {
            (value as i64 - 0x1_0000_0000) as i32
        } else {
            value as i32
        }
    }
}

impl BigEndian<8> {
    /// The eight bytes at `offset`.
    pub fn read(data: &[u8], offset: usize) -> (out: BigEndian<8>)
        requires
            offset + 8 <= data@.len(),
        ensures
            out.raw@ == data@.subrange(offset as int, offset + 8),
    {
        let out = BigEndian {
            raw: [
                data[offset],
                data[offset + 1],
                data[offset + 2],
                data[offset + 3],
                data[offset + 4],
                data[offset + 5],
                data[offset + 6],
                data[offset + 7],
            ],
        };
        assert(out.raw@ =~= data@.subrange(offset as int, offset + 8));
        out
    }

    /// The signed number that the bytes spell in two's complement.
    pub fn get_signed(&self) -> (value: i64)
        ensures
            value == signed(be_uint(self.raw@), 8),
    {
        proof {
            lemma_be_uint_bound(self.raw@);
            lemma_limit_values();
        }
        match read_be(self.raw.as_slice(), 0, 8) {
            Some(value) => {
                assert(self.raw@.subrange(0, 8) =~= self.raw@);
                if value >= 0x8000_0000_0000_0000 {
                    (value as i128 - 0x1_0000_0000_0000_0000) as i64
                } else {
                    value as i64
                }
            },
            None => 0,
        }
    }
}

/// <https://docs.microsoft.com/en-us/typography/opentype/spec/head>
#[derive(Debug, Clone, Copy, PartialEq, Eq)]
pub struct Head {
    /// Major version number of the font header table — set to 1.
    pub major_version: BigEndian<2>,
    /// Minor version number of the font header table — set to 0.
    pub minor_version: BigEndian<2>,
    /// Set by font manufacturer.
    pub font_revision: BigEndian<4>,
    /// To compute: set it to 0, sum the entire font as uint32, then
    /// store 0xB1B0AFBA - sum. If the font is used as a component in a
    /// font collection file, the value of this field will be
    /// invalidated by changes to the file structure and font table
    /// directory, and must be ignored.
    pub checksum_adjustment: BigEndian<4>,
    /// Set to 0x5F0F3CF5.
    pub magic_number: BigEndian<4>,
    /// See the flags enum
    pub flags: BigEndian<2>,
    /// Set to a value from 16 to 16384. Any value in this range is
    /// valid. In fonts that have TrueType outlines, a power of 2 is
    /// recommended as this allows performance optimizations in some
    /// rasterizers.
    pub units_per_em: BigEndian<2>,
    /// Number of seconds since 12:00 midnight that started January 1st
    /// 1904 in GMT/UTC time zone.
    pub created: BigEndian<8>,
    /// Number of seconds since 12:00 midnight that started January 1st
    /// 1904 in GMT/UTC time zone.
    pub modified: BigEndian<8>,
    /// Minimum x coordinate across all glyph bounding boxes.
    pub x_min: BigEndian<2>,
    /// Minimum y coordinate across all glyph bounding boxes.
    pub y_min: BigEndian<2>,
    /// Maximum x coordinate across all glyph bounding boxes.
    pub x_max: BigEndian<2>,
    /// Maximum y coordinate across all glyph bounding boxes.
    pub y_max: BigEndian<2>,
    /// see somewhere else
    pub mac_style: BigEndian<2>,
    /// Smallest readable size in pixels.
    pub lowest_rec_ppem: BigEndian<2>,
    /// Deprecated (Set to 2).
    pub font_direction_hint: BigEndian<2>,
    /// 0 for short offsets (Offset16), 1 for long (Offset32).
    pub index_to_loc_format: BigEndian<2>,
    /// 0 for current format.
    pub glyph_data_format: BigEndian<2>,
}

/// The length of the table in bytes.
pub const HEAD_LEN: usize = 54;

impl Head {
    /// The bytes of the table, field by field.
    pub open spec fn bytes(self) -> Seq<u8> {
        self.major_version.raw@ + self.minor_version.raw@ + self.font_revision.raw@
            + self.checksum_adjustment.raw@ + self.magic_number.raw@ + self.flags.raw@
            + self.units_per_em.raw@ + self.created.raw@ + self.modified.raw@ + self.x_min.raw@
            + self.y_min.raw@ + self.x_max.raw@ + self.y_max.raw@ + self.mac_style.raw@
            + self.lowest_rec_ppem.raw@ + self.font_direction_hint.raw@
            + self.index_to_loc_format.raw@ + self.glyph_data_format.raw@
    }

    /// Reads the table from the head of `data`, which has to hold all of
    /// its 54 bytes. The bytes of the table are those of the data.
    pub fn read(data: &[u8]) -> (head: Option<Head>)
        ensures
            head is Some <==> data@.len() >= HEAD_LEN,
            head matches Some(h) ==> h.bytes() == data@.take(HEAD_LEN as int)
                && h.units_per_em.raw@ == data@.subrange(18, 20),
    {
        if data.len() < HEAD_LEN {
            return None;
        }
        let head = Head {
            major_version: BigEndian::<2>::read(data, 0),
            minor_version: BigEndian::<2>::read(data, 2),
            font_revision: BigEndian::<4>::read(data, 4),
            checksum_adjustment: BigEndian::<4>::read(data, 8),
            magic_number: BigEndian::<4>::read(data, 12),
            flags: BigEndian::<2>::read(data, 16),
            units_per_em: BigEndian::<2>::read(data, 18),
            created: BigEndian::<8>::read(data, 20),
            modified: BigEndian::<8>::read(data, 28),
            x_min: BigEndian::<2>::read(data, 36),
            y_min: BigEndian::<2>::read(data, 38),
            x_max: BigEndian::<2>::read(data, 40),
            y_max: BigEndian::<2>::read(data, 42),
            mac_style: BigEndian::<2>::read(data, 44),
            lowest_rec_ppem: BigEndian::<2>::read(data, 46),
            font_direction_hint: BigEndian::<2>::read(data, 48),
            index_to_loc_format: BigEndian::<2>::read(data, 50),
            glyph_data_format: BigEndian::<2>::read(data, 52),
        };
        assert(head.bytes() =~= data@.take(HEAD_LEN as int));
        Some(head)
    }

    /// Writes the table: its bytes, field by field.
    pub fn write(&self) -> (out: Vec<u8>)
        ensures
            out@ == self.bytes(),
    {
        let mut out: Vec<u8> = Vec::new();
        out.extend_from_slice(self.major_version.raw.as_slice());
        out.extend_from_slice(self.minor_version.raw.as_slice());
        out.extend_from_slice(self.font_revision.raw.as_slice());
        out.extend_from_slice(self.checksum_adjustment.raw.as_slice());
        out.extend_from_slice(self.magic_number.raw.as_slice());
        out.extend_from_slice(self.flags.raw.as_slice());
        out.extend_from_slice(self.units_per_em.raw.as_slice());
        out.extend_from_slice(self.created.raw.as_slice());
        out.extend_from_slice(self.modified.raw.as_slice());
        out.extend_from_slice(self.x_min.raw.as_slice());
        out.extend_from_slice(self.y_min.raw.as_slice());
        out.extend_from_slice(self.x_max.raw.as_slice());
        out.extend_from_slice(self.y_max.raw.as_slice());
        out.extend_from_slice(self.mac_style.raw.as_slice());
        out.extend_from_slice(self.lowest_rec_ppem.raw.as_slice());
        out.extend_from_slice(self.font_direction_hint.raw.as_slice());
        out.extend_from_slice(self.index_to_loc_format.raw.as_slice());
        out.extend_from_slice(self.glyph_data_format.raw.as_slice());
        assert(out@ =~= self.bytes());
        out
    }

    /// Major version number of the font header table — set to 1.
    pub fn major_version(&self) -> (value: u16)
        ensures
            value == be_uint(self.major_version.raw@),
    {
        self.major_version.get()
    }

    /// Minor version number of the font header table — set to 0.
    pub fn minor_version(&self) -> (value: u16)
        ensures
            value == be_uint(self.minor_version.raw@),
    {
        self.minor_version.get()
    }

    /// Set by font manufacturer.
    pub fn font_revision(&self) -> (value: Fixed)
        ensures
            value.bits == signed(be_uint(self.font_revision.raw@), 4),
    {
        Fixed::from_bits(self.font_revision.get_signed())
    }

    /// To compute: set it to 0, sum the entire font as uint32, then
    /// store 0xB1B0AFBA - sum. If the font is used as a component in a
    /// font collection file, the value of this field will be
    /// invalidated by changes to the file structure and font table
    /// directory, and must be ignored.
    pub fn checksum_adjustment(&self) -> (value: u32)
        ensures
            value == be_uint(self.checksum_adjustment.raw@),
    {
        self.checksum_adjustment.get()
    }

    /// Set to 0x5F0F3CF5.
    pub fn magic_number(&self) -> (value: u32)
        ensures
            value == be_uint(self.magic_number.raw@),
    {
        self.magic_number.get()
    }

    /// See the flags enum
    pub fn flags(&self) -> (value: u16)
        ensures
            value == be_uint(self.flags.raw@),
    {
        self.flags.get()
    }

    /// Set to a value from 16 to 16384. Any value in this range is
    /// valid. In fonts that have TrueType outlines, a power of 2 is
    /// recommended as this allows performance optimizations in some
    /// rasterizers.
    pub fn units_per_em(&self) -> (value: u16)
        ensures
            value == be_uint(self.units_per_em.raw@),
    {
        self.units_per_em.get()
    }

    /// Number of seconds since 12:00 midnight that started January 1st
    /// 1904 in GMT/UTC time zone.
    pub fn created(&self) -> (value: LongDateTime)
        ensures
            value.secs == signed(be_uint(self.created.raw@), 8),
    {
        LongDateTime::new(self.created.get_signed())
    }

    /// Number of seconds since 12:00 midnight that started January 1st
    /// 1904 in GMT/UTC time zone.
    pub fn modified(&self) -> (value: LongDateTime)
        ensures
            value.secs == signed(be_uint(self.modified.raw@), 8),
    {
        LongDateTime::new(self.modified.get_signed())
    }

    /// Minimum x coordinate across all glyph bounding boxes.
    pub fn x_min(&self) -> (value: i16)
        ensures
            value == signed(be_uint(self.x_min.raw@), 2),
    {
        self.x_min.get_signed()
    }

    /// Minimum y coordinate across all glyph bounding boxes.
    pub fn y_min(&self) -> (value: i16)
        ensures
            value == signed(be_uint(self.y_min.raw@), 2),
    {
        self.y_min.get_signed()
    }

    /// Maximum x coordinate across all glyph bounding boxes.
    pub fn x_max(&self) -> (value: i16)
        ensures
            value == signed(be_uint(self.x_max.raw@), 2),
    {
        self.x_max.get_signed()
    }

    /// Maximum y coordinate across all glyph bounding boxes.
    pub fn y_max(&self) -> (value: i16)
        ensures
            value == signed(be_uint(self.y_max.raw@), 2),
    {
        self.y_max.get_signed()
    }

    /// see somewhere else
    pub fn mac_style(&self) -> (value: u16)
        ensures
            value == be_uint(self.mac_style.raw@),
    {
        self.mac_style.get()
    }

    /// Smallest readable size in pixels.
    pub fn lowest_rec_ppem(&self) -> (value: u16)
        ensures
            value == be_uint(self.lowest_rec_ppem.raw@),
    {
        self.lowest_rec_ppem.get()
    }

    /// Deprecated (Set to 2).
    pub fn font_direction_hint(&self) -> (value: i16)
        ensures
            value == signed(be_uint(self.font_direction_hint.raw@), 2),
    {
        self.font_direction_hint.get_signed()
    }

    /// 0 for short offsets (Offset16), 1 for long (Offset32).
    pub fn index_to_loc_format(&self) -> (value: i16)
        ensures
            value == signed(be_uint(self.index_to_loc_format.raw@), 2),
    {
        self.index_to_loc_format.get_signed()
    }

    /// 0 for current format.
    pub fn glyph_data_format(&self) -> (value: i16)
        ensures
            value == signed(be_uint(self.glyph_data_format.raw@), 2),
    {
        self.glyph_data_format.get_signed()
    }
}

} // verus!
