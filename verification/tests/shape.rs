use font_codegen::font_data::{resolve, resolve_nullable, ReadError};
use font_codegen::owned::{CompileError, CompileErrorKind, Owned};
use font_codegen::parsing::{Item, Items, Table, TableFormat};
use font_codegen::schema::parse_schema;
use font_codegen::shape::{FieldShape, Reader};

const SCHEMA: &str = r#"#![parse_module(read_fonts::tables::sample)]

format u16 IndexSubtable {
    Format4(IndexSubtable4),
    Format5(IndexSubtable5),
}

table IndexSubtable4 {
    #[format = 4]
    index_format: u16,
    image_format: u16,
    image_data_offset: u32,
    num_glyphs: u32,
    #[count(add($num_glyphs, 1))]
    glyph_array: [GlyphIdOffsetPair],
}

record GlyphIdOffsetPair {
    glyph_id: GlyphId,
    sbit_offset: u16,
}

record BigGlyphMetrics {
    height: u8,
    width: u8,
    hori_bearing_x: i8,
    hori_bearing_y: i8,
    hori_advance: u8,
    vert_bearing_x: i8,
    vert_bearing_y: i8,
    vert_advance: u8,
}

table IndexSubtable5 {
    #[format = 5]
    index_format: u16,
    image_format: u16,
    image_data_offset: u32,
    image_size: u32,
    #[count(1)]
    big_metrics: [BigGlyphMetrics],
    num_glyphs: u32,
    #[count($num_glyphs)]
    glyph_array: [GlyphId],
}

table Versioned {
    version: u16,
    flags: Kind,
    #[available(2)]
    height: i16,
    #[available(2)]
    #[count(2)]
    extra: [u16],
    #[available(5)]
    late: u32,
}

flags u8 Kind {
    A = 0x01,
}

table Rest {
    count: u8,
    #[count(..)]
    offsets: [u32],
}

table Sized {
    n: u16,
    #[len(mul($n, 3))]
    bytes: [u8],
}

#[read_args(count: u16)]
table WithArgs {
    #[count($count)]
    values: [u16],
}

table Computed {
    n: u16,
    #[count($n)]
    #[read_with_args($n)]
    values: ComputedArray<GlyphIdOffsetPair>,
}
"#;

fn items() -> Items {
    let mut items = parse_schema(SCHEMA).unwrap();
    assert!(items.sanity_check(font_codegen::parsing::Phase::Parse).is_empty());
    items.resolve_pending();
    let errors = items.sanity_check(font_codegen::parsing::Phase::Analysis);
    assert!(errors.is_empty(), "{errors:?}");
    items
}

fn table<'a>(items: &'a Items, name: &str) -> &'a Table {
    match items.find(&name.to_string()) {
        Some(Item::Table(table)) => table,
        _ => panic!("no table {name}"),
    }
}

fn group<'a>(items: &'a Items, name: &str) -> &'a TableFormat {
    match items.find(&name.to_string()) {
        Some(Item::Format(group)) => group,
        _ => panic!("no group {name}"),
    }
}

/// An `IndexSubtable4` with `num_glyphs = 3`, and with it four pairs.
fn subtable4() -> Vec<u8> {
    let mut data = Vec::new();
    data.extend_from_slice(&4u16.to_be_bytes());
    data.extend_from_slice(&17u16.to_be_bytes());
    data.extend_from_slice(&0x0000_1000u32.to_be_bytes());
    data.extend_from_slice(&3u32.to_be_bytes());
    for (glyph, offset) in [(10u16, 0u16), (11, 40), (15, 80), (0xFFFF, 120)] {
        data.extend_from_slice(&glyph.to_be_bytes());
        data.extend_from_slice(&offset.to_be_bytes());
    }
    data
}

fn shape(start: usize, len: usize) -> FieldShape {
    FieldShape { start, len, present: true }
}

#[test]
fn count_with_add_gives_one_element_more() {
    let items = items();
    let four = table(&items, "IndexSubtable4");
    let data = subtable4();
    let reader = Reader { items: &items, fields: &four.fields, data: &data, args: &[] };
    let found = reader.validate().unwrap();
    assert_eq!(
        found.fields,
        vec![shape(0, 2), shape(2, 2), shape(4, 4), shape(8, 4), shape(12, 16)]
    );
    assert_eq!(found.len, 28);
    assert_eq!(reader.read_scalar(&found, 3), Ok(3));
    assert_eq!(reader.array_len(&found, 4), Ok(4));
    assert_eq!(reader.element(&found, 4, 3), Some(&[0xFF, 0xFF, 0, 120][..]));
    assert_eq!(reader.element(&found, 4, 0), Some(&[0, 10, 0, 0][..]));
    assert_eq!(reader.element(&found, 4, 4), None);
    assert_eq!(reader.array_len(&found, 3), Err(ReadError::Unsized));
}

#[test]
fn lengths_of_the_fields_add_up_to_the_length_of_the_table() {
    let items = items();
    for (name, data) in [
        ("IndexSubtable4", subtable4()),
        ("Versioned", versioned(1)),
        ("Versioned", versioned(2)),
        ("Versioned", versioned(5)),
        ("Rest", vec![0, 0, 0, 0, 1, 0, 0, 0, 2, 9, 9]),
        ("Sized", vec![0, 2, 1, 2, 3, 4, 5, 6, 7]),
    ] {
        let fields = &table(&items, name).fields;
        let reader = Reader { items: &items, fields, data: &data, args: &[] };
        let found = reader.validate().unwrap();
        let sum: usize = found.fields.iter().map(|f| f.len).sum();
        assert_eq!(sum, found.len, "{name}");
        assert!(found.len <= data.len());
        let mut at = 0;
        for field in &found.fields {
            assert_eq!(field.start, at);
            at += field.len;
        }
    }
}

#[test]
fn short_table_is_out_of_bounds() {
    let items = items();
    let four = table(&items, "IndexSubtable4");
    let mut data = subtable4();
    data.pop();
    let reader = Reader { items: &items, fields: &four.fields, data: &data, args: &[] };
    assert_eq!(reader.validate(), Err(ReadError::OutOfBounds));
    let reader = Reader { items: &items, fields: &four.fields, data: &data[..5], args: &[] };
    assert_eq!(reader.validate(), Err(ReadError::OutOfBounds));
    let mut huge = subtable4();
    huge[8..12].copy_from_slice(&u32::MAX.to_be_bytes());
    let reader = Reader { items: &items, fields: &four.fields, data: &huge, args: &[] };
    assert_eq!(reader.validate(), Err(ReadError::OutOfBounds));
}

#[test]
fn format_group_dispatches_on_the_discriminant() {
    let items = items();
    let subtable = group(&items, "IndexSubtable");
    let mut data = subtable4();
    let reader = Reader { items: &items, fields: &table(&items, "Rest").fields, data: &data, args: &[] };
    assert_eq!(reader.dispatch(subtable), Ok(0));
    data[1] = 5;
    let reader = Reader { items: &items, fields: &table(&items, "Rest").fields, data: &data, args: &[] };
    assert_eq!(reader.dispatch(subtable), Ok(1));
    assert_eq!(subtable.variants[1].typ, "IndexSubtable5");
    data[1] = 99;
    let reader = Reader { items: &items, fields: &table(&items, "Rest").fields, data: &data, args: &[] };
    assert_eq!(reader.dispatch(subtable), Err(ReadError::InvalidFormat(99)));
    let reader = Reader { items: &items, fields: &table(&items, "Rest").fields, data: &[0], args: &[] };
    assert_eq!(reader.dispatch(subtable), Err(ReadError::OutOfBounds));
}

fn versioned(version: u16) -> Vec<u8> {
    let mut data = Vec::new();
    data.extend_from_slice(&version.to_be_bytes());
    data.push(1);
    if version >= 2 {
        data.extend_from_slice(&(-7i16).to_be_bytes());
        data.extend_from_slice(&[0, 1, 0, 2]);
    }
    if version >= 5 {
        data.extend_from_slice(&0xAABB_CCDDu32.to_be_bytes());
    }
    data
}

#[test]
fn later_fields_are_absent_before_their_version() {
    let items = items();
    let fields = &table(&items, "Versioned").fields;
    let data = versioned(1);
    let reader = Reader { items: &items, fields, data: &data, args: &[] };
    let found = reader.validate().unwrap();
    let absent = FieldShape { start: 3, len: 0, present: false };
    assert_eq!(found.fields, vec![shape(0, 2), shape(2, 1), absent, absent, absent]);
    assert_eq!(found.len, 3);
    assert_eq!(reader.read_scalar(&found, 2), Err(ReadError::Unsized));
    assert_eq!(reader.read_optional(&found, 2), None);
    assert_eq!(reader.read_optional(&found, 4), None);
    assert_eq!(reader.read_optional(&found, 0), Some(Ok(1)));
}

#[test]
fn later_fields_are_present_from_their_version_on() {
    let items = items();
    let fields = &table(&items, "Versioned").fields;
    let data = versioned(2);
    let reader = Reader { items: &items, fields, data: &data, args: &[] };
    let found = reader.validate().unwrap();
    let absent = FieldShape { start: 9, len: 0, present: false };
    assert_eq!(found.fields, vec![shape(0, 2), shape(2, 1), shape(3, 2), shape(5, 4), absent]);
    assert_eq!(reader.read_scalar(&found, 2), Ok((-7i16) as u16 as u64));
    assert_eq!(reader.read_optional(&found, 2), Some(Ok((-7i16) as u16 as u64)));
    assert_eq!(reader.read_optional(&found, 4), None);
    let data = versioned(6);
    let reader = Reader { items: &items, fields, data: &data, args: &[] };
    let found = reader.validate().unwrap();
    assert_eq!(found.fields[4], shape(9, 4));
    assert_eq!(reader.read_scalar(&found, 4), Ok(0xAABB_CCDD));
    assert_eq!(reader.read_optional(&found, 4), Some(Ok(0xAABB_CCDD)));
    assert_eq!(found.len, 13);
}

#[test]
fn rest_of_the_data_is_taken_in_whole_elements() {
    let items = items();
    let fields = &table(&items, "Rest").fields;
    let data = vec![0, 0, 0, 0, 1, 0, 0, 0, 2, 9, 9];
    let reader = Reader { items: &items, fields, data: &data, args: &[] };
    let found = reader.validate().unwrap();
    assert_eq!(found.fields, vec![shape(0, 1), shape(1, 8)]);
    assert_eq!(reader.array_len(&found, 1), Ok(2));
}

#[test]
fn len_gives_the_length_in_bytes() {
    let items = items();
    let fields = &table(&items, "Sized").fields;
    let data = vec![0, 2, 1, 2, 3, 4, 5, 6, 7];
    let reader = Reader { items: &items, fields, data: &data, args: &[] };
    let found = reader.validate().unwrap();
    assert_eq!(found.fields, vec![shape(0, 2), shape(2, 6)]);
    assert_eq!(found.len, 8);
}

#[test]
fn arguments_of_the_reader_are_count_sources() {
    let items = items();
    let fields = &table(&items, "WithArgs").fields;
    let data = vec![0, 1, 0, 2, 0, 3];
    let reader = Reader { items: &items, fields, data: &data, args: &[3] };
    assert_eq!(reader.validate().unwrap().fields, vec![shape(0, 6)]);
    let reader = Reader { items: &items, fields, data: &data, args: &[4] };
    assert_eq!(reader.validate(), Err(ReadError::OutOfBounds));
    let reader = Reader { items: &items, fields, data: &data, args: &[] };
    assert_eq!(reader.validate(), Err(ReadError::Unsized));
}

#[test]
fn what_arguments_size_is_not_followed() {
    let items = items();
    let fields = &table(&items, "Computed").fields;
    let data = vec![0, 1, 0, 2, 0, 3];
    let reader = Reader { items: &items, fields, data: &data, args: &[] };
    assert_eq!(reader.validate(), Err(ReadError::Unsized));
}

#[test]
fn owned_table_is_written_back_bit_for_bit() {
    let items = items();
    for (name, data) in [
        ("IndexSubtable4", subtable4()),
        ("Versioned", versioned(1)),
        ("Versioned", versioned(3)),
        ("Versioned", versioned(5)),
        ("Sized", vec![0, 2, 1, 2, 3, 4, 5, 6, 7]),
    ] {
        let fields = &table(&items, name).fields;
        let reader = Reader { items: &items, fields, data: &data, args: &[] };
        let found = reader.validate().unwrap();
        let owned = fields.read_owned(&found, &data);
        assert!(fields.can_write(&owned));
        assert_eq!(fields.write_owned(&owned), data[..found.len], "{name}");
    }
}

#[test]
fn owned_table_holds_scalars_by_value_and_omits_the_format() {
    let items = items();
    let fields = &table(&items, "IndexSubtable4").fields;
    let data = subtable4();
    let reader = Reader { items: &items, fields, data: &data, args: &[] };
    let found = reader.validate().unwrap();
    let owned = fields.read_owned(&found, &data);
    assert_eq!(owned[0], Owned::Computed { width: 2 });
    assert_eq!(owned[3], Owned::Scalar { value: 3, width: 4 });
    assert_eq!(owned[4], Owned::Raw(data[12..].to_vec()));
    let mut wrong = data.clone();
    wrong[1] = 7;
    let rewritten = fields.write_owned(&fields.read_owned(&found, &wrong));
    assert_eq!(rewritten, data);
}

#[test]
fn scalar_that_does_not_fit_cannot_be_written() {
    let items = items();
    let fields = &table(&items, "Sized").fields;
    let owned = vec![Owned::Scalar { value: 0x1_0000, width: 2 }, Owned::Raw(vec![])];
    assert!(!fields.can_write(&owned));
    let owned = vec![Owned::Scalar { value: 0xFFFF, width: 2 }, Owned::Raw(vec![1])];
    assert!(fields.can_write(&owned));
    assert_eq!(fields.write_owned(&owned), vec![0xFF, 0xFF, 1]);
    assert!(!fields.can_write(&vec![Owned::Absent]));
}

#[test]
fn offsets_resolve_within_the_data() {
    let data = [1u8, 2, 3, 4];
    assert_eq!(resolve(2, &data), Ok(&data[2..]));
    assert_eq!(resolve(4, &data), Ok(&data[4..]));
    assert_eq!(resolve(0, &data), Ok(&data[..]));
    assert_eq!(resolve(5, &data), Err(ReadError::OutOfBounds));
}

#[test]
fn nullable_offset_of_zero_is_absent() {
    let data = [1u8, 2, 3, 4];
    assert_eq!(resolve_nullable(0, &data), None);
    assert_eq!(resolve_nullable(3, &data), Some(Ok(&data[3..])));
    assert_eq!(resolve_nullable(9, &data), Some(Err(ReadError::OutOfBounds)));
}

#[test]
fn array_longer_than_its_count_can_say_is_too_long() {
    let items = items();
    let fields = &table(&items, "IndexSubtable4").fields;
    let too_long = fields.validate_lens(&vec![1, 1, 1, 1, u32::MAX as u64 + 1]);
    assert_eq!(
        too_long,
        vec![CompileError { field: "glyph_array".to_string(), kind: CompileErrorKind::ArrayTooLong }]
    );
    assert_eq!(fields.validate_lens(&vec![1, 1, 1, 1, u32::MAX as u64]), vec![]);
    assert_eq!(fields.validate_lens(&vec![u64::MAX, u64::MAX, u64::MAX, u64::MAX, 0]), vec![]);
    assert_eq!(fields.count_width(4), Some(4));
    assert_eq!(fields.count_width(3), None);
    let five = &table(&items, "IndexSubtable5").fields;
    let found = five.validate_lens(&vec![0, 0, 0, 0, 1 << 40, 0, 1 << 32]);
    assert_eq!(found.len(), 1);
    assert_eq!(found[0].field, "glyph_array");
    let with_args = &table(&items, "WithArgs").fields;
    assert_eq!(with_args.validate_lens(&vec![0xFFFF]), vec![]);
    assert_eq!(with_args.validate_lens(&vec![0x1_0000])[0].field, "values");
}
