use font_codegen::error::ErrorKind;
use font_codegen::lexer::SyntaxError;
use font_codegen::parsing::{Count, Expr, FieldType, Item, Op};
use font_codegen::schema::parse_schema;
use font_codegen::{generate_code, ErrorReport, Mode};

/// The schema of the bitmap location tables.
const BITMAP: &str = r#"#![parse_module(read_fonts::tables::bitmap)]

/// [BitmapSize](https://learn.microsoft.com/en-us/typography/opentype/spec/eblc#bitmapsize-record) record.
record BitmapSize {
    /// Offset to index subtable from beginning of EBLC/CBLC.
    index_subtable_array_offset: u32,
    /// Number of bytes in corresponding index subtables and array.
    index_tables_size: u32,
    /// There is an index subtable for each range or format change.
    number_of_index_subtables: u32,
    /// Not used; set to 0.
    color_ref: u32,
    /// Line metrics for text rendered horizontally.
    hori: SbitLineMetrics,
    /// Line metrics for text rendered vertically.
    vert: SbitLineMetrics,
    /// Lowest glyph index for this size.
    start_glyph_index: GlyphId,
    /// Highest glyph index for this size.
    end_glyph_index: GlyphId,
    /// Horizontal pixels per em.
    ppem_x: u8,
    /// Vertical pixels per em.
    ppem_y: u8,
    /// The Microsoft rasterizer v.1.7 or greater supports the following
    /// bitDepth values, as described below: 1, 2, 4, and 8 (and 32 for CBLC).
    bit_depth: u8,
    /// Vertical or horizontal.
    flags: BitmapFlags,
}

/// [SbitLineMetrics](https://learn.microsoft.com/en-us/typography/opentype/spec/eblc#sbitlinemetrics-record) record.
record SbitLineMetrics {
    ascender: i8,
    descender: i8,
    width_max: u8,
    caret_slope_numerator: i8,
    caret_slope_denominator: u8,
    caret_offset: i8,
    min_origin_sb: i8,
    min_advance_sb: i8,
    max_before_bl: i8,
    min_after_bl: i8,
    pad1: i8,
    pad2: i8,
}

/// [Bitmap flags](https://learn.microsoft.com/en-us/typography/opentype/spec/eblc#bitmap-flags).
flags u8 BitmapFlags {
    /// Horizontal
    HORIZONTAL_METRICS = 0x01,
    /// Vertical
    VERTICAL_METRICS = 0x02,
}

/// [BigGlyphMetrics](https://learn.microsoft.com/en-us/typography/opentype/spec/eblc#bigglyphmetrics) record.
record BigGlyphMetrics {
    /// Number of rows of data.
    height: u8,
    /// Number of columns of data.
    width: u8,
    /// Distance in pixels from the horizontal origin to the left edge of the bitmap.
    hori_bearing_x: i8,
    /// Distance in pixels from the horizontal origin to the top edge of the bitmap.
    hori_bearing_y: i8,
    /// Horizontal advance width in pixels.
    hori_advance: u8,
    /// Distance in pixels from the vertical origin to the left edge of the bitmap.
    vert_bearing_x: i8,
    /// Distance in pixels from the vertical origin to the top edge of the bitmap.
    vert_bearing_y: i8,
    /// Vertical advance width in pixels.
    vert_advance: u8,
}

/// [SmallGlyphMetrics](https://learn.microsoft.com/en-us/typography/opentype/spec/eblc#smallglyphmetrics) record.
record SmallGlyphMetrics {
    /// Number of rows of data.
    height: u8,
    /// Number of columns of data.
    width: u8,
    /// Distance in pixels from the horizontal origin to the left edge of the bitmap (for horizontal text); or distance in pixels from the vertical origin to the top edge of the bitmap (for vertical text).
    bearing_x: i8,
    /// Distance in pixels from the horizontal origin to the top edge of the bitmap (for horizontal text); or distance in pixels from the vertical origin to the left edge of the bitmap (for vertical text).
    bearing_y: i8,
    /// Horizontal or vertical advance width in pixels.
    advance: u8,
}

/// [IndexSubtableArray](https://learn.microsoft.com/en-us/typography/opentype/spec/eblc#indexsubtablearray) table.
table IndexSubtableArray {
    /// First glyph ID of this range.
    first_glyph_index: GlyphId,
    /// Last glyph ID of this range (inclusive).
    last_glyph_index: GlyphId,
    /// Add to indexSubTableArrayOffset to get offset from beginning of EBLC.
    additional_offset_to_index_subtable: u32,
}

/// [IndexSubtables](https://learn.microsoft.com/en-us/typography/opentype/spec/eblc#indexsubtables) format type.
format u16 IndexSubtable {
    Format1(IndexSubtable1),
    Format2(IndexSubtable2),
    Format3(IndexSubtable3),
    Format4(IndexSubtable4),
    Format5(IndexSubtable5),
}

/// [IndexSubTable1](https://learn.microsoft.com/en-us/typography/opentype/spec/eblc#indexsubtable1-variable-metrics-glyphs-with-4-byte-offsets): variable-metrics glyphs with 4-byte offsets.
table IndexSubtable1 {
    /// Format of this IndexSubTable.
    #[format = 1]
    index_format: u16,
    /// Format of EBDT image data.
    image_format: u16,
    /// Offset to image data in EBDT table.
    image_data_offset: u32,
    #[count(..)]
    sbit_offsets: [u32],
}

/// [IndexSubTable2](https://learn.microsoft.com/en-us/typography/opentype/spec/eblc#indexsubtable2-all-glyphs-have-identical-metrics): all glyphs have identical metrics.
table IndexSubtable2 {
    /// Format of this IndexSubTable.
    #[format = 2]
    index_format: u16,
    /// Format of EBDT image data.
    image_format: u16,
    /// Offset to image data in EBDT table.
    image_data_offset: u32,
    /// All the glyphs are of the same size.
    image_size: u32,
    /// All glyphs have the same metrics; glyph data may be compressed, byte-aligned, or bit-aligned.
    #[count(1)]
    big_metrics: [BigGlyphMetrics],
}

/// [IndexSubTable3](https://learn.microsoft.com/en-us/typography/opentype/spec/eblc#indexsubtable3-variable-metrics-glyphs-with-2-byte-offsets): variable-metrics glyphs with 2-byte offsets.
table IndexSubtable3 {
    /// Format of this IndexSubTable.
    #[format = 3]
    index_format: u16,
    /// Format of EBDT image data.
    image_format: u16,
    /// Offset to image data in EBDT table.
    image_data_offset: u32,
    #[count(..)]
    sbit_offsets: [u16],
}

/// [IndexSubTable4](https://learn.microsoft.com/en-us/typography/opentype/spec/eblc#indexsubtable3-variable-metrics-glyphs-with-2-byte-offsets): variable-metrics glyphs with sparse glyph codes.
table IndexSubtable4 {
    /// Format of this IndexSubTable.
    #[format = 4]
    index_format: u16,
    /// Format of EBDT image data.
    image_format: u16,
    /// Offset to image data in EBDT table.
    image_data_offset: u32,
    /// Array length.
    num_glyphs: u32,
    /// One per glyph.
    #[count(add($num_glyphs, 1))]
    glyph_array: [GlyphIdOffsetPair],
}

/// [GlyphIdOffsetPair](https://learn.microsoft.com/en-us/typography/opentype/spec/eblc#glyphidoffsetpair-record) record.
record GlyphIdOffsetPair {
    /// Glyph ID of glyph present.
    glyph_id: GlyphId,
    /// Location in EBDT.
    sbit_offset: u16,
}

/// [IndexSubTable5](https://learn.microsoft.com/en-us/typography/opentype/spec/eblc#indexsubtable5-constant-metrics-glyphs-with-sparse-glyph-codes): constant-metrics glyphs with sparse glyph codes
table IndexSubtable5 {
    /// Format of this IndexSubTable.
    #[format = 5]
    index_format: u16,
    /// Format of EBDT image data.
    image_format: u16,
    /// Offset to image data in EBDT table.
    image_data_offset: u32,
    /// All glyphs have the same data size.
    image_size: u32,
    /// All glyphs have the same metrics.
    #[count(1)]
    big_metrics: [BigGlyphMetrics],
    /// Array length.
    num_glyphs: u32,
    /// One per glyph, sorted by glyhph ID.
    #[count($num_glyphs)]
    glyph_array: [GlyphId],
}
"#;

fn table<'a>(items: &'a font_codegen::parsing::Items, name: &str) -> &'a font_codegen::parsing::Table {
    for item in &items.items {
        if let Item::Table(table) = item {
            if table.name == name {
                return table;
            }
        }
    }
    panic!("no table {name}");
}

#[test]
fn bitmap_schema_is_read() {
    let items = parse_schema(BITMAP).unwrap();
    assert_eq!(items.parse_module_path, "read_fonts::tables::bitmap");
    let names: Vec<&str> = items.items.iter().map(|item| item.name().as_str()).collect();
    assert_eq!(
        names,
        vec![
            "BitmapSize",
            "SbitLineMetrics",
            "BitmapFlags",
            "BigGlyphMetrics",
            "SmallGlyphMetrics",
            "IndexSubtableArray",
            "IndexSubtable",
            "IndexSubtable1",
            "IndexSubtable2",
            "IndexSubtable3",
            "IndexSubtable4",
            "GlyphIdOffsetPair",
            "IndexSubtable5",
        ]
    );
}

#[test]
fn counts_are_read_in_all_their_forms() {
    let items = parse_schema(BITMAP).unwrap();
    let one = table(&items, "IndexSubtable1");
    assert_eq!(one.fields.fields[0].attrs.format, Some(1));
    assert_eq!(one.fields.fields[3].attrs.count, Some(Count::All));
    let two = table(&items, "IndexSubtable2");
    assert_eq!(two.fields.fields[4].attrs.count, Some(Count::Literal(1)));
    let four = table(&items, "IndexSubtable4");
    assert_eq!(
        four.fields.fields[4].attrs.count,
        Some(Count::Expr(Expr::Call {
            op: Op::Add,
            lhs: Box::new(Expr::Field("num_glyphs".to_string())),
            rhs: Box::new(Expr::Literal(1)),
        }))
    );
    let five = table(&items, "IndexSubtable5");
    assert_eq!(five.fields.fields[6].attrs.count, Some(Count::Field("num_glyphs".to_string())));
}

#[test]
fn fields_that_lengths_name_are_read_at_parse_time() {
    let items = parse_schema(BITMAP).unwrap();
    let four = table(&items, "IndexSubtable4");
    let flags: Vec<(&str, bool)> =
        four.fields.iter().iter().map(|f| (f.name.as_str(), f.read_at_parse_time)).collect();
    assert_eq!(
        flags,
        vec![
            ("index_format", false),
            ("image_format", false),
            ("image_data_offset", false),
            ("num_glyphs", true),
            ("glyph_array", false),
        ]
    );
}

#[test]
fn docs_are_kept_line_by_line() {
    let items = parse_schema(BITMAP).unwrap();
    let four = table(&items, "IndexSubtable4");
    assert_eq!(four.fields.fields[3].attrs.docs, vec![" Array length.".to_string()]);
    assert_eq!(four.docs.len(), 1);
    assert!(four.docs[0].starts_with(" [IndexSubTable4]"));
}

#[test]
fn types_of_the_schema_are_resolved() {
    let mut items = parse_schema(BITMAP).unwrap();
    let Item::Record(size) = &items.items[0] else { panic!() };
    assert_eq!(size.fields.fields[11].typ, FieldType::Other { typ: "BitmapFlags".to_string() });
    assert_eq!(size.fields.fields[4].typ, FieldType::Other { typ: "SbitLineMetrics".to_string() });
    items.resolve_pending();
    let Item::Record(size) = &items.items[0] else { panic!() };
    assert_eq!(size.fields.fields[11].typ, FieldType::Scalar { typ: "BitmapFlags".to_string() });
    assert_eq!(size.fields.fields[4].typ, FieldType::Other { typ: "SbitLineMetrics".to_string() });
    assert_eq!(size.fields.fields[8].typ, FieldType::Scalar { typ: "u8".to_string() });
}

#[test]
fn generated_text_begins_with_the_banner() {
    for mode in [Mode::Parse, Mode::Compile] {
        let text = generate_code(BITMAP, mode).unwrap();
        assert!(text.starts_with(
            "// THIS FILE IS AUTOGENERATED.\n// Any changes to this file will be overwritten.\n// For more information about how codegen works, see font-codegen/README.md\n\n#[allow(unused_imports)]\nuse crate::codegen_prelude::*;\n\n"
        ));
    }
}

#[test]
fn generation_is_deterministic() {
    for mode in [Mode::Parse, Mode::Compile] {
        assert_eq!(generate_code(BITMAP, mode), generate_code(BITMAP, mode));
    }
    assert_eq!(generate_code("table", Mode::Parse), generate_code("table", Mode::Parse));
}

#[test]
fn generated_modules_are_rust() {
    for mode in [Mode::Parse, Mode::Compile] {
        let text = generate_code(BITMAP, mode).unwrap();
        let file = syn::parse_file(&text).unwrap_or_else(|e| panic!("{mode:?}: {e}\n{text}"));
        assert!(file.items.len() > 10);
    }
}

#[test]
fn parse_module_holds_the_validator_of_index_subtable4() {
    let text = generate_code(BITMAP, Mode::Parse).unwrap();
    let validator = "impl<'a> FontRead<'a> for IndexSubtable4<'a> {\n\
fn read(data: FontData<'a>) -> Result<Self, ReadError> {\n\
let mut cursor = data.cursor();\n\
cursor.advance::<u16>();\n\
cursor.advance::<u16>();\n\
cursor.advance::<u32>();\n\
let num_glyphs: u32 = cursor.read()?;\n\
let glyph_array_byte_len = add((num_glyphs as usize), 1) * GlyphIdOffsetPair::RAW_BYTE_LEN;\n\
cursor.advance_by(glyph_array_byte_len);\n\
cursor.finish(IndexSubtable4Marker {\n\
glyph_array_byte_len,\n\
})\n\
}\n\
}\n\n";
    assert!(text.contains(validator), "{text}");
    let getter = "pub fn glyph_array(&self) -> &[GlyphIdOffsetPair] {\n\
let range = self.shape.glyph_array_byte_range();\n\
self.data.read_array(range).unwrap()\n\
}\n";
    assert!(text.contains(getter), "{text}");
    let range = "fn glyph_array_byte_range(&self) -> Range<usize> {\n\
let start = self.num_glyphs_byte_range().end;\n\
start..start + self.glyph_array_byte_len\n\
}\n";
    assert!(text.contains(range), "{text}");
}

#[test]
fn parse_module_dispatches_on_the_format() {
    let text = generate_code(BITMAP, Mode::Parse).unwrap();
    let reader = "impl<'a> FontRead<'a> for IndexSubtable<'a> {\n\
fn read(data: FontData<'a>) -> Result<Self, ReadError> {\n\
let format: u16 = data.read_at(0)?;\n\
match format {\n\
IndexSubtable1Marker::FORMAT => Ok(Self::Format1(FontRead::read(data)?)),\n\
IndexSubtable2Marker::FORMAT => Ok(Self::Format2(FontRead::read(data)?)),\n\
IndexSubtable3Marker::FORMAT => Ok(Self::Format3(FontRead::read(data)?)),\n\
IndexSubtable4Marker::FORMAT => Ok(Self::Format4(FontRead::read(data)?)),\n\
IndexSubtable5Marker::FORMAT => Ok(Self::Format5(FontRead::read(data)?)),\n\
other => Err(ReadError::InvalidFormat(other.into())),\n\
}\n\
}\n\
}\n\n";
    assert!(text.contains(reader), "{text}");
    assert!(text.contains(
        "impl Format<u16> for IndexSubtable5Marker {\nconst FORMAT: u16 = 5;\n}\n\n"
    ));
}

#[test]
fn compile_module_checks_the_length_of_glyph_array() {
    let text = generate_code(BITMAP, Mode::Compile).unwrap();
    let check = "ctx.in_field(\"glyph_array\", |ctx| {\n\
if self.glyph_array.len() > (u32::MAX as usize) {\n\
ctx.report(\"array excedes max length\");\n\
}\n\
self.glyph_array.validate_impl(ctx);\n\
});\n";
    assert!(text.contains(check), "{text}");
}

#[test]
fn compile_module_omits_and_writes_the_format() {
    let text = generate_code(BITMAP, Mode::Compile).unwrap();
    let owned = "#[derive(Clone, Debug)]\npub struct IndexSubtable4 {\n\
/// Format of EBDT image data.\n\
pub image_format: u16,\n\
/// Offset to image data in EBDT table.\n\
pub image_data_offset: u32,\n\
/// Array length.\n\
pub num_glyphs: u32,\n\
/// One per glyph.\n\
pub glyph_array: Vec<GlyphIdOffsetPair>,\n\
}\n\n";
    assert!(text.contains(owned), "{text}");
    let write = "impl FontWrite for IndexSubtable4 {\n\
fn write_into(&self, writer: &mut TableWriter) {\n\
(4 as u16).write_into(writer);\n\
self.image_format.write_into(writer);\n\
self.image_data_offset.write_into(writer);\n\
self.num_glyphs.write_into(writer);\n\
self.glyph_array.write_into(writer);\n\
}\n\
}\n\n";
    assert!(text.contains(write), "{text}");
}

#[test]
fn compile_module_takes_the_flags_from_the_parse_module() {
    let text = generate_code(BITMAP, Mode::Compile).unwrap();
    assert!(text.contains("pub use read_fonts::tables::bitmap::{BitmapFlags, };\n\n"));
    assert!(!text.contains("pub struct BitmapFlags"));
    let parse = generate_code(BITMAP, Mode::Parse).unwrap();
    assert!(parse.contains("pub struct BitmapFlags {\nbits: u8,\n}\n\n"));
    assert!(parse.contains("pub const VERTICAL_METRICS: Self = Self { bits: 2 };\n"));
}

#[test]
fn syntax_errors_say_where_and_what() {
    let error = generate_code("table Head {}", Mode::Parse).unwrap_err();
    let ErrorReport::Syntax(SyntaxError { span, message }) = error else { panic!() };
    assert_eq!((span.start, span.end), (0, 0));
    assert_eq!(message, "expected `#![`");
    let text = "#![parse_module(a::b)]\ntable Head { version u16 }";
    let ErrorReport::Syntax(e) = generate_code(text, Mode::Parse).unwrap_err() else { panic!() };
    assert_eq!(e.message, "expected `:`");
    assert_eq!(e.span.start, text.find("u16").unwrap());
    let text = "#![parse_module(a::b)]\ntable Head { #[count(99999999999)] a: [u8] }";
    let ErrorReport::Syntax(e) = generate_code(text, Mode::Parse).unwrap_err() else { panic!() };
    assert_eq!(e.message, "expected a number that fits in 32 bits");
    let text = "#![parse_module(a::b)]\nstruct Head { }";
    let ErrorReport::Syntax(e) = generate_code(text, Mode::Parse).unwrap_err() else { panic!() };
    assert_eq!(e.message, "expected an item");
}

fn kinds(text: &str) -> Vec<(ErrorKind, String)> {
    let full = format!("#![parse_module(a::b)]\n{text}");
    match generate_code(&full, Mode::Parse).unwrap_err() {
        ErrorReport::Analysis(errors) => errors.into_iter().map(|e| (e.kind, e.name)).collect(),
        ErrorReport::Syntax(e) => panic!("syntax error: {e:?}"),
    }
}

#[test]
fn analysis_reports_every_finding() {
    let found = kinds("table T { a: [u16], b: [[u8]], #[count($n)] c: u8 }");
    assert_eq!(
        found,
        vec![
            (ErrorKind::MissingLength, "a".to_string()),
            (ErrorKind::TypeMisuse, "b".to_string()),
            (ErrorKind::MissingLength, "b".to_string()),
            (ErrorKind::TypeMisuse, "c".to_string()),
            (ErrorKind::UnresolvedReference, "c".to_string()),
        ]
    );
}

#[test]
fn analysis_reports_unbound_names_with_the_first_findings() {
    let text = "#![parse_module(a::b)]\n\
        table T { a: [u16], #[count($n)] b: [u8], #[compile($m)] c: u8, d: Offset16<Nowhere> }\n\
        group G(T, $c) { 1 => A(T), 1 => B(T) }";
    for mode in [Mode::Parse, Mode::Compile] {
        let ErrorReport::Analysis(errors) = generate_code(text, mode).unwrap_err() else {
            panic!()
        };
        let found: Vec<(ErrorKind, &str, &str)> =
            errors.iter().map(|e| (e.kind, e.name.as_str(), e.message.as_str())).collect();
        assert_eq!(
            found,
            vec![
                (ErrorKind::MissingLength, "a", "array requires #[count] attribute"),
                (ErrorKind::UnresolvedReference, "b", "no preceding field or argument named `n`"),
                (ErrorKind::UnresolvedReference, "c", "no preceding field or argument named `m`"),
                (
                    ErrorKind::DuplicateDiscriminant,
                    "B",
                    "the discriminant of `T` is that of an earlier variant"
                ),
            ]
        );
    }
    // the items that types name are looked for once the first pass has passed
    assert_eq!(
        kinds("table T { d: Offset16<Nowhere> }\ngroup G(T, $d) { 1 => A(T), 2 => B(T) }"),
        vec![(ErrorKind::UnresolvedReference, "d".to_string())]
    );
}

#[test]
fn analysis_takes_enumerations_and_flags_as_scalars() {
    let text = "#![parse_module(a::b)]\n\
        enum u16 Kind { One = 1 }\nflags u8 Bits { LOW = 1 }\n\
        table T { kind: Kind, bits: Bits, #[count($kind)] a: [u8], #[len($bits)] b: [u8] }";
    assert!(generate_code(text, Mode::Parse).is_ok());
    assert_eq!(
        kinds("enum u16 Kind { One = 1 }\ntable T { n: u8, #[read_with_args($n)] kind: Kind }"),
        vec![(ErrorKind::TypeMisuse, "kind".to_string())]
    );
    assert_eq!(
        kinds("record R { x: u8 }\ntable T { r: R, #[count($r)] a: [u8] }"),
        vec![(ErrorKind::TypeMisuse, "a".to_string())]
    );
}

#[test]
fn analysis_finds_unresolved_references() {
    assert_eq!(
        kinds("table T { #[count($n)] a: [u16] }"),
        vec![(ErrorKind::UnresolvedReference, "a".to_string())]
    );
    assert_eq!(
        kinds("table T { #[count($n)] a: [u16], n: u16 }"),
        vec![(ErrorKind::UnresolvedReference, "a".to_string())]
    );
    assert_eq!(
        kinds("table T { a: Offset16<Nowhere> }"),
        vec![(ErrorKind::UnresolvedReference, "a".to_string())]
    );
    assert_eq!(
        kinds("table T { #[available(2)] a: u16 }"),
        vec![(ErrorKind::UnresolvedReference, "a".to_string())]
    );
    assert_eq!(
        kinds("format u16 F { A(Missing) }"),
        vec![(ErrorKind::UnresolvedReference, "A".to_string())]
    );
}

#[test]
fn analysis_finds_type_misuse() {
    assert_eq!(
        kinds("table T { n: u16, #[read_with_args($n)] a: u16 }"),
        vec![(ErrorKind::TypeMisuse, "a".to_string())]
    );
    assert_eq!(
        kinds("table T { #[count(..)] a: [u16], b: u16 }"),
        vec![(ErrorKind::TypeMisuse, "a".to_string())]
    );
    assert_eq!(
        kinds("table T { n: [u8], #[count($n)] a: [u16] }"),
        vec![(ErrorKind::MissingLength, "n".to_string()), (ErrorKind::TypeMisuse, "a".to_string())]
    );
    assert_eq!(
        kinds("record R { a: u8 }\ntable T { #[len(2)] n: [u8], #[count($n)] a: [u16], r: T }"),
        vec![(ErrorKind::TypeMisuse, "a".to_string())]
    );
    assert_eq!(
        kinds("record R { a: u8 }\ntable T { #[len(2)] n: [u8], r: T }"),
        vec![(ErrorKind::TypeMisuse, "r".to_string())]
    );
}

#[test]
fn analysis_finds_duplicate_discriminants() {
    let found = kinds(
        "format u16 F { A(One), B(Two) }\n\
         table One { #[format = 1] format: u16 }\n\
         table Two { #[format = 0x01] format: u16 }",
    );
    assert_eq!(found, vec![(ErrorKind::DuplicateDiscriminant, "B".to_string())]);
}

#[test]
fn mode_is_read_from_its_name() {
    assert_eq!(Mode::from_str("parse").unwrap(), Mode::Parse);
    assert_eq!(Mode::from_str("compile").unwrap(), Mode::Compile);
    let error = Mode::from_str("Parse").unwrap_err();
    assert_eq!(error.message(), "expected one of 'parse' or 'compile' (found Parse)");
    assert_eq!(Mode::Parse.name(), "parse");
    assert_eq!(Mode::Compile.name(), "compile");
}

#[test]
fn first_pass_knows_the_scalars_of_the_schema_as_it_was_read() {
    let text = "#![parse_module(a::b)]\n\
        enum u16 Kind { One = 1 }\n\
        format Kind F { A(One), B(Two) }\n\
        table One { #[format = 1] format: Kind, #[count($format)] a: [u8] }\n\
        table Two { #[format = 1] format: Kind }\n\
        record R { x: u8 }\n\
        table T { r: R, #[count($r)] a: [u8] }";
    let items = parse_schema(text).unwrap();
    let found: Vec<(ErrorKind, String)> = items
        .sanity_check(font_codegen::parsing::Phase::Parse)
        .into_iter()
        .map(|e| (e.kind, e.name))
        .collect();
    assert_eq!(
        found,
        vec![
            (ErrorKind::DuplicateDiscriminant, "B".to_string()),
            (ErrorKind::TypeMisuse, "a".to_string()),
        ]
    );
    let Item::Table(one) = &items.items[2] else { panic!() };
    assert_eq!(one.discriminant(), None);
    let kind = vec!["Kind".to_string()];
    assert_eq!(one.discriminant_among(&kind), Some((&"Kind".to_string(), 1)));
    assert_eq!(one.discriminant_among(&Vec::new()), None);
}
