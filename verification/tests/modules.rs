use font_codegen::error::ErrorKind;
use font_codegen::module::banner_text;
use font_codegen::parsing::Span;
use font_codegen::{generate_code, generate_module_text, ErrorReport, Mode};

/// A schema that uses every kind of item, type and attribute.
const EVERYTHING: &str = r#"#![parse_module(read_fonts::tables::everything)]

extern { ValueRecord, Anchor }

/// A table of everything.
/// It has two lines of documentation.
table Everything {
    /// The version
    version: u16,
    kind: Kind,
    flags: Bits,
    count: u16,
    #[count($count)]
    values: [u16],
    #[nullable]
    other_offset: Offset16<Other>,
    plain_offset: Offset32,
    #[skip_offset_getter]
    skipped_offset: Offset24<Other>,
    #[skip_getter]
    hidden: u8,
    #[compile_type(MyLength)]
    length: u16,
    #[count($count)]
    other_offsets: [Offset16<Other>],
    #[count(2)]
    pairs: [Pair],
    pair: Pair,
    value_count: u16,
    #[count($value_count)]
    #[read_with_args($count, $value_count)]
    sized: ComputedArray<Sized<'a>>,
    #[read_with_args($count)]
    one: Sized,
    #[len(sub(mul($count, 2), 1))]
    raw: [u8],
    #[available(1)]
    later: u32,
    #[available(1)]
    #[nullable]
    later_offset: Offset16<Other>,
    #[available(2)]
    late_offset: Offset32<Other>,
    #[available(2)]
    #[count(3)]
    late_values: [i16],
    #[count(..)]
    rest: [u8],
}

table Other {
    #[compile(3)]
    three: u8,
    #[compile(mul(2, add(1, 2)))]
    six: u16,
    n: u16,
    #[compile(add($n, 1))]
    next: u16,
    value: ValueRecord,
}

/// A pair
record Pair {
    /// The first
    first: u16,
    second: Fixed,
    flags: Bits,
}

#[read_args(count: u16, value_count: u16)]
record Sized<'a> {
    #[count($count)]
    firsts: [u16],
    #[count(mul($value_count, 2))]
    seconds: [Pair],
    anchor: Anchor,
}

#[read_args(n: u16)]
table Argued {
    #[count($n)]
    values: [Offset32<Other>],
}

/// Kinds
enum u16 Kind {
    /// Nothing
    None = 0,
    Some = 1,
}

flags u32 Bits {
    /// The lowest
    LOW = 0x0001,
    HIGH = 0x80000000,
}

format u8 Choice {
    /// The first
    First(ChoiceOne),
    Second(ChoiceTwo),
}

table ChoiceOne {
    #[format = 1]
    format: u8,
}

table ChoiceTwo {
    #[format = 2]
    format: u8,
    value: u32,
}
"#;

#[test]
fn modules_of_every_construct_are_rust() {
    for mode in [Mode::Parse, Mode::Compile] {
        let text = generate_code(EVERYTHING, mode).unwrap_or_else(|e| panic!("{e:?}"));
        let file = syn::parse_file(&text).unwrap_or_else(|e| panic!("{mode:?}: {e}\n{text}"));
        assert!(file.items.len() > 10);
    }
}

#[test]
fn versioned_fields_record_their_start() {
    let text = generate_code(EVERYTHING, Mode::Parse).unwrap();
    let step = "let later_byte_start = version.compatible(1).then(|| cursor.position()).transpose()?;\n\
version.compatible(1).then(|| cursor.advance::<u32>());\n";
    assert!(text.contains(step), "{text}");
    let step = "let late_values_byte_start = version.compatible(2).then(|| cursor.position()).transpose()?;\n\
let late_values_byte_len = version.compatible(2).then(|| 3 * i16::RAW_BYTE_LEN);\n\
late_values_byte_len.map(|value| cursor.advance_by(value));\n";
    assert!(text.contains(step), "{text}");
    let step = "let rest_byte_len = cursor.remaining_bytes() / u8::RAW_BYTE_LEN * u8::RAW_BYTE_LEN;\ncursor.advance_by(rest_byte_len);\n";
    assert!(text.contains(step), "{text}");
    assert!(text.contains("let version: u16 = cursor.read()?;\n"));
    assert!(text.contains("later_byte_start: Option<usize>,\n"));
    assert!(text.contains("late_values_byte_len: Option<usize>,\n"));
}

#[test]
fn versioned_ranges_begin_where_the_last_present_field_ends() {
    let text = generate_code(EVERYTHING, Mode::Parse).unwrap();
    let range = "fn later_byte_range(&self) -> Option<Range<usize>> {\n\
let start = self.later_byte_start?;\n\
Some(start..start + u32::RAW_BYTE_LEN)\n\
}\n";
    assert!(text.contains(range), "{text}");
    let range = "fn late_values_byte_range(&self) -> Option<Range<usize>> {\n\
let start = self.late_values_byte_start?;\n\
Some(start..start + self.late_values_byte_len?)\n\
}\n";
    assert!(text.contains(range), "{text}");
    let range = "fn raw_byte_range(&self) -> Range<usize> {\n\
let start = self.one_byte_range().end;\n\
start..start + self.raw_byte_len\n\
}\n";
    assert!(text.contains(range), "{text}");
}

#[test]
fn offsets_get_an_accessor_that_resolves_them() {
    let text = generate_code(EVERYTHING, Mode::Parse).unwrap();
    let getter = "/// Attempt to resolve [`other_offset`][Self::other_offset].\n\
pub fn other(&self) -> Option<Result<Other<'a>, ReadError>> {\n\
let range = self.shape.other_offset_byte_range();\n\
let offset: Offset16 = self.data.read_at(range.start).unwrap();\n\
let result = offset.resolve_nullable(&self.data);\n\
result\n\
}\n";
    assert!(text.contains(getter), "{text}");
    let getter = "pub fn late(&self) -> Option<Result<Other<'a>, ReadError>> {\n\
let range = self.shape.late_offset_byte_range()?;\n\
let offset: Offset32 = self.data.read_at(range.start).unwrap();\n\
let result = offset.resolve(&self.data);\n\
Some(result)\n\
}\n";
    assert!(text.contains(getter), "{text}");
    let getter = "pub fn later(&self) -> Option<Result<Other<'a>, ReadError>> {\n\
let range = self.shape.later_offset_byte_range()?;\n\
let offset: Offset16 = self.data.read_at(range.start).unwrap();\n\
let result = offset.resolve_nullable(&self.data);\n\
result\n\
}\n";
    assert!(text.contains(getter), "{text}");
    assert!(!text.contains("pub fn skipped("));
    assert!(text.contains("pub fn skipped_offset(&self) -> Offset24 {"));
    assert!(!text.contains("pub fn plain("));
    assert!(!text.contains("pub fn hidden("));
}

#[test]
fn computed_lengths_are_recorded_in_the_shape() {
    let text = generate_code(EVERYTHING, Mode::Parse).unwrap();
    let step = "let sized_byte_len = (value_count as usize) * <Sized as ComputeSize>::compute_size(&(count, value_count));\n\
cursor.advance_by(sized_byte_len);\n";
    assert!(text.contains(step), "{text}");
    let step = "let one_byte_len = <Sized as ComputeSize>::compute_size(&count);\n";
    assert!(text.contains(step), "{text}");
    let step = "let raw_byte_len = sub(mul((count as usize), 2), 1);\n";
    assert!(text.contains(step), "{text}");
    let getter = "pub fn sized(&self) -> ComputedArray<'a, Sized<'a>> {\n\
let range = self.shape.sized_byte_range();\n\
self.data.read_with_args(range, &(self.count(), self.value_count())).unwrap()\n\
}\n";
    assert!(text.contains(getter), "{text}");
}

#[test]
fn records_have_a_length_and_a_reader() {
    let text = generate_code(EVERYTHING, Mode::Parse).unwrap();
    let fixed = "impl FixedSize for Pair {\n\
const RAW_BYTE_LEN: usize = 0 + u16::RAW_BYTE_LEN + Fixed::RAW_BYTE_LEN + Bits::RAW_BYTE_LEN;\n\
}\n\n";
    assert!(text.contains(fixed), "{text}");
    let record = "/// A pair\n#[derive(Clone, Debug)]\n#[repr(C)]\n#[repr(packed)]\npub struct Pair {\n\
/// The first\n\
pub first: BigEndian<u16>,\n\
pub second: BigEndian<Fixed>,\n\
pub flags: BigEndian<Bits>,\n\
}\n\n";
    assert!(text.contains(record), "{text}");
    let reader = "impl<'a> FontReadWithArgs<'a> for Sized<'a> {\n\
fn read_with_args(data: FontData<'a>, args: &(u16, u16)) -> Result<Self, ReadError> {\n\
let mut cursor = data.cursor();\n\
let (count, value_count) = *args;\n\
Ok(Self {\n\
firsts: cursor.read_array((count as usize) * u16::RAW_BYTE_LEN)?,\n\
seconds: cursor.read_array(mul((value_count as usize), 2) * Pair::RAW_BYTE_LEN)?,\n\
anchor: cursor.read()?,\n\
})\n\
}\n\
}\n\n";
    assert!(text.contains(reader), "{text}");
    let getter = "pub fn first(&self) -> u16 {\nself.first.get()\n}\n";
    assert!(text.contains(getter), "{text}");
    let getter = "pub fn anchor(&self) -> &Anchor {\n&self.anchor\n}\n";
    assert!(text.contains(getter), "{text}");
}

#[test]
fn raw_enums_keep_unknown_values_apart() {
    let text = generate_code(EVERYTHING, Mode::Parse).unwrap();
    let decl = "/// Kinds\n#[derive(Clone, Copy, Debug, PartialEq, Eq)]\n#[repr(u16)]\npub enum Kind {\n\
/// Nothing\n\
None = 0,\n\
Some = 1,\n\
#[doc(hidden)]\nUnknown,\n}\n\n";
    assert!(text.contains(decl), "{text}");
    let new = "pub fn new(raw: u16) -> Self {\nmatch raw {\n0 => Self::None,\n1 => Self::Some,\n_ => Self::Unknown,\n}\n}\n";
    assert!(text.contains(new), "{text}");
    assert!(text.contains("pub const HIGH: Self = Self { bits: 2147483648 };\n"));
}

#[test]
fn compile_expressions_are_written_and_checked() {
    let text = generate_code(EVERYTHING, Mode::Compile).unwrap();
    let write = "impl FontWrite for Other {\n\
fn write_into(&self, writer: &mut TableWriter) {\n\
(3 as u8).write_into(writer);\n\
((2 * (1 + 2)) as u16).write_into(writer);\n\
self.n.write_into(writer);\n\
match checked_add(Some(self.n as usize), Some(1)) {\n\
Some(value) => (value as u16).write_into(writer),\n\
None => writer.fail(\"computed value is absent\"),\n\
};\n\
self.value.write_into(writer);\n\
}\n\
}\n\n";
    assert!(text.contains(write), "{text}");
    let check = "ctx.in_field(\"next\", |ctx| {\n\
if checked_add(Some(self.n as usize), Some(1)).is_none() {\n\
ctx.report(\"computed value is absent\");\n\
}\n\
});\n";
    assert!(text.contains(check), "{text}");
    let owned = "pub struct Other {\npub n: u16,\npub value: ValueRecord,\n}\n\n";
    assert!(text.contains(owned), "{text}");
    assert!(!text.contains(".unwrap()"), "{text}");
}

#[test]
fn owned_fields_hold_markers_and_vectors() {
    let text = generate_code(EVERYTHING, Mode::Compile).unwrap();
    assert!(text.contains("pub other_offset: NullableOffsetMarker<Offset16, Other>,\n"));
    assert!(text.contains("pub plain_offset: OffsetMarker<Offset32, Box<dyn FontWrite>>,\n"));
    assert!(text.contains("pub other_offsets: Vec<OffsetMarker<Offset16, Other>>,\n"));
    assert!(text.contains("pub pairs: Vec<Pair>,\n"));
    assert!(text.contains("pub sized: Vec<Sized>,\n"));
    assert!(text.contains("pub length: MyLength,\n"));
    assert!(text.contains("pub use read_fonts::tables::everything::{Kind, Bits, };\n\n"));
    let check = "ctx.in_field(\"values\", |ctx| {\n\
if self.values.len() > (u16::MAX as usize) {\n\
ctx.report(\"array excedes max length\");\n\
}\n\
});\n";
    assert!(text.contains(check), "{text}");
    let check = "ctx.in_field(\"other_offset\", |ctx| {\nself.other_offset.validate_impl(ctx);\n});\n";
    assert!(text.contains(check), "{text}");
}

#[test]
fn format_groups_are_owned_as_enums() {
    let text = generate_code(EVERYTHING, Mode::Compile).unwrap();
    let owned = "#[derive(Clone, Debug)]\npub enum Choice {\nFirst(ChoiceOne),\nSecond(ChoiceTwo),\n}\n\n\
impl FontWrite for Choice {\n\
fn write_into(&self, writer: &mut TableWriter) {\nmatch self {\n\
Self::First(item) => item.write_into(writer),\n\
Self::Second(item) => item.write_into(writer),\n\
}\n}\n}\n\n";
    assert!(text.contains(owned), "{text}");
    let parse = generate_code(EVERYTHING, Mode::Parse).unwrap();
    assert!(parse.contains("pub enum Choice<'a> {\n/// The first\nFirst(ChoiceOne<'a>),\nSecond(ChoiceTwo<'a>),\n}\n\n"));
}

#[test]
fn tables_with_arguments_are_read_with_them() {
    let text = generate_code(EVERYTHING, Mode::Parse).unwrap();
    let reader = "impl<'a> FontReadWithArgs<'a> for Argued<'a> {\n\
fn read_with_args(data: FontData<'a>, args: &u16) -> Result<Self, ReadError> {\n\
let n = *args;\n\
let mut cursor = data.cursor();\n\
let values_byte_len = (n as usize) * Offset32::RAW_BYTE_LEN;\n\
cursor.advance_by(values_byte_len);\n\
cursor.finish(ArguedMarker {\n\
values_byte_len,\n\
})\n\
}\n\
}\n\n";
    assert!(text.contains(reader), "{text}");
}

/// A schema with a group over a header table.
const GROUPED: &str = r#"#![parse_module(read_fonts::tables::layout)]

table Lookup {
    lookup_type: u16,
    lookup_flag: u16,
}

table SinglePos {
    value: u16,
}

table PairPos {
    first: u16,
    second: u16,
}

/// A lookup of one of two kinds.
group PositionLookup(Lookup, $lookup_type) {
    1 => Single(SinglePos),
    2 => Pair(PairPos),
}
"#;

#[test]
fn generic_groups_dispatch_on_the_field_of_the_header() {
    let text = generate_code(GROUPED, Mode::Parse).unwrap();
    let group = "/// A lookup of one of two kinds.\n\
pub enum PositionLookup<'a> {\n\
Single(Lookup<'a, SinglePos<'a>>),\n\
Pair(Lookup<'a, PairPos<'a>>),\n\
}\n\n\
impl<'a> FontRead<'a> for PositionLookup<'a> {\n\
fn read(data: FontData<'a>) -> Result<Self, ReadError> {\n\
let untyped = Lookup::read(data)?;\n\
match untyped.lookup_type() {\n\
1 => Ok(Self::Single(untyped.into_concrete())),\n\
2 => Ok(Self::Pair(untyped.into_concrete())),\n\
other => Err(ReadError::InvalidFormat(other.into())),\n\
}\n}\n}\n\n";
    assert!(text.ends_with(group), "{text}");
}

#[test]
fn generic_groups_are_owned_as_an_enum_over_the_header() {
    let text = generate_code(GROUPED, Mode::Compile).unwrap();
    let group = "/// A lookup of one of two kinds.\n\
#[derive(Clone, Debug)]\n\
pub enum PositionLookup {\n\
Single(Lookup<SinglePos>),\n\
Pair(Lookup<PairPos>),\n\
}\n\n\
impl FontWrite for PositionLookup {\n\
fn write_into(&self, writer: &mut TableWriter) {\n\
match self {\n\
Self::Single(item) => item.write_into(writer),\n\
Self::Pair(item) => item.write_into(writer),\n\
}\n}\n}\n\n\
impl Validate for PositionLookup {\n\
fn validate_impl(&self, ctx: &mut ValidationCtx) {\n\
match self {\n\
Self::Single(item) => item.validate_impl(ctx),\n\
Self::Pair(item) => item.validate_impl(ctx),\n\
}\n}\n}\n\n";
    assert!(text.ends_with(group), "{text}");
}

#[test]
fn generic_groups_are_checked_like_format_groups() {
    let twice = GROUPED.replace("2 => Pair", "1 => Pair");
    match generate_code(&twice, Mode::Parse) {
        Err(ErrorReport::Analysis(errors)) => {
            assert_eq!(errors.len(), 1);
            assert_eq!(errors[0].kind, ErrorKind::DuplicateDiscriminant);
            assert_eq!(errors[0].name, "Pair");
        }
        other => panic!("{other:?}"),
    }
    let unknown = GROUPED.replace("Pair(PairPos)", "Pair(Nowhere)");
    match generate_code(&unknown, Mode::Compile) {
        Err(ErrorReport::Analysis(errors)) => {
            assert_eq!(errors.len(), 1);
            assert_eq!(errors[0].kind, ErrorKind::UnresolvedReference);
            assert_eq!(errors[0].message, "no item named `Nowhere`");
        }
        other => panic!("{other:?}"),
    }
}

#[test]
fn generic_groups_have_to_be_written_in_full() {
    for broken in [
        GROUPED.replace("(Lookup, $lookup_type)", "(Lookup)"),
        GROUPED.replace("$lookup_type", "lookup_type"),
        GROUPED.replace("1 => Single", "Single"),
        GROUPED.replace("1 => Single", "1 = Single"),
        GROUPED.replace("Single(SinglePos)", "Single"),
        GROUPED.replace("PositionLookup(Lookup", "(Lookup"),
    ] {
        match generate_code(&broken, Mode::Parse) {
            Err(ErrorReport::Syntax(_)) => {}
            other => panic!("{broken}: {other:?}"),
        }
    }
    let empty = "#![parse_module(a::b)]\ntable T { a: u8 }\ngroup G(T, $a) {}\n";
    let text = generate_code(empty, Mode::Parse).unwrap();
    assert!(text.contains("pub enum G<'a> {\n}\n\n"), "{text}");
}

#[test]
fn the_version_is_read_only_where_a_field_depends_on_it() {
    let plain = "#![parse_module(a::b)]\ntable T {\n version: u16,\n value: u16,\n}\n";
    let text = generate_code(plain, Mode::Parse).unwrap();
    assert!(text.contains("cursor.advance::<u16>();\ncursor.advance::<u16>();\n"), "{text}");
    assert!(!text.contains("let version"), "{text}");
    let versioned =
        "#![parse_module(a::b)]\ntable T {\n version: u16,\n #[available(1)]\n value: u16,\n}\n";
    let text = generate_code(versioned, Mode::Parse).unwrap();
    let steps = "let version: u16 = cursor.read()?;\n\
let value_byte_start = version.compatible(1).then(|| cursor.position()).transpose()?;\n\
version.compatible(1).then(|| cursor.advance::<u16>());\n";
    assert!(text.contains(steps), "{text}");
    let missing = "#![parse_module(a::b)]\ntable T {\n #[available(1)]\n value: u16,\n}\n";
    match generate_code(missing, Mode::Parse) {
        Err(ErrorReport::Analysis(errors)) => {
            assert_eq!(errors.len(), 1);
            assert_eq!(errors[0].kind, ErrorKind::UnresolvedReference);
            assert_eq!(errors[0].message, "no preceding field or argument named `version`");
        }
        other => panic!("{other:?}"),
    }
}

#[test]
fn the_module_comes_with_and_without_the_notice() {
    for mode in [Mode::Parse, Mode::Compile] {
        let module = generate_module_text(EVERYTHING, mode).unwrap();
        let whole = generate_code(EVERYTHING, mode).unwrap();
        assert_eq!(whole, format!("{}{}", banner_text(), module));
        assert!(module.starts_with("#[allow(unused_imports)]\n"));
        assert_eq!(generate_module_text("table", mode), generate_code("table", mode));
    }
}

#[test]
fn schema_findings_point_at_the_attribute_or_the_type() {
    let text = "#![parse_module(a::b)]\ntable T {\n n: u16,\n #[len($n)]\n #[read_with_args($n)]\n a: u16,\n #[read_with_args($n)]\n b: ComputedArray<R>,\n}\n";
    match generate_code(text, Mode::Parse) {
        Err(ErrorReport::Analysis(errors)) => {
            let found: Vec<(&str, &str, &str)> = errors
                .iter()
                .map(|e| (e.name.as_str(), e.message.as_str(), &text[e.span.start..e.span.end]))
                .collect();
            assert_eq!(
                found,
                vec![
                    ("a", "#[len_expr] unnecessary, #[read_with] provides computed length", "len"),
                    ("a", "attribute not valid on this type", "read_with_args"),
                    ("b", "missing count attribute", "ComputedArray"),
                ]
            );
            assert_eq!(errors[0].span, Span { start: 45, end: 48 });
        }
        other => panic!("{other:?}"),
    }
}
