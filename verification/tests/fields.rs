use font_codegen::error::ErrorKind;
use font_codegen::fields::FieldRule;
use font_codegen::parsing::{
    Count, CustomArray, Expr, Field, FieldAttrs, FieldReadArgs, FieldType, Fields, Op, Span,
    TableReadArg, TableReadArgs,
};

fn attrs() -> FieldAttrs {
    FieldAttrs {
        docs: Vec::new(),
        nullable: false,
        available: None,
        skip_getter: false,
        skip_offset_getter: false,
        count: None,
        len: None,
        read_with_args: None,
        format: None,
        compile: None,
        compile_type: None,
        len_span: Span { start: 40, end: 43 },
        read_with_args_span: Span { start: 50, end: 64 },
    }
}

fn field(name: &str, typ: FieldType) -> Field {
    Field {
        name: name.to_string(),
        typ,
        attrs: attrs(),
        read_at_parse_time: false,
        span: Span { start: 3, end: 3 + name.len() },
    }
}

fn scalar_type(typ: &str) -> FieldType {
    FieldType::Scalar { typ: typ.to_string() }
}

fn offset_type(typ: &str, target: Option<&str>) -> FieldType {
    FieldType::Offset { typ: typ.to_string(), target: target.map(str::to_string) }
}

fn other_type(typ: &str) -> FieldType {
    FieldType::Other { typ: typ.to_string() }
}

fn array_of(inner: FieldType) -> FieldType {
    FieldType::Array { inner_typ: Box::new(inner) }
}

fn computed_array(inner: &str, lifetime: bool) -> FieldType {
    FieldType::ComputedArray(CustomArray {
        inner: inner.to_string(),
        lifetime,
        span: Span { start: 20, end: 33 },
    })
}

fn scalar(name: &str, typ: &str) -> Field {
    field(name, scalar_type(typ))
}

fn counted(name: &str, inner: FieldType, count: Count) -> Field {
    let mut f = field(name, array_of(inner));
    f.attrs.count = Some(count);
    f
}

fn args(names: &[&str]) -> FieldReadArgs {
    FieldReadArgs { inputs: names.iter().map(|n| n.to_string()).collect() }
}

fn field_of(name: &str) -> Expr {
    Expr::Field(name.to_string())
}

fn call(op: Op, lhs: Expr, rhs: Expr) -> Expr {
    Expr::Call { op, lhs: Box::new(lhs), rhs: Box::new(rhs) }
}

fn broken(f: &Field) -> Vec<FieldRule> {
    let all = [
        FieldRule::NestedArray,
        FieldRule::ArrayWithoutLength,
        FieldRule::ArrayWithTwoLengths,
        FieldRule::LenWithReadArgs,
        FieldRule::ComputedArrayWithoutCount,
        FieldRule::ComputedArrayWithoutArgs,
        FieldRule::ReadArgsOnWrongType,
        FieldRule::CountOnWrongType,
        FieldRule::CountAllWithAvailable,
        FieldRule::FormatOnArray,
        FieldRule::OffsetWithoutName,
    ];
    let found: Vec<FieldRule> = all.into_iter().filter(|rule| f.breaks(*rule)).collect();
    let errors = f.sanity_check();
    assert_eq!(errors.len(), found.len());
    for (error, rule) in errors.iter().zip(&found) {
        assert_eq!(error.kind, rule.kind());
        assert_eq!(error.message, rule.message());
        assert_eq!(error.name, f.name);
        assert_eq!(error.span, f.rule_span(*rule));
    }
    found
}

#[test]
fn plain_scalar_is_skipped_by_the_validator() {
    let f = scalar("units_per_em", "u16");
    assert!(f.sanity_check().is_empty());
    assert_eq!(f.field_parse_validation_stmts(), "cursor.advance::<u16>();\n");
}

#[test]
fn predicates_look_at_type_and_attributes() {
    let mut f = scalar("a", "u16");
    assert!(!f.is_array() && !f.is_computed_array() && !f.has_computed_len());
    assert!(!f.is_version_dependent() && !f.is_nullable() && !f.is_computed());
    assert!(f.has_getter() && !f.validate_at_parse() && !f.gets_recursive_validation());
    f.attrs.available = Some(1);
    f.attrs.nullable = true;
    f.attrs.skip_getter = true;
    f.attrs.format = Some(3);
    assert!(f.is_version_dependent() && f.is_nullable() && f.is_computed() && !f.has_getter());
    assert!(!f.validate_at_parse());
    let mut g = scalar("b", "u16");
    g.attrs.compile = Some(Expr::Literal(1));
    assert!(g.is_computed());
    let a = counted("c", scalar_type("u8"), Count::Literal(2));
    assert!(a.is_array() && a.has_computed_len() && !a.is_computed_array());
    let mut l = field("d", array_of(scalar_type("u8")));
    l.attrs.len = Some(Expr::Literal(2));
    assert!(l.has_computed_len());
    let mut r = field("e", other_type("R"));
    r.attrs.read_with_args = Some(args(&["a"]));
    assert!(r.has_computed_len());
    assert!(field("f", computed_array("R", false)).is_computed_array());
}

#[test]
fn recursive_validation_follows_offsets_and_records() {
    assert!(!scalar("a", "u16").gets_recursive_validation());
    assert!(!field("a", other_type("R")).gets_recursive_validation());
    assert!(field("a", offset_type("Offset16", None)).gets_recursive_validation());
    assert!(field("a", computed_array("R", false)).gets_recursive_validation());
    assert!(field("a", array_of(offset_type("Offset16", None))).gets_recursive_validation());
    assert!(field("a", array_of(other_type("R"))).gets_recursive_validation());
    assert!(!field("a", array_of(scalar_type("u8"))).gets_recursive_validation());
}

#[test]
fn each_rule_has_an_input_that_breaks_it() {
    assert_eq!(
        broken(&counted("a", array_of(scalar_type("u8")), Count::All)),
        vec![FieldRule::NestedArray]
    );
    assert_eq!(
        broken(&counted("a", computed_array("R", false), Count::All)),
        vec![FieldRule::NestedArray]
    );
    assert_eq!(
        broken(&field("a", array_of(scalar_type("u8")))),
        vec![FieldRule::ArrayWithoutLength]
    );
    let mut both = counted("a", scalar_type("u8"), Count::Literal(1));
    both.attrs.len = Some(Expr::Literal(1));
    assert_eq!(broken(&both), vec![FieldRule::ArrayWithTwoLengths]);
    let mut f = field("a", array_of(offset_type("Offset16", None)));
    f.attrs.len = Some(Expr::Literal(1));
    f.attrs.read_with_args = Some(args(&["n"]));
    assert_eq!(broken(&f), vec![FieldRule::LenWithReadArgs]);
    let mut f = field("a", computed_array("R", false));
    f.attrs.read_with_args = Some(args(&["n"]));
    assert_eq!(broken(&f), vec![FieldRule::ComputedArrayWithoutCount]);
    let mut f = field("a", computed_array("R", false));
    f.attrs.count = Some(Count::Literal(1));
    assert_eq!(broken(&f), vec![FieldRule::ComputedArrayWithoutArgs]);
    let mut f = scalar("a", "u16");
    f.attrs.read_with_args = Some(args(&["n"]));
    assert_eq!(broken(&f), vec![FieldRule::ReadArgsOnWrongType]);
    let mut f = counted("a", scalar_type("u8"), Count::Literal(1));
    f.attrs.read_with_args = Some(args(&["n"]));
    assert_eq!(broken(&f), vec![FieldRule::ReadArgsOnWrongType]);
    let mut f = scalar("a", "u16");
    f.attrs.count = Some(Count::Literal(1));
    assert_eq!(broken(&f), vec![FieldRule::CountOnWrongType]);
    let mut f = field("a", offset_type("Offset16", None));
    f.attrs.count = Some(Count::Literal(1));
    assert_eq!(broken(&f), vec![FieldRule::CountOnWrongType]);
    let mut f = counted("a", scalar_type("u8"), Count::All);
    f.attrs.available = Some(1);
    assert_eq!(broken(&f), vec![FieldRule::CountAllWithAvailable]);
    let mut f = counted("a", scalar_type("u8"), Count::Literal(1));
    f.attrs.format = Some(1);
    assert_eq!(broken(&f), vec![FieldRule::FormatOnArray]);
    assert_eq!(
        broken(&field("_offsets", offset_type("Offset16", Some("T")))),
        vec![FieldRule::OffsetWithoutName]
    );
}

#[test]
fn rules_are_classified() {
    assert_eq!(FieldRule::ArrayWithoutLength.kind(), ErrorKind::MissingLength);
    assert_eq!(FieldRule::ComputedArrayWithoutCount.kind(), ErrorKind::MissingLength);
    assert_eq!(FieldRule::NestedArray.kind(), ErrorKind::TypeMisuse);
    assert_eq!(FieldRule::NestedArray.message(), "nested arrays are not allowed");
    assert_eq!(FieldRule::ArrayWithoutLength.message(), "array requires #[count] attribute");
    assert_eq!(FieldRule::ComputedArrayWithoutCount.message(), "missing count attribute");
    assert_eq!(FieldRule::ReadArgsOnWrongType.message(), "attribute not valid on this type");
    assert_eq!(
        FieldRule::LenWithReadArgs.message(),
        "#[len_expr] unnecessary, #[read_with] provides computed length"
    );
}

#[test]
fn findings_point_at_what_is_wrong() {
    let mut f = scalar("a", "u16");
    f.attrs.len = Some(Expr::Literal(1));
    f.attrs.read_with_args = Some(args(&["n"]));
    let errors = f.sanity_check();
    assert_eq!(errors.len(), 2);
    assert_eq!(errors[0].message, "#[len_expr] unnecessary, #[read_with] provides computed length");
    assert_eq!(errors[0].span, Span { start: 40, end: 43 });
    assert_eq!(errors[1].message, "attribute not valid on this type");
    assert_eq!(errors[1].span, Span { start: 50, end: 64 });
    let mut f = field("a", computed_array("R", false));
    f.attrs.read_with_args = Some(args(&["n"]));
    let errors = f.sanity_check();
    assert_eq!(errors.len(), 1);
    assert_eq!(errors[0].message, "missing count attribute");
    assert_eq!(errors[0].span, Span { start: 20, end: 33 });
    f.attrs.count = Some(Count::Literal(1));
    assert!(f.sanity_check().is_empty());
    let errors = field("xs", array_of(scalar_type("u8"))).sanity_check();
    assert_eq!(errors[0].span, Span { start: 3, end: 5 });
    assert_eq!(scalar("a", "u16").rule_span(FieldRule::LenWithReadArgs), Span { start: 40, end: 43 });
    assert_eq!(scalar("a", "u16").rule_span(FieldRule::ComputedArrayWithoutCount), Span { start: 3, end: 4 });
}

#[test]
fn attributes_are_accepted_wherever_no_rule_speaks_of_them() {
    let mut nullable = scalar("a", "u16");
    nullable.attrs.nullable = true;
    let mut both = scalar("b", "u16");
    both.attrs.format = Some(1);
    both.attrs.compile = Some(Expr::Literal(2));
    let mut sized = scalar("c", "u16");
    sized.attrs.len = Some(Expr::Literal(2));
    let mut sized_record = field("d", other_type("R"));
    sized_record.attrs.len = Some(Expr::Literal(2));
    let mut computed_offset = field("e_offset", offset_type("Offset16", Some("T")));
    computed_offset.attrs.format = Some(4);
    let mut computed_record = field("f", other_type("R"));
    computed_record.attrs.compile = Some(Expr::Literal(1));
    let mut counted_record = field("g", other_type("R"));
    counted_record.attrs.count = Some(Count::Literal(2));
    let mut computed_array = counted("h", scalar_type("u8"), Count::Literal(2));
    computed_array.attrs.compile = Some(Expr::Literal(1));
    for f in [
        nullable,
        both,
        sized,
        sized_record,
        computed_offset,
        computed_record,
        counted_record,
        computed_array,
    ] {
        assert_eq!(broken(&f), vec![], "{f:?}");
    }
}

#[test]
fn sane_fields_break_no_rule() {
    let mut versioned_array = counted("a", offset_type("Offset32", Some("T")), Count::Literal(2));
    versioned_array.attrs.available = Some(2);
    versioned_array.attrs.nullable = true;
    versioned_array.attrs.read_with_args = Some(args(&["n"]));
    let mut sized = field("s", computed_array("R", true));
    sized.attrs.count = Some(Count::Field("n".to_string()));
    sized.attrs.read_with_args = Some(args(&["n", "m"]));
    let mut record = field("r", other_type("R"));
    record.attrs.read_with_args = Some(args(&["n"]));
    let mut offset = field("x_offset", offset_type("Offset16", Some("T")));
    offset.attrs.read_with_args = Some(args(&["n"]));
    offset.attrs.nullable = true;
    let mut skipped = field("_offset", offset_type("Offset16", Some("T")));
    skipped.attrs.skip_offset_getter = true;
    for f in [versioned_array, sized, record, offset, skipped, field("_offset", offset_type("Offset16", None))] {
        assert_eq!(broken(&f), vec![], "{f:?}");
    }
}

#[test]
fn input_fields_come_from_count_len_and_arguments_in_this_order() {
    let mut f = counted(
        "a",
        offset_type("Offset16", None),
        Count::Expr(call(Op::Add, field_of("n"), call(Op::Mul, field_of("m"), Expr::Literal(2)))),
    );
    f.attrs.len = Some(call(Op::Sub, field_of("k"), field_of("n")));
    f.attrs.read_with_args = Some(args(&["x", "y"]));
    assert_eq!(f.input_fields(), vec!["n", "m", "k", "n", "x", "y"]);
    assert_eq!(f.version_inputs(), Vec::<String>::new());
    assert_eq!(f.parse_inputs(), vec!["n", "m", "k", "n", "x", "y"]);
    f.attrs.available = Some(1);
    assert_eq!(f.input_fields(), vec!["n", "m", "k", "n", "x", "y"]);
    assert_eq!(f.version_inputs(), vec!["version"]);
    assert_eq!(f.parse_inputs(), vec!["n", "m", "k", "n", "x", "y", "version"]);
    let mut v = scalar("a", "u8");
    v.attrs.available = Some(2);
    assert_eq!(v.input_fields(), Vec::<String>::new());
    assert_eq!(scalar("a", "u8").input_fields(), Vec::<String>::new());
    assert_eq!(counted("a", scalar_type("u8"), Count::All).input_fields(), Vec::<String>::new());
    assert_eq!(
        counted("a", scalar_type("u8"), Count::Field("n".to_string())).input_fields(),
        vec!["n"]
    );
    f.attrs.compile = Some(field_of("z"));
    assert_eq!(f.compile_inputs(), vec!["z"]);
    assert_eq!(scalar("a", "u8").compile_inputs(), Vec::<String>::new());
}

#[test]
fn referenced_fields_of_expressions_go_left_to_right() {
    let e = call(Op::Sub, call(Op::Add, field_of("a"), Expr::Literal(1)), field_of("b"));
    assert_eq!(e.referenced_fields(), vec!["a", "b"]);
    assert!(e.names_a_field());
    assert!(!call(Op::Mul, Expr::Literal(1), Expr::Literal(2)).names_a_field());
    assert_eq!(Expr::Literal(3).referenced_fields(), Vec::<String>::new());
}

#[test]
fn expressions_are_written_for_each_context() {
    let e = call(Op::Sub, call(Op::Mul, field_of("a"), Expr::Literal(10)), field_of("b"));
    assert_eq!(e.validation_text(), "sub(mul((a as usize), 10), (b as usize))");
    assert_eq!(
        e.compile_text(),
        "checked_sub(checked_mul(Some(self.a as usize), Some(10)), Some(self.b as usize))"
    );
    let c = call(Op::Sub, call(Op::Add, Expr::Literal(4294967295), Expr::Literal(0)), Expr::Literal(7));
    assert_eq!(c.const_text(), "((4294967295 + 0) - 7)");
    assert_eq!(Op::Add.name(), "add");
    assert_eq!(Op::Sub.name(), "sub");
    assert_eq!(Op::Mul.name(), "mul");
    assert_eq!((Op::Add.symbol(), Op::Sub.symbol(), Op::Mul.symbol()), ("+", "-", "*"));
}

#[test]
fn counts_are_written_as_the_validator_computes_them() {
    assert_eq!(Count::Field("n".to_string()).count_expr("S"), "(n as usize)");
    assert_eq!(Count::Literal(12).count_expr("S"), "12");
    assert_eq!(Count::All.count_expr("u16::RAW_BYTE_LEN"), "cursor.remaining_bytes() / u16::RAW_BYTE_LEN");
    assert_eq!(
        Count::Expr(call(Op::Add, field_of("n"), Expr::Literal(1))).count_expr("S"),
        "add((n as usize), 1)"
    );
}

#[test]
fn arguments_are_written_alone_or_as_a_tuple() {
    assert_eq!(args(&["a"]).to_tokens_for_table_getter(), "self.a()");
    assert_eq!(args(&["a", "b", "c"]).to_tokens_for_table_getter(), "(self.a(), self.b(), self.c())");
    assert_eq!(args(&[]).to_tokens_for_table_getter(), "()");
    assert_eq!(args(&["a"]).to_tokens_for_validation(), "a");
    assert_eq!(args(&["a", "b"]).to_tokens_for_validation(), "(a, b)");
    assert_eq!(args(&[]).to_tokens_for_validation(), "()");
}

#[test]
fn types_in_records_are_wrapped_big_endian() {
    assert_eq!(scalar("a", "u16").type_for_record(), "BigEndian<u16>");
    assert_eq!(field("a", offset_type("Offset16", Some("T"))).type_for_record(), "BigEndian<Offset16>");
    assert_eq!(field("a", other_type("R")).type_for_record(), "R");
    assert_eq!(field("a", computed_array("R", true)).type_for_record(), "ComputedArray<'a, R<'a>>");
    assert_eq!(field("a", computed_array("R", false)).type_for_record(), "ComputedArray<'a, R>");
    assert_eq!(field("a", array_of(scalar_type("u8"))).type_for_record(), "&'a [BigEndian<u8>]");
    assert_eq!(
        field("a", array_of(offset_type("Offset32", None))).type_for_record(),
        "&'a [BigEndian<Offset32>]"
    );
    assert_eq!(field("a", array_of(other_type("R"))).type_for_record(), "&[R]");
}

#[test]
fn getters_return_the_raw_type() {
    assert_eq!(scalar("a", "u16").raw_getter_return_type(), "u16");
    assert_eq!(field("a", offset_type("Offset16", Some("T"))).raw_getter_return_type(), "Offset16");
    assert_eq!(field("a", other_type("R")).raw_getter_return_type(), "R");
    assert_eq!(field("a", array_of(scalar_type("u8"))).raw_getter_return_type(), "&[BigEndian<u8>]");
    assert_eq!(field("a", array_of(other_type("R"))).raw_getter_return_type(), "&[R]");
    assert_eq!(
        field("a", computed_array("R", true)).raw_getter_return_type(),
        "ComputedArray<'a, R<'a>>"
    );
}

#[test]
fn names_in_the_shape_come_from_the_field() {
    let f = scalar("glyph_array", "u16");
    assert_eq!(f.shape_byte_range_fn_name(), "glyph_array_byte_range");
    assert_eq!(f.shape_byte_len_field_name(), "glyph_array_byte_len");
    assert_eq!(f.shape_byte_start_field_name(), "glyph_array_byte_start");
    assert_eq!(f.shape_len_expr(), "u16::RAW_BYTE_LEN");
    assert_eq!(field("o", offset_type("Offset24", None)).shape_len_expr(), "Offset24::RAW_BYTE_LEN");
    assert_eq!(field("o", other_type("R")).shape_len_expr(), "self.o_byte_len");
    assert_eq!(field("o", array_of(scalar_type("u8"))).shape_len_expr(), "self.o_byte_len");
    assert_eq!(field("o", computed_array("R", false)).shape_len_expr(), "self.o_byte_len");
    assert_eq!(f.getter_range_stmt(), "self.shape.glyph_array_byte_range()");
    let mut v = scalar("v", "u16");
    v.attrs.available = Some(1);
    assert_eq!(v.getter_range_stmt(), "self.shape.v_byte_range()?");
}

#[test]
fn offset_getter_name_drops_every_trailing_offset() {
    let name = |n: &str| field(n, offset_type("Offset16", Some("T"))).offset_getter_name();
    assert_eq!(name("glyph_offset"), Some("glyph".to_string()));
    assert_eq!(name("glyph_offsets"), Some("glyph".to_string()));
    assert_eq!(name("glyph_offset_offset"), Some("glyph".to_string()));
    assert_eq!(name("glyph_offset_offsets"), Some("glyph".to_string()));
    assert_eq!(name("glyph_offsets_offset"), Some("glyph_offsets".to_string()));
    assert_eq!(name("glyph"), Some("glyph".to_string()));
    assert_eq!(name("_offset"), Some("".to_string()));
    assert_eq!(scalar("glyph_offset", "u16").offset_getter_name(), None);
    assert_eq!(
        field("glyph_offsets", array_of(offset_type("Offset16", Some("T")))).offset_getter_name(),
        None
    );
}

#[test]
fn table_getter_reads_from_the_byte_range() {
    let mut f = scalar("num_glyphs", "u32");
    f.attrs.docs = vec![" Array length.".to_string(), " In glyphs.".to_string()];
    assert_eq!(
        f.table_getter().unwrap(),
        "/// Array length.\n/// In glyphs.\npub fn num_glyphs(&self) -> u32 {\n\
let range = self.shape.num_glyphs_byte_range();\n\
self.data.read_at(range.start).unwrap()\n}\n"
    );
    f.attrs.available = Some(2);
    f.attrs.docs.clear();
    assert_eq!(
        f.table_getter().unwrap(),
        "pub fn num_glyphs(&self) -> Option<u32> {\n\
let range = self.shape.num_glyphs_byte_range()?;\n\
Some(self.data.read_at(range.start).unwrap())\n}\n"
    );
    f.attrs.skip_getter = true;
    assert_eq!(f.table_getter(), None);
    assert_eq!(f.record_getter(), None);
    let a = counted("xs", scalar_type("u8"), Count::Literal(1));
    assert_eq!(
        a.table_getter().unwrap(),
        "pub fn xs(&self) -> &[BigEndian<u8>] {\n\
let range = self.shape.xs_byte_range();\n\
self.data.read_array(range).unwrap()\n}\n"
    );
}

#[test]
fn typed_offset_getter_resolves_the_offset() {
    let mut f = field("glyph_offset", offset_type("Offset16", Some("Glyph")));
    assert_eq!(
        f.typed_offset_field_getter().unwrap(),
        "/// Attempt to resolve [`glyph_offset`][Self::glyph_offset].\n\
pub fn glyph(&self) -> Result<Glyph<'a>, ReadError> {\n\
let range = self.shape.glyph_offset_byte_range();\n\
let offset: Offset16 = self.data.read_at(range.start).unwrap();\n\
let result = offset.resolve(&self.data);\n\
result\n}\n"
    );
    assert!(f.table_getter().unwrap().ends_with(&f.typed_offset_field_getter().unwrap()));
    f.attrs.skip_offset_getter = true;
    assert_eq!(f.typed_offset_field_getter(), None);
    assert_eq!(field("x", offset_type("Offset16", None)).typed_offset_field_getter(), None);
    assert_eq!(scalar("x", "u16").typed_offset_field_getter(), None);
}

#[test]
fn record_getter_returns_scalars_by_value() {
    assert_eq!(
        scalar("a", "i16").record_getter().unwrap(),
        "pub fn a(&self) -> i16 {\nself.a.get()\n}\n"
    );
    assert_eq!(
        field("a", offset_type("Offset16", Some("T"))).record_getter().unwrap(),
        "pub fn a(&self) -> Offset16 {\nself.a.get()\n}\n"
    );
    assert_eq!(
        field("a", other_type("R")).record_getter().unwrap(),
        "pub fn a(&self) -> &R {\n&self.a\n}\n"
    );
    assert_eq!(
        field("a", computed_array("R", false)).record_getter().unwrap(),
        "pub fn a(&self) -> &ComputedArray<'a, R> {\n&self.a\n}\n"
    );
    assert_eq!(
        field("a", array_of(scalar_type("u8"))).record_getter().unwrap(),
        "pub fn a(&self) -> &[BigEndian<u8>] {\nself.a\n}\n"
    );
}

#[test]
fn computed_len_is_there_for_every_field_that_has_one() {
    assert_eq!(scalar("a", "u16").computed_len_expr(), None);
    assert_eq!(field("a", offset_type("Offset16", None)).computed_len_expr(), None);
    let mut o = field("a", offset_type("Offset16", None));
    o.attrs.read_with_args = Some(args(&["n"]));
    assert_eq!(o.validated_len_expr(), None);
    o.attrs.len = Some(field_of("n"));
    assert_eq!(o.computed_len_expr().unwrap(), "(n as usize)");
    assert_eq!(o.validated_len_expr().unwrap(), "(n as usize)");
    let mut sized = scalar("a", "u16");
    sized.attrs.len = Some(Expr::Literal(2));
    assert_eq!(sized.computed_len_expr().unwrap(), "2");
    assert_eq!(field("a", other_type("R")).computed_len_expr(), None);
    let mut ignored = field("a", other_type("R"));
    ignored.attrs.count = Some(Count::Literal(3));
    ignored.attrs.len = Some(Expr::Literal(9));
    assert_eq!(ignored.computed_len_expr().unwrap(), "<R as ComputeSize>::compute_size(&)");
    let mut r = field("a", other_type("R"));
    r.attrs.read_with_args = Some(args(&["n", "m"]));
    assert_eq!(r.computed_len_expr().unwrap(), "<R as ComputeSize>::compute_size(&(n, m))");
    let mut l = field("a", array_of(scalar_type("u8")));
    l.attrs.len = Some(call(Op::Mul, field_of("n"), Expr::Literal(4)));
    assert_eq!(l.computed_len_expr().unwrap(), "mul((n as usize), 4)");
    let c = counted("a", offset_type("Offset32", None), Count::Field("n".to_string()));
    assert_eq!(c.computed_len_expr().unwrap(), "(n as usize) * Offset32::RAW_BYTE_LEN");
    let mut s = field("a", computed_array("R", true));
    s.attrs.count = Some(Count::Literal(3));
    s.attrs.read_with_args = Some(args(&["n"]));
    assert_eq!(s.computed_len_expr().unwrap(), "3 * <R as ComputeSize>::compute_size(&n)");
    assert_eq!(s.record_len_expr(), "3 * <R as ComputeSize>::compute_size(&n)");
    assert_eq!(scalar("a", "Fixed").record_len_expr(), "Fixed::RAW_BYTE_LEN");
    assert_eq!(field("a", other_type("R")).record_len_expr(), "R::RAW_BYTE_LEN");
}

#[test]
fn record_init_reads_each_kind_of_field() {
    assert_eq!(scalar("a", "u16").record_init_stmt(), "a: cursor.read()?");
    let mut r = field("a", other_type("R"));
    r.attrs.read_with_args = Some(args(&["n"]));
    assert_eq!(r.record_init_stmt(), "a: cursor.read_with_args(&n)?");
    let c = counted("a", scalar_type("u16"), Count::Field("n".to_string()));
    assert_eq!(c.record_init_stmt(), "a: cursor.read_array((n as usize) * u16::RAW_BYTE_LEN)?");
    let mut s = field("a", computed_array("R", false));
    s.attrs.count = Some(Count::Field("n".to_string()));
    s.attrs.read_with_args = Some(args(&["n", "m"]));
    assert_eq!(s.record_init_stmt(), "a: cursor.read_computed_array((n as usize), &(n, m))?");
}

#[test]
fn validation_steps_follow_the_kind_of_field() {
    let mut read = scalar("n", "u16");
    read.read_at_parse_time = true;
    assert_eq!(read.field_parse_validation_stmts(), "let n: u16 = cursor.read()?;\n");
    let mut versioned = field("o", offset_type("Offset16", None));
    versioned.attrs.available = Some(3);
    versioned.read_at_parse_time = true;
    assert_eq!(
        versioned.field_parse_validation_stmts(),
        "let o_byte_start = version.compatible(3).then(|| cursor.position()).transpose()?;\n\
version.compatible(3).then(|| cursor.advance::<Offset16>());\n"
    );
    assert_eq!(field("r", other_type("R")).field_parse_validation_stmts(), "cursor.advance::<R>();\n");
    let c = counted("xs", scalar_type("u16"), Count::Field("n".to_string()));
    assert_eq!(
        c.field_parse_validation_stmts(),
        "let xs_byte_len = (n as usize) * u16::RAW_BYTE_LEN;\ncursor.advance_by(xs_byte_len);\n"
    );
    let mut o = field("o_offset", offset_type("Offset16", Some("T")));
    o.attrs.read_with_args = Some(args(&["n"]));
    assert_eq!(o.field_parse_validation_stmts(), "cursor.advance::<Offset16>();\n");
}

#[test]
fn owned_types_follow_the_field_type() {
    assert_eq!(scalar("a", "u16").owned_type(), "u16");
    assert_eq!(field("a", other_type("R")).owned_type(), "R");
    let mut o = field("a", offset_type("Offset16", Some("T")));
    assert_eq!(o.owned_type(), "OffsetMarker<Offset16, T>");
    o.attrs.nullable = true;
    assert_eq!(o.owned_type(), "NullableOffsetMarker<Offset16, T>");
    o.attrs.compile_type = Some("Mine".to_string());
    assert_eq!(o.owned_type(), "Mine");
    assert_eq!(
        field("a", offset_type("Offset32", None)).owned_type(),
        "OffsetMarker<Offset32, Box<dyn FontWrite>>"
    );
    let mut a = field("a", array_of(offset_type("Offset16", Some("T"))));
    a.attrs.nullable = true;
    assert_eq!(a.owned_type(), "Vec<NullableOffsetMarker<Offset16, T>>");
    assert_eq!(field("a", computed_array("R", true)).owned_type(), "Vec<R>");
    assert_eq!(array_of(array_of(scalar_type("u8"))).compile_type(false), "Vec<Vec<u8>>");
    assert_eq!(scalar_type("u8").cooked_type_tokens(), "u8");
    assert_eq!(offset_type("Offset16", None).cooked_type_tokens(), "Offset16");
    assert_eq!(other_type("R").cooked_type_tokens(), "R");
}

#[test]
fn owned_declarations_leave_computed_fields_out() {
    let mut f = scalar("a", "u16");
    f.attrs.docs = vec![" A".to_string()];
    assert_eq!(f.compile_field_decl().unwrap(), "/// A\npub a: u16");
    assert_eq!(f.compile_write_stmt(), "self.a.write_into(writer)");
    f.attrs.format = Some(7);
    assert_eq!(f.compile_field_decl(), None);
    assert_eq!(f.compile_write_stmt(), "(7 as u16).write_into(writer)");
    assert_eq!(f.compile_presence_check(), "");
    let mut c = scalar("a", "u32");
    c.attrs.compile = Some(call(Op::Add, field_of("n"), Expr::Literal(1)));
    assert_eq!(c.compile_field_decl(), None);
    assert_eq!(
        c.compile_write_stmt(),
        "match checked_add(Some(self.n as usize), Some(1)) {\n\
Some(value) => (value as u32).write_into(writer),\n\
None => writer.fail(\"computed value is absent\"),\n}"
    );
    assert!(!c.compile_write_stmt().contains("unwrap"));
    assert_eq!(
        c.compile_presence_check(),
        "if checked_add(Some(self.n as usize), Some(1)).is_none() {\nctx.report(\"computed value is absent\");\n}\n"
    );
    c.attrs.compile = Some(Expr::Literal(5));
    assert_eq!(c.compile_write_stmt(), "(5 as u32).write_into(writer)");
    assert_eq!(c.compile_presence_check(), "");
    c.attrs.format = Some(9);
    assert_eq!(c.compile_write_stmt(), "(9 as u32).write_into(writer)");
    let mut a = counted("xs", scalar_type("u8"), Count::Literal(2));
    a.attrs.compile = Some(Expr::Literal(5));
    assert_eq!(a.compile_write_stmt(), "5.write_into(writer)");
    a.attrs.compile = Some(field_of("n"));
    assert_eq!(
        a.compile_write_stmt(),
        "match Some(self.n as usize) {\nSome(value) => value.write_into(writer),\n\
None => writer.fail(\"computed value is absent\"),\n}"
    );
}

fn sample_fields() -> Fields {
    let mut format = scalar("format", "u16");
    format.attrs.format = Some(1);
    let mut versioned = scalar("extra", "u16");
    versioned.attrs.available = Some(1);
    let mut fields = Fields::new(vec![
        format,
        scalar("version", "u16"),
        scalar("n", "u8"),
        counted("offsets", offset_type("Offset16", Some("T")), Count::Field("n".to_string())),
        counted("data", scalar_type("u8"), Count::Field("m".to_string())),
        counted("more", scalar_type("u8"), Count::Expr(call(Op::Add, Expr::Literal(1), field_of("k")))),
        counted("offsets2", other_type("R"), Count::Literal(2)),
        versioned,
    ])
    .unwrap();
    fields.read_args = Some(TableReadArgs {
        args: vec![
            TableReadArg { ident: "m".to_string(), typ: "u32".to_string() },
            TableReadArg { ident: "n".to_string(), typ: "u64".to_string() },
        ],
    });
    fields
}

#[test]
fn new_fields_know_which_of_them_are_read_at_parse_time() {
    let fields = sample_fields();
    let flags: Vec<bool> = fields.iter().iter().map(|f| f.read_at_parse_time).collect();
    assert_eq!(flags, vec![false, false, true, false, false, false, false, true]);
    assert_eq!(fields.iter().len(), 8);
    let again = Fields::new(fields.fields).unwrap();
    let flags: Vec<bool> = again.iter().iter().map(|f| f.read_at_parse_time).collect();
    assert_eq!(flags, vec![false, false, true, false, false, false, false, true]);
    assert_eq!(again.read_args, None);
}

#[test]
fn scalar_types_are_looked_up_among_fields_and_arguments() {
    let fields = sample_fields();
    assert_eq!(fields.get_scalar_field_type(&"n".to_string()), "u8");
    assert_eq!(fields.get_scalar_field_type(&"m".to_string()), "u32");
    assert_eq!(fields.find_scalar_field_type(&"n".to_string()), Some(&"u8".to_string()));
    assert_eq!(fields.find_scalar_field_type(&"m".to_string()), Some(&"u32".to_string()));
    assert_eq!(fields.find_scalar_field_type(&"offsets".to_string()), None);
    assert_eq!(fields.find_scalar_field_type(&"nowhere".to_string()), None);
    assert_eq!(fields.find_arg(&"n".to_string()).unwrap().typ, "u64");
    assert!(fields.find_arg(&"version".to_string()).is_none());
}

#[test]
fn owned_table_declares_writes_and_validates_its_fields() {
    let fields = sample_fields();
    assert_eq!(
        fields.iter_compile_decls(),
        vec![
            "pub version: u16",
            "pub n: u8",
            "pub offsets: Vec<OffsetMarker<Offset16, T>>",
            "pub data: Vec<u8>",
            "pub more: Vec<u8>",
            "pub offsets2: Vec<R>",
            "pub extra: u16",
        ]
    );
    assert_eq!(
        fields.compile_field_names(),
        vec!["version", "n", "offsets", "data", "more", "offsets2", "extra"]
    );
    assert_eq!(
        fields.iter_compile_write_stmts(),
        vec![
            "(1 as u16).write_into(writer)",
            "self.version.write_into(writer)",
            "self.n.write_into(writer)",
            "self.offsets.write_into(writer)",
            "self.data.write_into(writer)",
            "self.more.write_into(writer)",
            "self.offsets2.write_into(writer)",
            "self.extra.write_into(writer)",
        ]
    );
    assert_eq!(
        fields.compilation_validation_stmts(),
        vec![
            "ctx.in_field(\"offsets\", |ctx| {\nif self.offsets.len() > (u8::MAX as usize) {\nctx.report(\"array excedes max length\");\n}\nself.offsets.validate_impl(ctx);\n});\n",
            "ctx.in_field(\"data\", |ctx| {\nif self.data.len() > (u32::MAX as usize) {\nctx.report(\"array excedes max length\");\n}\n});\n",
            "ctx.in_field(\"offsets2\", |ctx| {\nself.offsets2.validate_impl(ctx);\n});\n",
        ]
    );
}

#[test]
fn references_are_checked_against_what_stands_before() {
    let fields = sample_fields();
    let found: Vec<(ErrorKind, String, String)> = fields
        .check_references(&Vec::new())
        .into_iter()
        .map(|e| (e.kind, e.name, e.message))
        .collect();
    assert_eq!(
        found,
        vec![(
            ErrorKind::UnresolvedReference,
            "more".to_string(),
            "no preceding field or argument named `k`".to_string()
        )]
    );
    assert!(fields.sanity_check().is_empty());
    let mut with_more = fields.fields;
    with_more.push(field("bare", array_of(other_type("R"))));
    with_more.push(field("nested", array_of(array_of(other_type("R")))));
    let errors = Fields::new(with_more).unwrap().sanity_check();
    let found: Vec<(ErrorKind, &str)> = errors.iter().map(|e| (e.kind, e.name.as_str())).collect();
    assert_eq!(
        found,
        vec![
            (ErrorKind::MissingLength, "bare"),
            (ErrorKind::TypeMisuse, "nested"),
            (ErrorKind::MissingLength, "nested"),
        ]
    );
}

#[test]
fn sources_have_to_be_plain_scalars() {
    let mut versioned = scalar("n", "u16");
    versioned.attrs.available = Some(1);
    let fields = Fields::new(vec![
        scalar("version", "u16"),
        versioned,
        field("r", other_type("R")),
        counted("a", scalar_type("u8"), Count::Field("n".to_string())),
        counted("b", scalar_type("u8"), Count::Field("r".to_string())),
        counted("c", scalar_type("u8"), Count::Field("c".to_string())),
    ])
    .unwrap();
    let found: Vec<(ErrorKind, String)> =
        fields.check_references(&Vec::new()).into_iter().map(|e| (e.kind, e.name)).collect();
    assert_eq!(
        found,
        vec![
            (ErrorKind::TypeMisuse, "a".to_string()),
            (ErrorKind::TypeMisuse, "b".to_string()),
            (ErrorKind::UnresolvedReference, "c".to_string()),
        ]
    );
}

#[test]
fn compile_sources_have_to_be_owned_scalars() {
    let mut format = scalar("format", "u16");
    format.attrs.format = Some(1);
    let mut computed = scalar("c", "u16");
    computed.attrs.compile = Some(call(Op::Add, field_of("format"), field_of("n")));
    let mut later = scalar("d", "u16");
    later.attrs.compile = Some(field_of("z"));
    let fields = Fields::new(vec![format, scalar("n", "u16"), computed, later, scalar("z", "u8")]).unwrap();
    let found: Vec<(ErrorKind, String, String)> =
        fields.check_references(&Vec::new()).into_iter().map(|e| (e.kind, e.name, e.message)).collect();
    assert_eq!(
        found,
        vec![
            (
                ErrorKind::TypeMisuse,
                "c".to_string(),
                "`format` cannot be used here: it is not a plain scalar".to_string()
            ),
            (
                ErrorKind::UnresolvedReference,
                "d".to_string(),
                "no preceding field or argument named `z`".to_string()
            ),
        ]
    );
    let flags: Vec<bool> = fields.iter().iter().map(|f| f.read_at_parse_time).collect();
    assert_eq!(flags, vec![false; 5]);
}

#[test]
fn byte_ranges_take_a_recorded_length_from_the_shape() {
    let mut sized = scalar("a", "u16");
    sized.attrs.len = Some(Expr::Literal(2));
    assert_eq!(sized.range_len_expr(), "self.a_byte_len");
    assert_eq!(sized.shape_fields(), "a_byte_len: usize,\n");
    assert_eq!(
        sized.field_parse_validation_stmts(),
        "let a_byte_len = 2;\ncursor.advance_by(a_byte_len);\n"
    );
    assert_eq!(scalar("a", "u16").range_len_expr(), "u16::RAW_BYTE_LEN");
    assert_eq!(field("r", other_type("R")).range_len_expr(), "R::RAW_BYTE_LEN");
    assert_eq!(
        counted("xs", scalar_type("u8"), Count::Literal(2)).range_len_expr(),
        "self.xs_byte_len"
    );
    sized.attrs.available = Some(1);
    assert_eq!(
        sized.byte_range_fn("0"),
        "fn a_byte_range(&self) -> Option<Range<usize>> {\n\
let start = self.a_byte_start?;\n\
Some(start..start + self.a_byte_len?)\n}\n"
    );
}

#[test]
fn the_field_that_decides_on_later_fields_is_read() {
    let fields = sample_fields();
    assert!(fields.versioned());
    assert!(fields.is_version_source(1));
    assert!(!fields.is_version_source(0));
    assert!(!fields.is_version_source(2));
    assert!(!fields.is_version_source(7));
    assert_eq!(fields.validation_step(1), "let version: u16 = cursor.read()?;\n");
    assert_eq!(fields.validation_step(0), "cursor.advance::<u16>();\n");
    assert_eq!(fields.validation_step(2), "let n: u8 = cursor.read()?;\n");
    assert_eq!(fields.fields[1].field_parse_validation_stmts(), "cursor.advance::<u16>();\n");
    let plain = Fields::new(vec![scalar("version", "u16"), scalar("n", "u8")]).unwrap();
    assert!(!plain.versioned());
    assert!(!plain.is_version_source(0));
    assert_eq!(plain.validation_step(0), "cursor.advance::<u16>();\n");
    let mut later = scalar("x", "u8");
    later.attrs.available = Some(1);
    let two =
        Fields::new(vec![scalar("version", "u16"), scalar("version", "u32"), later]).unwrap();
    assert!(two.is_version_source(0));
    assert!(!two.is_version_source(1));
    assert_eq!(two.validation_step(1), "cursor.advance::<u32>();\n");
}

#[test]
fn enumerations_and_flag_sets_are_sources_like_scalars() {
    let fields = Fields::new(vec![
        field("kind", other_type("Kind")),
        field("pair", other_type("Pair")),
        counted("a", scalar_type("u8"), Count::Field("kind".to_string())),
        counted("b", scalar_type("u8"), Count::Field("pair".to_string())),
    ])
    .unwrap();
    let names = |scalars: &[&str]| -> Vec<String> {
        let scalars: Vec<String> = scalars.iter().map(|s| s.to_string()).collect();
        fields.check_references(&scalars).into_iter().map(|e| e.name).collect()
    };
    assert_eq!(names(&[]), vec!["a", "b"]);
    assert_eq!(names(&["Kind"]), vec!["b"]);
    assert_eq!(names(&["Flags", "Pair", "Kind"]), Vec::<String>::new());
    let kind = vec!["Kind".to_string()];
    assert!(other_type("Kind").counts_as_scalar(&kind));
    assert!(!other_type("Pair").counts_as_scalar(&kind));
    assert!(scalar_type("u8").counts_as_scalar(&kind));
    assert!(!offset_type("Offset16", None).counts_as_scalar(&kind));
    assert!(!array_of(scalar_type("u8")).counts_as_scalar(&kind));
}
