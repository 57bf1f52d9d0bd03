//! The schema: items, fields, attributes, and their mathematical views.

use vstd::prelude::*;

verus! {

/// A range of characters in the schema text.
#[derive(Debug, Clone, Copy, PartialEq, Eq, Structural)]
pub struct Span {
    pub start: usize,
    pub end: usize,
}

/// The operators allowed in schema expressions.
#[derive(Debug, Clone, Copy, PartialEq, Eq, Structural)]
pub enum Op {
    Add,
    Sub,
    Mul,
}

/// An expression over field references and integer literals.
#[derive(Debug, PartialEq, Eq)]
pub enum Expr {
    /// `$name`
    Field(String),
    /// an integer literal
    Literal(u32),
    /// `op(lhs, rhs)`
    Call { op: Op, lhs: Box<Expr>, rhs: Box<Expr> },
}

pub enum ExprView {
    Field(Seq<char>),
    Literal(u32),
    Call { op: Op, lhs: Box<ExprView>, rhs: Box<ExprView> },
}

pub open spec fn expr_view(e: Expr) -> ExprView
    decreases e,
{
    match e {
        Expr::Field(name) => ExprView::Field(name@),
        Expr::Literal(value) => ExprView::Literal(value),
        Expr::Call { op, lhs, rhs } => ExprView::Call {
            op,
            lhs: Box::new(expr_view(*lhs)),
            rhs: Box::new(expr_view(*rhs)),
        },
    }
}

impl View for Expr {
    type V = ExprView;

    open spec fn view(&self) -> ExprView {
        expr_view(*self)
    }
}

impl DeepView for Expr {
    type V = ExprView;

    open spec fn deep_view(&self) -> ExprView {
        self@
    }
}

/// Where the element count of an array comes from.
#[derive(Debug, PartialEq, Eq)]
pub enum Count {
    /// `$name`: the value of a sibling field
    Field(String),
    /// a fixed number of elements
    Literal(u32),
    /// `..`: as many elements as the remaining bytes hold
    All,
    /// an arithmetic expression
    Expr(Expr),
}

pub enum CountView {
    Field(Seq<char>),
    Literal(u32),
    All,
    Expr(ExprView),
}

impl View for Count {
    type V = CountView;

    open spec fn view(&self) -> CountView {
        match self {
            Count::Field(name) => CountView::Field(name@),
            Count::Literal(value) => CountView::Literal(*value),
            Count::All => CountView::All,
            Count::Expr(e) => CountView::Expr(e@),
        }
    }
}

impl DeepView for Count {
    type V = CountView;

    open spec fn deep_view(&self) -> CountView {
        self@
    }
}

/// The arguments handed to the reader of a field.
#[derive(Debug, PartialEq, Eq)]
pub struct FieldReadArgs {
    pub inputs: Vec<String>,
}

pub struct FieldReadArgsView {
    pub inputs: Seq<Seq<char>>,
}

impl View for FieldReadArgs {
    type V = FieldReadArgsView;

    open spec fn view(&self) -> FieldReadArgsView {
        FieldReadArgsView { inputs: self.inputs.deep_view() }
    }
}

impl DeepView for FieldReadArgs {
    type V = FieldReadArgsView;

    open spec fn deep_view(&self) -> FieldReadArgsView {
        self@
    }
}

/// An array whose elements are sized by runtime arguments.
#[derive(Debug, PartialEq, Eq)]
pub struct CustomArray {
    pub inner: String,
    /// whether the element type borrows from the font data
    pub lifetime: bool,
    /// where the type stands in the schema text
    pub span: Span,
}

pub struct CustomArrayView {
    pub inner: Seq<char>,
    pub lifetime: bool,
    pub span: Span,
}

impl View for CustomArray {
    type V = CustomArrayView;

    open spec fn view(&self) -> CustomArrayView {
        CustomArrayView { inner: self.inner@, lifetime: self.lifetime, span: self.span }
    }
}

/// The type of a field.
#[derive(Debug, PartialEq, Eq)]
pub enum FieldType {
    Scalar { typ: String },
    Offset { typ: String, target: Option<String> },
    Other { typ: String },
    Array { inner_typ: Box<FieldType> },
    ComputedArray(CustomArray),
}

pub enum FieldTypeView {
    Scalar { typ: Seq<char> },
    Offset { typ: Seq<char>, target: Option<Seq<char>> },
    Other { typ: Seq<char> },
    Array { inner_typ: Box<FieldTypeView> },
    ComputedArray(CustomArrayView),
}

pub open spec fn field_type_view(t: FieldType) -> FieldTypeView
    decreases t,
{
    match t {
        FieldType::Scalar { typ } => FieldTypeView::Scalar { typ: typ@ },
        FieldType::Offset { typ, target } => FieldTypeView::Offset {
            typ: typ@,
            target: target.deep_view(),
        },
        FieldType::Other { typ } => FieldTypeView::Other { typ: typ@ },
        FieldType::Array { inner_typ } => FieldTypeView::Array {
            inner_typ: Box::new(field_type_view(*inner_typ)),
        },
        FieldType::ComputedArray(array) => FieldTypeView::ComputedArray(array@),
    }
}

impl View for FieldType {
    type V = FieldTypeView;

    open spec fn view(&self) -> FieldTypeView {
        field_type_view(*self)
    }
}

/// The attributes of a field.
#[derive(Debug, PartialEq, Eq)]
pub struct FieldAttrs {
    pub docs: Vec<String>,
    pub nullable: bool,
    pub available: Option<u32>,
    pub skip_getter: bool,
    pub skip_offset_getter: bool,
    pub count: Option<Count>,
    pub len: Option<Expr>,
    pub read_with_args: Option<FieldReadArgs>,
    pub format: Option<u32>,
    pub compile: Option<Expr>,
    pub compile_type: Option<String>,
    /// where `len` stands in the schema text, if the field carries it
    pub len_span: Span,
    /// where `read_with_args` stands in the schema text, if the field
    /// carries it
    pub read_with_args_span: Span,
}

pub struct FieldAttrsView {
    pub docs: Seq<Seq<char>>,
    pub nullable: bool,
    pub available: Option<u32>,
    pub skip_getter: bool,
    pub skip_offset_getter: bool,
    pub count: Option<CountView>,
    pub len: Option<ExprView>,
    pub read_with_args: Option<FieldReadArgsView>,
    pub format: Option<u32>,
    pub compile: Option<ExprView>,
    pub compile_type: Option<Seq<char>>,
    pub len_span: Span,
    pub read_with_args_span: Span,
}

impl View for FieldAttrs {
    type V = FieldAttrsView;

    open spec fn view(&self) -> FieldAttrsView {
        FieldAttrsView {
            docs: self.docs.deep_view(),
            nullable: self.nullable,
            available: self.available,
            skip_getter: self.skip_getter,
            skip_offset_getter: self.skip_offset_getter,
            count: self.count.deep_view(),
            len: self.len.deep_view(),
            read_with_args: self.read_with_args.deep_view(),
            format: self.format,
            compile: self.compile.deep_view(),
            compile_type: self.compile_type.deep_view(),
            len_span: self.len_span,
            read_with_args_span: self.read_with_args_span,
        }
    }
}

/// One field of a record or table.
#[derive(Debug, PartialEq, Eq)]
pub struct Field {
    pub name: String,
    pub typ: FieldType,
    pub attrs: FieldAttrs,
    /// set by [`Fields::new`]: whether the validator has to look at this
    /// field while it walks the table
    pub read_at_parse_time: bool,
    /// where the field's name stands in the schema text
    pub span: Span,
}

pub struct FieldView {
    pub name: Seq<char>,
    pub typ: FieldTypeView,
    pub attrs: FieldAttrsView,
    pub read_at_parse_time: bool,
    pub span: Span,
}

impl View for Field {
    type V = FieldView;

    open spec fn view(&self) -> FieldView {
        FieldView {
            name: self.name@,
            typ: self.typ@,
            attrs: self.attrs@,
            read_at_parse_time: self.read_at_parse_time,
            span: self.span,
        }
    }
}

impl DeepView for Field {
    type V = FieldView;

    open spec fn deep_view(&self) -> FieldView {
        self@
    }
}

/// An argument that the reader of an item takes from its caller.
#[derive(Debug, PartialEq, Eq)]
pub struct TableReadArg {
    pub ident: String,
    pub typ: String,
}

pub struct TableReadArgView {
    pub ident: Seq<char>,
    pub typ: Seq<char>,
}

impl View for TableReadArg {
    type V = TableReadArgView;

    open spec fn view(&self) -> TableReadArgView {
        TableReadArgView { ident: self.ident@, typ: self.typ@ }
    }
}

impl DeepView for TableReadArg {
    type V = TableReadArgView;

    open spec fn deep_view(&self) -> TableReadArgView {
        self@
    }
}

/// The arguments that the reader of an item takes from its caller.
#[derive(Debug, PartialEq, Eq)]
pub struct TableReadArgs {
    pub args: Vec<TableReadArg>,
}

impl View for TableReadArgs {
    type V = Seq<TableReadArgView>;

    open spec fn view(&self) -> Seq<TableReadArgView> {
        self.args.deep_view()
    }
}

impl DeepView for TableReadArgs {
    type V = Seq<TableReadArgView>;

    open spec fn deep_view(&self) -> Seq<TableReadArgView> {
        self@
    }
}

/// The fields of an item, in declaration order.
#[derive(Debug, PartialEq, Eq)]
pub struct Fields {
    pub fields: Vec<Field>,
    pub read_args: Option<TableReadArgs>,
}

pub struct FieldsView {
    pub fields: Seq<FieldView>,
    pub read_args: Option<Seq<TableReadArgView>>,
}

impl View for Fields {
    type V = FieldsView;

    open spec fn view(&self) -> FieldsView {
        FieldsView { fields: self.fields.deep_view(), read_args: self.read_args.deep_view() }
    }
}

/// A fixed-shape inline struct.
#[derive(Debug, PartialEq, Eq)]
pub struct Record {
    pub docs: Vec<String>,
    pub name: String,
    pub fields: Fields,
}

pub struct RecordView {
    pub docs: Seq<Seq<char>>,
    pub name: Seq<char>,
    pub fields: FieldsView,
}

impl View for Record {
    type V = RecordView;

    open spec fn view(&self) -> RecordView {
        RecordView { docs: self.docs.deep_view(), name: self.name@, fields: self.fields@ }
    }
}

/// A top-level table with computed byte ranges.
#[derive(Debug, PartialEq, Eq)]
pub struct Table {
    pub docs: Vec<String>,
    pub name: String,
    pub fields: Fields,
}

pub struct TableView {
    pub docs: Seq<Seq<char>>,
    pub name: Seq<char>,
    pub fields: FieldsView,
}

impl View for Table {
    type V = TableView;

    open spec fn view(&self) -> TableView {
        TableView { docs: self.docs.deep_view(), name: self.name@, fields: self.fields@ }
    }
}

/// One alternative of a format group or generic group: a name and the
/// table that it stands for.
#[derive(Debug, PartialEq, Eq)]
pub struct Variant {
    pub docs: Vec<String>,
    pub name: String,
    pub typ: String,
    /// where the variant's name stands in the schema text
    pub span: Span,
}

pub struct VariantView {
    pub docs: Seq<Seq<char>>,
    pub name: Seq<char>,
    pub typ: Seq<char>,
    pub span: Span,
}

impl View for Variant {
    type V = VariantView;

    open spec fn view(&self) -> VariantView {
        VariantView {
            docs: self.docs.deep_view(),
            name: self.name@,
            typ: self.typ@,
            span: self.span,
        }
    }
}

impl DeepView for Variant {
    type V = VariantView;

    open spec fn deep_view(&self) -> VariantView {
        self@
    }
}

/// A union of tables, told apart by a leading scalar.
#[derive(Debug, PartialEq, Eq)]
pub struct TableFormat {
    pub docs: Vec<String>,
    /// the type of the discriminant
    pub format: String,
    pub name: String,
    pub variants: Vec<Variant>,
}

pub struct TableFormatView {
    pub docs: Seq<Seq<char>>,
    pub format: Seq<char>,
    pub name: Seq<char>,
    pub variants: Seq<VariantView>,
}

impl View for TableFormat {
    type V = TableFormatView;

    open spec fn view(&self) -> TableFormatView {
        TableFormatView {
            docs: self.docs.deep_view(),
            format: self.format@,
            name: self.name@,
            variants: self.variants.deep_view(),
        }
    }
}

/// One alternative of a generic group: the value of the header's
/// discriminant, a name, and the table held for that value.
#[derive(Debug, PartialEq, Eq)]
pub struct GroupVariant {
    pub type_id: u32,
    pub name: String,
    pub typ: String,
    /// where the variant's name stands in the schema text
    pub span: Span,
}

pub struct GroupVariantView {
    pub type_id: u32,
    pub name: Seq<char>,
    pub typ: Seq<char>,
    pub span: Span,
}

impl View for GroupVariant {
    type V = GroupVariantView;

    open spec fn view(&self) -> GroupVariantView {
        GroupVariantView {
            type_id: self.type_id,
            name: self.name@,
            typ: self.typ@,
            span: self.span,
        }
    }
}

impl DeepView for GroupVariant {
    type V = GroupVariantView;

    open spec fn deep_view(&self) -> GroupVariantView {
        self@
    }
}

/// A container over several tables that share a header table.
#[derive(Debug, PartialEq, Eq)]
pub struct GenericGroup {
    pub docs: Vec<String>,
    pub name: String,
    /// the header table, generic over what it holds
    pub inner_type: String,
    /// the header's field that tells the variants apart
    pub inner_field: String,
    pub variants: Vec<GroupVariant>,
}

pub struct GenericGroupView {
    pub docs: Seq<Seq<char>>,
    pub name: Seq<char>,
    pub inner_type: Seq<char>,
    pub inner_field: Seq<char>,
    pub variants: Seq<GroupVariantView>,
}

impl View for GenericGroup {
    type V = GenericGroupView;

    open spec fn view(&self) -> GenericGroupView {
        GenericGroupView {
            docs: self.docs.deep_view(),
            name: self.name@,
            inner_type: self.inner_type@,
            inner_field: self.inner_field@,
            variants: self.variants.deep_view(),
        }
    }
}

/// A named value of a raw enum, or a named bit of a flag set.
#[derive(Debug, PartialEq, Eq)]
pub struct RawVariant {
    pub docs: Vec<String>,
    pub name: String,
    pub value: u32,
}

pub struct RawVariantView {
    pub docs: Seq<Seq<char>>,
    pub name: Seq<char>,
    pub value: u32,
}

impl View for RawVariant {
    type V = RawVariantView;

    open spec fn view(&self) -> RawVariantView {
        RawVariantView { docs: self.docs.deep_view(), name: self.name@, value: self.value }
    }
}

impl DeepView for RawVariant {
    type V = RawVariantView;

    open spec fn deep_view(&self) -> RawVariantView {
        self@
    }
}

/// A finite enumeration over a scalar.
#[derive(Debug, PartialEq, Eq)]
pub struct RawEnum {
    pub docs: Vec<String>,
    pub name: String,
    pub typ: String,
    pub variants: Vec<RawVariant>,
}

/// A set of named bits over a scalar.
#[derive(Debug, PartialEq, Eq)]
pub struct BitFlags {
    pub docs: Vec<String>,
    pub name: String,
    pub typ: String,
    pub variants: Vec<RawVariant>,
}

/// The view shared by raw enums and flag sets.
pub struct ScalarItemView {
    pub docs: Seq<Seq<char>>,
    pub name: Seq<char>,
    pub typ: Seq<char>,
    pub variants: Seq<RawVariantView>,
}

impl View for RawEnum {
    type V = ScalarItemView;

    open spec fn view(&self) -> ScalarItemView {
        ScalarItemView {
            docs: self.docs.deep_view(),
            name: self.name@,
            typ: self.typ@,
            variants: self.variants.deep_view(),
        }
    }
}

impl View for BitFlags {
    type V = ScalarItemView;

    open spec fn view(&self) -> ScalarItemView {
        ScalarItemView {
            docs: self.docs.deep_view(),
            name: self.name@,
            typ: self.typ@,
            variants: self.variants.deep_view(),
        }
    }
}

/// A type that is declared here and defined by the runtime.
#[derive(Debug, PartialEq, Eq)]
pub struct Extern {
    pub name: String,
}

/// A top-level item of a schema.
#[derive(Debug, PartialEq, Eq)]
pub enum Item {
    Record(Record),
    Table(Table),
    GenericGroup(GenericGroup),
    Format(TableFormat),
    RawEnum(RawEnum),
    Flags(BitFlags),
    Extern(Extern),
}

pub enum ItemView {
    Record(RecordView),
    Table(TableView),
    GenericGroup(GenericGroupView),
    Format(TableFormatView),
    RawEnum(ScalarItemView),
    Flags(ScalarItemView),
    Extern(Seq<char>),
}

impl View for Item {
    type V = ItemView;

    open spec fn view(&self) -> ItemView {
        match self {
            Item::Record(item) => ItemView::Record(item@),
            Item::Table(item) => ItemView::Table(item@),
            Item::GenericGroup(item) => ItemView::GenericGroup(item@),
            Item::Format(item) => ItemView::Format(item@),
            Item::RawEnum(item) => ItemView::RawEnum(item@),
            Item::Flags(item) => ItemView::Flags(item@),
            Item::Extern(item) => ItemView::Extern(item.name@),
        }
    }
}

impl DeepView for Item {
    type V = ItemView;

    open spec fn deep_view(&self) -> ItemView {
        self@
    }
}

/// A schema: the items in the order in which they were declared, and
/// the path of the parse module as seen from the compile module.
#[derive(Debug, PartialEq, Eq)]
pub struct Items {
    pub parse_module_path: String,
    pub items: Vec<Item>,
}

pub struct ItemsView {
    pub parse_module_path: Seq<char>,
    pub items: Seq<ItemView>,
}

impl View for Items {
    type V = ItemsView;

    open spec fn view(&self) -> ItemsView {
        ItemsView { parse_module_path: self.parse_module_path@, items: self.items.deep_view() }
    }
}

/// The two passes of the analyzer.
#[derive(Debug, Clone, Copy, PartialEq, Eq, Structural)]
pub enum Phase {
    /// right after the schema was read: the rules on fields, on the
    /// names that they use of each other, and on groups
    Parse,
    /// after the schema was resolved: the same, and the references
    /// between items
    Analysis,
}

} // verus!
