//! The two modules that are made from a schema.

use crate::flags_enums::{
    generate_flags, generate_flags_compile, generate_raw_enum, generate_raw_enum_compile,
};
use crate::parsing::{Item, ItemView, Items, ItemsView};
use crate::text::concat_all;
use crate::Mode;
use vstd::prelude::*;

verus! {

/// The notice that stands at the head of every generated file.
pub open spec fn banner() -> Seq<char> {
    "// THIS FILE IS AUTOGENERATED.\n// Any changes to this file will be overwritten.\n// For more information about how codegen works, see font-codegen/README.md\n\n"@
}

/// The notice that stands at the head of every generated file.
pub fn banner_text() -> (out: &'static str)
    ensures
        out@ == banner(),
{
    "// THIS FILE IS AUTOGENERATED.\n// Any changes to this file will be overwritten.\n// For more information about how codegen works, see font-codegen/README.md\n\n"
}

/// The imports that both modules begin with.
pub open spec fn prelude() -> Seq<char> {
    "#[allow(unused_imports)]\nuse crate::codegen_prelude::*;\n\n"@
}

impl ItemView {
    /// What the parse module holds for the item. It holds nothing for a
    /// type that the runtime defines.
    pub open spec fn parse_code(self) -> Seq<char> {
        match self {
            ItemView::Record(item) => item.generate(),
            ItemView::Table(item) => item.generate(),
            ItemView::GenericGroup(item) => item.generate(),
            ItemView::Format(item) => item.generate(),
            ItemView::RawEnum(item) => item.raw_enum(),
            ItemView::Flags(item) => item.flags(),
            ItemView::Extern(_) => ""@,
        }
    }

    /// What the compile module holds for the item. It holds nothing for
    /// raw enums and flag sets, which it takes from the parse module.
    pub open spec fn compile_code(self) -> Seq<char> {
        match self {
            ItemView::Record(item) => item.generate_compile(),
            ItemView::Table(item) => item.generate_compile(),
            ItemView::GenericGroup(item) => item.generate_compile(),
            ItemView::Format(item) => item.generate_compile(),
            ItemView::RawEnum(_) => ""@,
            ItemView::Flags(_) => ""@,
            ItemView::Extern(_) => ""@,
        }
    }

    /// What the module of `mode` holds for the item.
    pub open spec fn code(self, mode: Mode) -> Seq<char> {
        match mode {
            Mode::Parse => self.parse_code(),
            Mode::Compile => self.compile_code(),
        }
    }
}

impl ItemsView {
    /// The names that the compile module takes from the parse module:
    /// those of the raw enums and flag sets, each followed by a comma.
    pub open spec fn reexports(self) -> Seq<char> {
        self.scalar_names().map_values(|name: Seq<char>| name + ", "@).flatten()
    }

    /// The parse module: the imports, and what is held for each item, in
    /// the order of the schema.
    pub open spec fn parse_module(self) -> Seq<char> {
        prelude() + self.items.map_values(|item: ItemView| item.code(Mode::Parse)).flatten()
    }

    /// The compile module: the imports, the raw enums and flag sets of
    /// the parse module, and what is held for each item, in the order of
    /// the schema.
    pub open spec fn compile_module(self) -> Seq<char> {
        prelude() + "pub use "@ + self.parse_module_path + "::{"@ + self.reexports() + "};\n\n"@
            + self.items.map_values(|item: ItemView| item.code(Mode::Compile)).flatten()
    }

    /// The module of `mode`.
    pub open spec fn module(self, mode: Mode) -> Seq<char> {
        match mode {
            Mode::Parse => self.parse_module(),
            Mode::Compile => self.compile_module(),
        }
    }
}

impl Item {
    /// What the module of `mode` holds for the item.
    pub fn code(&self, mode: Mode) -> (out: String)
        requires
            self@.fields() matches Some(fields) ==> fields.lowerable(),
        ensures
            out@ == self@.code(mode),
    {
        match mode {
            Mode::Parse => match self {
                Item::Record(item) => crate::record::generate(item),
                Item::Table(item) => crate::table::generate(item),
                Item::GenericGroup(item) => crate::table::generate_group(item),
                Item::Format(item) => crate::table::generate_format_group(item),
                Item::RawEnum(item) => generate_raw_enum(item),
                Item::Flags(item) => generate_flags(item),
                Item::Extern(_) => String::from_str(""),
            },
            Mode::Compile => match self {
                Item::Record(item) => crate::record::generate_compile(item),
                Item::Table(item) => crate::table::generate_compile(item),
                Item::GenericGroup(item) => crate::table::generate_group_compile(item),
                Item::Format(item) => crate::table::generate_format_compile(item),
                Item::RawEnum(item) => generate_raw_enum_compile(item),
                Item::Flags(item) => generate_flags_compile(item),
                Item::Extern(_) => String::from_str(""),
            },
        }
    }
}

impl Items {
    /// What the module of `mode` holds for the items, in the order of
    /// the schema.
    fn items_code(&self, mode: Mode) -> (out: String)
        requires
            self@.lowerable(),
        ensures
            out@ == self@.items.map_values(|item: ItemView| item.code(mode)).flatten(),
    {
        let mut pieces: Vec<String> = Vec::new();
        let ghost code = |item: ItemView| item.code(mode);
        let mut i: usize = 0;
        while i < self.items.len()
            invariant
                i <= self.items.len(),
                self@.lowerable(),
                code == |item: ItemView| item.code(mode),
                pieces.deep_view() == self@.items.take(i as int).map_values(code),
            decreases self.items.len() - i,
        {
            let ghost before = pieces.deep_view();
            assert(self@.items[i as int] == self.items[i as int]@);
            let text = self.items[i].code(mode);
            pieces.push(text);
            assert(pieces.deep_view() =~= before.push(text@));
            assert(self@.items.take(i + 1).map_values(code) =~= before.push(text@));
            i += 1;
        }
        assert(self@.items.take(i as int) =~= self@.items);
        concat_all(&pieces)
    }

    /// The names that the compile module takes from the parse module.
    fn reexports(&self) -> (out: String)
        ensures
            out@ == self@.reexports(),
    {
        let names = self.scalar_names();
        let mut pieces: Vec<String> = Vec::new();
        let ghost listed = |name: Seq<char>| name + ", "@;
        let mut i: usize = 0;
        while i < names.len()
            invariant
                i <= names.len(),
                listed == |name: Seq<char>| name + ", "@,
                pieces.deep_view() == names.deep_view().take(i as int).map_values(listed),
            decreases names.len() - i,
        {
            let ghost before = pieces.deep_view();
            let text = String::from_str(names[i].as_str()).concat(", ");
            pieces.push(text);
            assert(pieces.deep_view() =~= before.push(text@));
            assert(names.deep_view().take(i + 1).map_values(listed) =~= before.push(text@));
            i += 1;
        }
        assert(names.deep_view().take(i as int) =~= names.deep_view());
        concat_all(&pieces)
    }
}

/// Makes the parse module of a schema that the analyzer has passed.
pub fn generate_parse_module(items: &Items) -> (out: String)
    requires
        items@.lowerable(),
    ensures
        out@ == items@.parse_module(),
{
    let code = items.items_code(Mode::Parse);
    String::from_str("#[allow(unused_imports)]\nuse crate::codegen_prelude::*;\n\n").concat(
        code.as_str(),
    )
}

/// Makes the compile module of a schema that the analyzer has passed.
pub fn generate_compile_module(items: &Items) -> (out: String)
    requires
        items@.lowerable(),
    ensures
        out@ == items@.compile_module(),
{
    let code = items.items_code(Mode::Compile);
    let import_from_parse_mod = items.reexports();
    String::from_str("#[allow(unused_imports)]\nuse crate::codegen_prelude::*;\n\n").concat(
        "pub use ",
    ).concat(items.parse_module_path.as_str()).concat("::{").concat(
        import_from_parse_mod.as_str(),
    ).concat("};\n\n").concat(code.as_str())
}

/// Makes the module of `mode` of a schema that the analyzer has passed.
pub fn generate_module(items: &Items, mode: Mode) -> (out: String)
    requires
        items@.lowerable(),
    ensures
        out@ == items@.module(mode),
{
    match mode {
        Mode::Parse => generate_parse_module(items),
        Mode::Compile => generate_compile_module(items),
    }
}

} // verus!
