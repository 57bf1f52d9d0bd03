//! Generating accessors for OpenType tables from a typed schema.
//!
//! A schema declares records, tables, groups of tables, enumerations and
//! flag sets. From it two modules are made that agree on the layout of
//! the font data: one that reads the tables where they lie, and one that
//! holds them as owned values, validates them and writes them.

use crate::error::{AnalysisError, AnalysisErrorView};
use crate::lexer::{SyntaxError, SyntaxErrorView};
use crate::module::{banner, banner_text, generate_module};
pub use crate::module::{generate_compile_module, generate_parse_module};
use crate::items_check::lemma_pass_finds_unbound_names;
use crate::parsing::{ItemsView, Phase};
use crate::schema::{parse_schema, schema};
use vstd::prelude::*;

pub mod access;
pub mod analysis;
pub mod error;
pub mod fields;
pub mod fields_compile;
pub mod fields_list;
pub mod fields_parse;
pub mod flags_enums;
pub mod font_data;
pub mod items;
pub mod items_check;
pub mod layout;
pub mod lexer;
pub mod module;
pub mod owned;
pub mod parsing;
pub mod pieces;
pub mod reader;
pub mod record;
pub mod schema;
pub mod shape;
pub mod table;
pub mod tables;
pub mod text;
pub mod validated;
pub mod variants;

verus! {

/// Code generation mode.
#[derive(Debug, Clone, Copy, PartialEq, Eq, Structural)]
pub enum Mode {
    /// Generate parsing code
    Parse,
    /// Generate compilation code
    Compile,
}

/// A word that names no mode.
#[derive(Debug, PartialEq, Eq)]
pub struct ModeError {
    /// the word that was found
    pub found: String,
}

impl Mode {
    /// The mode that `s` spells, if it spells one.
    pub open spec fn spec_from_str(s: Seq<char>) -> Option<Mode> {
        if s == "parse"@ {
            Some(Mode::Parse)
        } else if s == "compile"@ {
            Some(Mode::Compile)
        } else {
            None
        }
    }

    /// Reads a mode from its name, which is `parse` or `compile`.
    pub fn from_str(s: &str) -> (r: Result<Mode, ModeError>)
        ensures
            match r {
                Ok(mode) => Mode::spec_from_str(s@) == Some(mode),
                Err(e) => Mode::spec_from_str(s@) is None && e.found@ == s@,
            },
    {
        let word = String::from_str(s);
        if word == String::from_str("parse") {
            Ok(Mode::Parse)
        } else if word == String::from_str("compile") {
            Ok(Mode::Compile)
        } else {
            Err(ModeError { found: word })
        }
    }

    /// The name of the mode.
    pub open spec fn spec_name(self) -> Seq<char> {
        match self {
            Mode::Parse => "parse"@,
            Mode::Compile => "compile"@,
        }
    }

    /// The name of the mode.
    pub fn name(self) -> (name: &'static str)
        ensures
            name@ == self.spec_name(),
    {
        match self {
            Mode::Parse => "parse",
            Mode::Compile => "compile",
        }
    }
}

impl ModeError {
    /// What went wrong, in words.
    pub fn message(&self) -> (out: String)
        ensures
            out@ == "expected one of 'parse' or 'compile' (found "@ + self.found@ + ")"@,
    {
        String::from_str("expected one of 'parse' or 'compile' (found ").concat(
            self.found.as_str(),
        ).concat(")")
    }
}

/// Why no module was made from a schema.
#[derive(Debug, PartialEq, Eq)]
pub enum ErrorReport {
    /// the text is not written as the schema language asks
    Syntax(SyntaxError),
    /// the schema is structurally wrong; every finding of the pass of
    /// the analyzer that found something
    Analysis(Vec<AnalysisError>),
}

pub enum ErrorReportView {
    Syntax(SyntaxErrorView),
    Analysis(Seq<AnalysisErrorView>),
}

impl View for ErrorReport {
    type V = ErrorReportView;

    open spec fn view(&self) -> ErrorReportView {
        match self {
            ErrorReport::Syntax(e) => ErrorReportView::Syntax(e@),
            ErrorReport::Analysis(errors) => ErrorReportView::Analysis(errors.deep_view()),
        }
    }
}

/// The module that is made from a schema text in `mode`.
///
/// The text is read. The first pass of the analyzer checks the schema
/// as it was read: the fields, the names that they use of each other,
/// and the groups. The types that the schema itself declares are
/// resolved; the second pass checks the resolved schema, and with it
/// the references between items; and the module of `mode` is made
/// from it. The first of these steps that finds something gives the
/// error, with everything that it found.
pub open spec fn generated_module(code: Seq<char>, mode: Mode) -> Result<
    Seq<char>,
    ErrorReportView,
> {
    match schema(code) {
        Err(e) => Err(ErrorReportView::Syntax(e)),
        Ok(items) => if items.sanity_errors(Phase::Parse).len() > 0 {
            Err(ErrorReportView::Analysis(items.sanity_errors(Phase::Parse)))
        } else if items.resolved().sanity_errors(Phase::Analysis).len() > 0 {
            Err(ErrorReportView::Analysis(items.resolved().sanity_errors(Phase::Analysis)))
        } else {
            Ok(items.resolved().module(mode))
        },
    }
}

/// What is generated from a schema text in `mode`: the module, behind
/// the notice that the file is generated.
pub open spec fn generated(code: Seq<char>, mode: Mode) -> Result<Seq<char>, ErrorReportView> {
    match generated_module(code, mode) {
        Ok(module) => Ok(banner() + module),
        Err(e) => Err(e),
    }
}

/// Whether `r` is the module that is made from `code` in `mode`.
pub open spec fn is_generated_module(
    code: Seq<char>,
    mode: Mode,
    r: Result<String, ErrorReport>,
) -> bool {
    match r {
        Ok(text) => generated_module(code, mode) == Ok::<Seq<char>, ErrorReportView>(text@),
        Err(e) => generated_module(code, mode) == Err::<Seq<char>, ErrorReportView>(e@),
    }
}

/// Whether `r` is what is generated from `code` in `mode`.
pub open spec fn is_generated(code: Seq<char>, mode: Mode, r: Result<String, ErrorReport>) -> bool {
    match r {
        Ok(text) => generated(code, mode) == Ok::<Seq<char>, ErrorReportView>(text@),
        Err(e) => generated(code, mode) == Err::<Seq<char>, ErrorReportView>(e@),
    }
}

/// Makes the module of `mode` from a schema text, without the notice
/// that the file is generated: this is the text that a formatter
/// takes.
pub fn generate_module_text(code_str: &str, mode: Mode) -> (r: Result<String, ErrorReport>)
    ensures
        is_generated_module(code_str@, mode, r),
{
    // Generation is done in phases:
    // 1. Parse
    let mut items = match parse_schema(code_str) {
        Ok(items) => items,
        Err(e) => {
            return Err(ErrorReport::Syntax(e));
        },
    };
    let errors = items.sanity_check(Phase::Parse);
    if errors.len() > 0 {
        return Err(ErrorReport::Analysis(errors));
    }
    // 2. Contemplate (semantic analysis)
    items.resolve_pending();
    let errors = items.sanity_check(Phase::Analysis);
    if errors.len() > 0 {
        return Err(ErrorReport::Analysis(errors));
    }
    proof {
        items@.lemma_sane_is_lowerable();
    }
    // 3. Generate
    Ok(generate_module(&items, mode))
}

/// Generates the module of `mode` from a schema text, behind the
/// notice that the file is generated.
///
/// The result is not formatted.
pub fn generate_code(code_str: &str, mode: Mode) -> (r: Result<String, ErrorReport>)
    ensures
        is_generated(code_str@, mode, r),
{
    match generate_module_text(code_str, mode) {
        Ok(tables) => Ok(String::from_str(banner_text()).concat(tables.as_str())),
        Err(e) => Err(e),
    }
}

/// Nothing is generated from a schema that uses a name that is not
/// bound: where a field of a record or table uses, for its length,
/// its arguments, its presence or its `compile` expression, a name
/// that belongs to no field before it and to no argument of the item,
/// the result in either mode is the report of the first pass of the
/// analyzer, and the finding on that name is in it.
pub proof fn lemma_unbound_names_are_reported(
    code: Seq<char>,
    mode: Mode,
    items: ItemsView,
    k: int,
    i: int,
    name: Seq<char>,
)
    requires
        schema(code) == Ok::<ItemsView, SyntaxErrorView>(items),
        0 <= k < items.items.len(),
        items.items[k].fields() is Some,
        0 <= i < items.items[k].fields().unwrap().fields.len(),
        items.items[k].fields().unwrap().fields[i].parse_inputs().contains(name)
            || items.items[k].fields().unwrap().fields[i].compile_inputs().contains(name),
        !items.items[k].fields().unwrap().resolves(i, name),
    ensures
        generated_module(code, mode) matches Err(ErrorReportView::Analysis(errors))
            && errors == items.sanity_errors(Phase::Parse) && errors.contains(
            items.items[k].fields().unwrap().unresolved(i, name),
        ),
        generated(code, mode) == generated_module(code, mode),
{
    lemma_pass_finds_unbound_names(items, Phase::Parse, k, i, name);
}

/// Where a module is generated, every name that a field of a record
/// or table uses, for its length, its arguments, its presence or its
/// `compile` expression, belongs to a field that stands before it or
/// to an argument of the item.
pub proof fn lemma_generated_names_are_bound(
    code: Seq<char>,
    mode: Mode,
    items: ItemsView,
    k: int,
    i: int,
    name: Seq<char>,
)
    requires
        schema(code) == Ok::<ItemsView, SyntaxErrorView>(items),
        generated_module(code, mode) is Ok,
        0 <= k < items.items.len(),
        items.items[k].fields() is Some,
        0 <= i < items.items[k].fields().unwrap().fields.len(),
        items.items[k].fields().unwrap().fields[i].parse_inputs().contains(name)
            || items.items[k].fields().unwrap().fields[i].compile_inputs().contains(name),
    ensures
        items.items[k].fields().unwrap().resolves(i, name),
{
    if !items.items[k].fields().unwrap().resolves(i, name) {
        lemma_unbound_names_are_reported(code, mode, items, k, i, name);
    }
}

/// Deterministic generation: two runs on the same schema text in the
/// same mode give the same text, or the same error.
pub proof fn lemma_generation_is_deterministic(
    code: Seq<char>,
    mode: Mode,
    first: Result<String, ErrorReport>,
    second: Result<String, ErrorReport>,
)
    requires
        is_generated(code, mode, first),
        is_generated(code, mode, second),
    ensures
        first is Ok <==> second is Ok,
        first matches Ok(a) ==> second matches Ok(b) && a@ == b@,
        first matches Err(a) ==> second matches Err(b) && a@ == b@,
{
}

} // verus!
