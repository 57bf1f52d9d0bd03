//! The grammar of the schema language: items, and the schema as a
//! whole.

use crate::fields_list::with_parse_flags;
use crate::lexer::{
    CharClass, Source, SyntaxError, SyntaxErrorView, accept, at, error_at, expect, ident, number,
    peek, scan, skip,
};
use crate::parsing::{
    BitFlags, Extern, Fields, FieldsView, GenericGroup, GenericGroupView, GroupVariant,
    GroupVariantView, Item, ItemView, Items, ItemsView, RawEnum, RawVariant, RawVariantView, Record, RecordView, ScalarItemView, Table, TableFormat, TableFormatView,
    TableReadArg, TableReadArgView, TableReadArgs, TableView, Variant, VariantView,
};
use crate::reader::{field_list, is_word};
use vstd::prelude::*;

verus! {

/// The lines of documentation at `pos`, added to `acc`, and the place
/// of the word behind them.
pub open spec fn docs(s: Seq<char>, pos: int, acc: Seq<Seq<char>>) -> (Seq<Seq<char>>, int)
    decreases s.len() - pos,
{
    let p = skip(s, pos);
    if at(s, p, "///"@) {
        let e = scan(s, p + 3, CharClass::Line);
        if pos < e <= s.len() {
            docs(s, e, acc.push(s.subrange(p + 3, e)))
        } else {
            (acc, p)
        }
    } else {
        (acc, p)
    }
}

/// The arguments that an item declares, added to `acc`: `name: Type`,
/// and more of them behind commas.
pub open spec fn read_args(s: Seq<char>, pos: int, acc: Seq<TableReadArgView>) -> Result<
    (Seq<TableReadArgView>, int),
    SyntaxErrorView,
>
    decreases s.len() - pos,
{
    match ident(s, pos) {
        Err(e) => Err(e),
        Ok((name, span, p)) => match expect(s, p, ":"@) {
            Err(e) => Err(e),
            Ok(p1) => match ident(s, p1) {
                Err(e) => Err(e),
                Ok((typ, span, q)) => {
                    let arg = TableReadArgView { ident: name, typ };
                    if peek(s, q, ","@) && pos < accept(s, q, ","@) <= s.len() {
                        read_args(s, accept(s, q, ","@), acc.push(arg))
                    } else {
                        Ok((acc.push(arg), q))
                    }
                },
            },
        },
    }
}

/// What stands before an item: its documentation, and the arguments
/// that it declares, if it declares some.
pub open spec fn item_prefix(s: Seq<char>, pos: int) -> Result<
    (Seq<Seq<char>>, Option<Seq<TableReadArgView>>, int),
    SyntaxErrorView,
> {
    let (lines, p) = docs(s, pos, Seq::empty());
    if at(s, p, "#["@) {
        match ident(s, p + 2) {
            Err(e) => Err(e),
            Ok((name, span, q)) => if name != "read_args"@ {
                Err(error_at(span.start as int, "expected `read_args`"@))
            } else {
                match expect(s, q, "("@) {
                    Err(e) => Err(e),
                    Ok(q1) => match read_args(s, q1, Seq::empty()) {
                        Err(e) => Err(e),
                        Ok((args, q2)) => match expect(s, q2, ")"@) {
                            Err(e) => Err(e),
                            Ok(q3) => match expect(s, q3, "]"@) {
                                Err(e) => Err(e),
                                Ok(q4) => Ok((lines, Some(args), q4)),
                            },
                        },
                    },
                }
            },
        }
    } else {
        Ok((lines, None, p))
    }
}

/// A variant of a format group: its documentation, its name, and in
/// parentheses the table that it stands for.
pub open spec fn format_variant(s: Seq<char>, pos: int) -> Result<(VariantView, int), SyntaxErrorView> {
    let (lines, p) = docs(s, pos, Seq::empty());
    match ident(s, p) {
        Err(e) => Err(e),
        Ok((name, span, q)) => match expect(s, q, "("@) {
            Err(e) => Err(e),
            Ok(q1) => match ident(s, q1) {
                Err(e) => Err(e),
                Ok((typ, typ_span, q2)) => match expect(s, q2, ")"@) {
                    Err(e) => Err(e),
                    Ok(q3) => Ok(
                        (VariantView { docs: lines, name, typ, span }, accept(s, q3, ","@)),
                    ),
                },
            },
        },
    }
}

/// The variants of a format group up to the closing brace, added to
/// `acc`.
pub open spec fn format_variants(s: Seq<char>, pos: int, acc: Seq<VariantView>) -> Result<
    (Seq<VariantView>, int),
    SyntaxErrorView,
>
    decreases s.len() - pos,
{
    if peek(s, pos, "}"@) {
        Ok((acc, accept(s, pos, "}"@)))
    } else {
        match format_variant(s, pos) {
            Err(e) => Err(e),
            Ok((v, q)) => if pos < q <= s.len() {
                format_variants(s, q, acc.push(v))
            } else {
                Err(error_at(pos, "expected a variant"@))
            },
        }
    }
}

/// A variant of a generic group: the value that the header holds for
/// it, an arrow, its name, and in round brackets the table that the
/// header then holds.
pub open spec fn group_variant(s: Seq<char>, pos: int) -> Result<
    (GroupVariantView, int),
    SyntaxErrorView,
> {
    match number(s, pos) {
        Err(e) => Err(e),
        Ok((type_id, q)) => match expect(s, q, "=>"@) {
            Err(e) => Err(e),
            Ok(q1) => match ident(s, q1) {
                Err(e) => Err(e),
                Ok((name, span, q2)) => match expect(s, q2, "("@) {
                    Err(e) => Err(e),
                    Ok(q3) => match ident(s, q3) {
                        Err(e) => Err(e),
                        Ok((typ, typ_span, q4)) => match expect(s, q4, ")"@) {
                            Err(e) => Err(e),
                            Ok(q5) => Ok(
                                (
                                    GroupVariantView { type_id, name, typ, span },
                                    accept(s, q5, ","@),
                                ),
                            ),
                        },
                    },
                },
            },
        },
    }
}

/// The variants of a generic group up to the closing brace, added to
/// `acc`.
pub open spec fn group_variants(s: Seq<char>, pos: int, acc: Seq<GroupVariantView>) -> Result<
    (Seq<GroupVariantView>, int),
    SyntaxErrorView,
>
    decreases s.len() - pos,
{
    if peek(s, pos, "}"@) {
        Ok((acc, accept(s, pos, "}"@)))
    } else {
        match group_variant(s, pos) {
            Err(e) => Err(e),
            Ok((v, q)) => if pos < q <= s.len() {
                group_variants(s, q, acc.push(v))
            } else {
                Err(error_at(pos, "expected a variant"@))
            },
        }
    }
}

/// The head of a generic group behind its keyword: its name; in round
/// brackets the header table and, behind a comma and a dollar sign, the
/// header's field that tells the variants apart; and the opening
/// brace.
pub open spec fn group_head(s: Seq<char>, pos: int) -> Result<
    (Seq<char>, Seq<char>, Seq<char>, int),
    SyntaxErrorView,
> {
    match ident(s, pos) {
        Err(e) => Err(e),
        Ok((name, span, q)) => match expect(s, q, "("@) {
            Err(e) => Err(e),
            Ok(q1) => match ident(s, q1) {
                Err(e) => Err(e),
                Ok((inner_type, type_span, q2)) => match expect(s, q2, ","@) {
                    Err(e) => Err(e),
                    Ok(q3) => match expect(s, q3, "$"@) {
                        Err(e) => Err(e),
                        Ok(q4) => match ident(s, q4) {
                            Err(e) => Err(e),
                            Ok((inner_field, field_span, q5)) => match expect(s, q5, ")"@) {
                                Err(e) => Err(e),
                                Ok(q6) => match expect(s, q6, "{"@) {
                                    Err(e) => Err(e),
                                    Ok(q7) => Ok((name, inner_type, inner_field, q7)),
                                },
                            },
                        },
                    },
                },
            },
        },
    }
}

/// A generic group behind its keyword.
pub open spec fn group_item(s: Seq<char>, pos: int, lines: Seq<Seq<char>>) -> Result<
    (GenericGroupView, int),
    SyntaxErrorView,
> {
    match group_head(s, pos) {
        Err(e) => Err(e),
        Ok((name, inner_type, inner_field, q)) => match group_variants(s, q, Seq::empty()) {
            Err(e) => Err(e),
            Ok((variants, q1)) => Ok(
                (GenericGroupView { docs: lines, name, inner_type, inner_field, variants }, q1),
            ),
        },
    }
}

/// A named value: its documentation, its name, and its value behind an
/// equals sign.
pub open spec fn raw_variant(s: Seq<char>, pos: int) -> Result<(RawVariantView, int), SyntaxErrorView> {
    let (lines, p) = docs(s, pos, Seq::empty());
    match ident(s, p) {
        Err(e) => Err(e),
        Ok((name, span, q)) => match expect(s, q, "="@) {
            Err(e) => Err(e),
            Ok(q1) => match number(s, q1) {
                Err(e) => Err(e),
                Ok((value, q2)) => Ok(
                    (RawVariantView { docs: lines, name, value }, accept(s, q2, ","@)),
                ),
            },
        },
    }
}

/// The named values up to the closing brace, added to `acc`.
pub open spec fn raw_variants(s: Seq<char>, pos: int, acc: Seq<RawVariantView>) -> Result<
    (Seq<RawVariantView>, int),
    SyntaxErrorView,
>
    decreases s.len() - pos,
{
    if peek(s, pos, "}"@) {
        Ok((acc, accept(s, pos, "}"@)))
    } else {
        match raw_variant(s, pos) {
            Err(e) => Err(e),
            Ok((v, q)) => if pos < q <= s.len() {
                raw_variants(s, q, acc.push(v))
            } else {
                Err(error_at(pos, "expected a name"@))
            },
        }
    }
}

/// The names of an `extern` block up to the closing brace, each added
/// to `acc` as an item.
pub open spec fn externs(s: Seq<char>, pos: int, acc: Seq<ItemView>) -> Result<
    (Seq<ItemView>, int),
    SyntaxErrorView,
>
    decreases s.len() - pos,
{
    if peek(s, pos, "}"@) {
        Ok((acc, accept(s, pos, "}"@)))
    } else {
        match ident(s, pos) {
            Err(e) => Err(e),
            Ok((name, span, q)) => if pos < accept(s, q, ","@) <= s.len() {
                externs(s, accept(s, q, ","@), acc.push(ItemView::Extern(name)))
            } else {
                Err(error_at(pos, "expected a name"@))
            },
        }
    }
}

/// The body of a record or table behind its keyword: its name, and its
/// fields in braces. The fields are marked as the validator has to read
/// them.
pub open spec fn fields_item(s: Seq<char>, pos: int, args: Option<Seq<TableReadArgView>>) -> Result<
    (Seq<char>, FieldsView, int),
    SyntaxErrorView,
> {
    match ident(s, pos) {
        Err(e) => Err(e),
        Ok((name, span, q)) => match expect(s, accept(s, q, "<'a>"@), "{"@) {
            Err(e) => Err(e),
            Ok(q1) => match field_list(s, q1, Seq::empty()) {
                Err(e) => Err(e),
                Ok((fields, q2)) => Ok(
                    (name, FieldsView { fields: with_parse_flags(fields), read_args: args }, q2),
                ),
            },
        },
    }
}

/// The head of an item over a scalar behind its keyword: the scalar
/// type, the name, and the opening brace.
pub open spec fn scalar_head(s: Seq<char>, pos: int) -> Result<
    (Seq<char>, Seq<char>, int),
    SyntaxErrorView,
> {
    match ident(s, pos) {
        Err(e) => Err(e),
        Ok((typ, span, q)) => match ident(s, q) {
            Err(e) => Err(e),
            Ok((name, name_span, q1)) => match expect(s, q1, "{"@) {
                Err(e) => Err(e),
                Ok(q2) => Ok((typ, name, q2)),
            },
        },
    }
}

/// An item over named values behind its keyword.
pub open spec fn scalar_item(s: Seq<char>, pos: int, lines: Seq<Seq<char>>) -> Result<
    (ScalarItemView, int),
    SyntaxErrorView,
> {
    match scalar_head(s, pos) {
        Err(e) => Err(e),
        Ok((typ, name, q)) => match raw_variants(s, q, Seq::empty()) {
            Err(e) => Err(e),
            Ok((variants, q1)) => Ok((ScalarItemView { docs: lines, name, typ, variants }, q1)),
        },
    }
}

/// A format group behind its keyword.
pub open spec fn format_item(s: Seq<char>, pos: int, lines: Seq<Seq<char>>) -> Result<
    (TableFormatView, int),
    SyntaxErrorView,
> {
    match scalar_head(s, pos) {
        Err(e) => Err(e),
        Ok((typ, name, q)) => match format_variants(s, q, Seq::empty()) {
            Err(e) => Err(e),
            Ok((variants, q1)) => Ok(
                (TableFormatView { docs: lines, format: typ, name, variants }, q1),
            ),
        },
    }
}

/// An item, added to `acc`: what stands before it, its keyword, and its
/// body. An `extern` block adds one item for each name.
pub open spec fn item(s: Seq<char>, pos: int, acc: Seq<ItemView>) -> Result<
    (Seq<ItemView>, int),
    SyntaxErrorView,
> {
    match item_prefix(s, pos) {
        Err(e) => Err(e),
        Ok((lines, args, p)) => match ident(s, p) {
            Err(e) => Err(e),
            Ok((keyword, span, q)) => if keyword == "record"@ {
                match fields_item(s, q, args) {
                    Err(e) => Err(e),
                    Ok((name, fields, q1)) => Ok(
                        (acc.push(ItemView::Record(RecordView { docs: lines, name, fields })), q1),
                    ),
                }
            } else if keyword == "table"@ {
                match fields_item(s, q, args) {
                    Err(e) => Err(e),
                    Ok((name, fields, q1)) => Ok(
                        (acc.push(ItemView::Table(TableView { docs: lines, name, fields })), q1),
                    ),
                }
            } else if keyword == "flags"@ {
                match scalar_item(s, q, lines) {
                    Err(e) => Err(e),
                    Ok((found, q1)) => Ok((acc.push(ItemView::Flags(found)), q1)),
                }
            } else if keyword == "enum"@ {
                match scalar_item(s, q, lines) {
                    Err(e) => Err(e),
                    Ok((found, q1)) => Ok((acc.push(ItemView::RawEnum(found)), q1)),
                }
            } else if keyword == "format"@ {
                match format_item(s, q, lines) {
                    Err(e) => Err(e),
                    Ok((found, q1)) => Ok((acc.push(ItemView::Format(found)), q1)),
                }
            } else if keyword == "group"@ {
                match group_item(s, q, lines) {
                    Err(e) => Err(e),
                    Ok((found, q1)) => Ok((acc.push(ItemView::GenericGroup(found)), q1)),
                }
            } else if keyword == "extern"@ {
                match expect(s, q, "{"@) {
                    Err(e) => Err(e),
                    Ok(q1) => externs(s, q1, acc),
                }
            } else {
                Err(error_at(span.start as int, "expected an item"@))
            },
        },
    }
}

/// The items up to the end of the text, added to `acc`.
pub open spec fn items(s: Seq<char>, pos: int, acc: Seq<ItemView>) -> Result<
    Seq<ItemView>,
    SyntaxErrorView,
>
    decreases s.len() - pos,
{
    if skip(s, pos) >= s.len() {
        Ok(acc)
    } else {
        match item(s, pos, acc) {
            Err(e) => Err(e),
            Ok((found, q)) => if pos < q <= s.len() {
                items(s, q, found)
            } else {
                Err(error_at(pos, "expected an item"@))
            },
        }
    }
}

/// The line that names the parse module: `#![parse_module(path)]`.
pub open spec fn pragma(s: Seq<char>) -> Result<(Seq<char>, int), SyntaxErrorView> {
    match expect(s, 0, "#!["@) {
        Err(e) => Err(e),
        Ok(p) => match ident(s, p) {
            Err(e) => Err(e),
            Ok((name, span, q)) => if name != "parse_module"@ {
                Err(error_at(span.start as int, "expected `parse_module`"@))
            } else {
                match expect(s, q, "("@) {
                    Err(e) => Err(e),
                    Ok(q1) => {
                        let start = skip(s, q1);
                        let end = scan(s, start, CharClass::Path);
                        if start < end <= s.len() {
                            match expect(s, end, ")"@) {
                                Err(e) => Err(e),
                                Ok(q2) => match expect(s, q2, "]"@) {
                                    Err(e) => Err(e),
                                    Ok(q3) => Ok((s.subrange(start, end), q3)),
                                },
                            }
                        } else {
                            Err(error_at(start, "expected a path"@))
                        }
                    },
                }
            },
        }
    }
}

/// A schema: the line that names the parse module, and the items.
pub open spec fn schema(s: Seq<char>) -> Result<ItemsView, SyntaxErrorView> {
    match pragma(s) {
        Err(e) => Err(e),
        Ok((path, p)) => match items(s, p, Seq::empty()) {
            Err(e) => Err(e),
            Ok(found) => Ok(ItemsView { parse_module_path: path, items: found }),
        },
    }
}

impl<'a> Source<'a> {
    /// The lines of documentation at `pos`.
    pub fn docs(&self, pos: usize) -> (r: (Vec<String>, usize))
        requires
            self.wf(),
            pos <= self.chars.len(),
        ensures
            docs(self.chars@, pos as int, Seq::empty()) == (r.0.deep_view(), r.1 as int),
            pos <= r.1 <= self.chars.len(),
    {
        let mut acc: Vec<String> = Vec::new();
        let mut at: usize = pos;
        assert(acc.deep_view() =~= Seq::<Seq<char>>::empty());
        loop
            invariant
                self.wf(),
                pos <= at <= self.chars.len(),
                docs(self.chars@, pos as int, Seq::empty()) == docs(
                    self.chars@,
                    at as int,
                    acc.deep_view(),
                ),
            decreases self.chars.len() - at,
        {
            let p = self.skip(at);
            if self.at(p, "///") {
                proof {
                    reveal_strlit("///");
                }
                let e = self.scan(p + 3, CharClass::Line);
                if at < e {
                    let ghost before = acc.deep_view();
                    let line = self.slice(p + 3, e);
                    acc.push(line);
                    assert(acc.deep_view() =~= before.push(line@));
                    at = e;
                } else {
                    return (acc, p);
                }
            } else {
                return (acc, p);
            }
        }
    }

    /// The arguments that an item declares.
    pub fn read_args(&self, pos: usize) -> (r: Result<(Vec<TableReadArg>, usize), SyntaxError>)
        requires
            self.wf(),
            pos <= self.chars.len(),
        ensures
            match r {
                Ok((value, p)) => read_args(self.chars@, pos as int, Seq::empty()) matches Ok(
                    want,
                ) && want.0 == value.deep_view() && want.1 == p && pos <= p <= self.chars.len(),
                Err(e) => read_args(self.chars@, pos as int, Seq::empty()) matches Err(want)
                    && want == e@,
            },
    {
        let mut acc: Vec<TableReadArg> = Vec::new();
        let mut at: usize = pos;
        assert(acc.deep_view() =~= Seq::<TableReadArgView>::empty());
        loop
            invariant
                self.wf(),
                pos <= at <= self.chars.len(),
                read_args(self.chars@, pos as int, Seq::empty()) == read_args(
                    self.chars@,
                    at as int,
                    acc.deep_view(),
                ),
            decreases self.chars.len() - at,
        {
            let (name, _, p) = self.ident(at)?;
            let p1 = self.expect(p, ":")?;
            let (typ, _, q) = self.ident(p1)?;
            let ghost before = acc.deep_view();
            let arg = TableReadArg { ident: name, typ };
            let ghost added = arg@;
            acc.push(arg);
            assert(acc.deep_view() =~= before.push(added));
            let next = self.accept(q, ",");
            if self.peek(q, ",") && at < next {
                at = next;
            } else {
                return Ok((acc, q));
            }
        }
    }

    /// What stands before an item.
    pub fn item_prefix(&self, pos: usize) -> (r: Result<
        (Vec<String>, Option<TableReadArgs>, usize),
        SyntaxError,
    >)
        requires
            self.wf(),
            pos <= self.chars.len(),
        ensures
            match r {
                Ok((lines, args, p)) => item_prefix(self.chars@, pos as int) matches Ok(want)
                    && want.0 == lines.deep_view() && want.1 == args.deep_view() && want.2 == p
                    && pos <= p <= self.chars.len(),
                Err(e) => item_prefix(self.chars@, pos as int) matches Err(want) && want == e@,
            },
    {
        let (lines, p) = self.docs(pos);
        if self.at(p, "#[") {
            proof {
                reveal_strlit("#[");
            }
            let (name, span, q) = self.ident(p + 2)?;
            if !is_word(&name, "read_args") {
                return self.error(span.start, "expected `read_args`");
            }
            let q1 = self.expect(q, "(")?;
            let (args, q2) = self.read_args(q1)?;
            let q3 = self.expect(q2, ")")?;
            let q4 = self.expect(q3, "]")?;
            Ok((lines, Some(TableReadArgs { args }), q4))
        } else {
            Ok((lines, None, p))
        }
    }

    /// A variant of a format group.
    pub fn format_variant(&self, pos: usize) -> (r: Result<(Variant, usize), SyntaxError>)
        requires
            self.wf(),
            pos <= self.chars.len(),
        ensures
            match r {
                Ok((value, p)) => format_variant(self.chars@, pos as int) matches Ok(want)
                    && want.0 == value@ && want.1 == p && pos <= p <= self.chars.len(),
                Err(e) => format_variant(self.chars@, pos as int) matches Err(want) && want
                    == e@,
            },
    {
        let (docs, p) = self.docs(pos);
        let (name, span, q) = self.ident(p)?;
        let q1 = self.expect(q, "(")?;
        let (typ, _, q2) = self.ident(q1)?;
        let q3 = self.expect(q2, ")")?;
        Ok((Variant { docs, name, typ, span }, self.accept(q3, ",")))
    }

    /// The variants of a format group up to the closing brace.
    pub fn format_variants(&self, pos: usize) -> (r: Result<(Vec<Variant>, usize), SyntaxError>)
        requires
            self.wf(),
            pos <= self.chars.len(),
        ensures
            match r {
                Ok((value, p)) => format_variants(self.chars@, pos as int, Seq::empty()) matches Ok(
                    want,
                ) && want.0 == value.deep_view() && want.1 == p && pos <= p <= self.chars.len(),
                Err(e) => format_variants(self.chars@, pos as int, Seq::empty()) matches Err(
                    want,
                ) && want == e@,
            },
    {
        let mut acc: Vec<Variant> = Vec::new();
        let mut at: usize = pos;
        assert(acc.deep_view() =~= Seq::<VariantView>::empty());
        loop
            invariant
                self.wf(),
                pos <= at <= self.chars.len(),
                format_variants(self.chars@, pos as int, Seq::empty()) == format_variants(
                    self.chars@,
                    at as int,
                    acc.deep_view(),
                ),
            decreases self.chars.len() - at,
        {
            if self.peek(at, "}") {
                return Ok((acc, self.accept(at, "}")));
            }
            let (v, q) = self.format_variant(at)?;
            if at < q {
                let ghost before = acc.deep_view();
                let ghost added = v@;
                acc.push(v);
                assert(acc.deep_view() =~= before.push(added));
                at = q;
            } else {
                return self.error(at, "expected a variant");
            }
        }
    }

    /// A variant of a generic group.
    pub fn group_variant(&self, pos: usize) -> (r: Result<(GroupVariant, usize), SyntaxError>)
        requires
            self.wf(),
            pos <= self.chars.len(),
        ensures
            match r {
                Ok((value, p)) => group_variant(self.chars@, pos as int) matches Ok(want)
                    && want.0 == value@ && want.1 == p && pos <= p <= self.chars.len(),
                Err(e) => group_variant(self.chars@, pos as int) matches Err(want) && want == e@,
            },
    {
        let (type_id, q) = self.number(pos)?;
        let q1 = self.expect(q, "=>")?;
        let (name, span, q2) = self.ident(q1)?;
        let q3 = self.expect(q2, "(")?;
        let (typ, _, q4) = self.ident(q3)?;
        let q5 = self.expect(q4, ")")?;
        Ok((GroupVariant { type_id, name, typ, span }, self.accept(q5, ",")))
    }

    /// The variants of a generic group up to the closing brace.
    pub fn group_variants(&self, pos: usize) -> (r: Result<(Vec<GroupVariant>, usize), SyntaxError>)
        requires
            self.wf(),
            pos <= self.chars.len(),
        ensures
            match r {
                Ok((value, p)) => group_variants(self.chars@, pos as int, Seq::empty()) matches Ok(
                    want,
                ) && want.0 == value.deep_view() && want.1 == p && pos <= p <= self.chars.len(),
                Err(e) => group_variants(self.chars@, pos as int, Seq::empty()) matches Err(want)
                    && want == e@,
            },
    {
        let mut acc: Vec<GroupVariant> = Vec::new();
        let mut at: usize = pos;
        assert(acc.deep_view() =~= Seq::<GroupVariantView>::empty());
        loop
            invariant
                self.wf(),
                pos <= at <= self.chars.len(),
                group_variants(self.chars@, pos as int, Seq::empty()) == group_variants(
                    self.chars@,
                    at as int,
                    acc.deep_view(),
                ),
            decreases self.chars.len() - at,
        {
            if self.peek(at, "}") {
                return Ok((acc, self.accept(at, "}")));
            }
            let (v, q) = self.group_variant(at)?;
            if at < q {
                let ghost before = acc.deep_view();
                let ghost added = v@;
                acc.push(v);
                assert(acc.deep_view() =~= before.push(added));
                at = q;
            } else {
                return self.error(at, "expected a variant");
            }
        }
    }

    /// The head of a generic group behind its keyword.
    pub fn group_head(&self, pos: usize) -> (r: Result<(String, String, String, usize), SyntaxError>)
        requires
            self.wf(),
            pos <= self.chars.len(),
        ensures
            match r {
                Ok((name, inner_type, inner_field, p)) => group_head(
                    self.chars@,
                    pos as int,
                ) matches Ok(want) && want.0 == name@ && want.1 == inner_type@ && want.2
                    == inner_field@ && want.3 == p && pos <= p <= self.chars.len(),
                Err(e) => group_head(self.chars@, pos as int) matches Err(want) && want == e@,
            },
    {
        let (name, _, q) = self.ident(pos)?;
        let q1 = self.expect(q, "(")?;
        let (inner_type, _, q2) = self.ident(q1)?;
        let q3 = self.expect(q2, ",")?;
        let q4 = self.expect(q3, "$")?;
        let (inner_field, _, q5) = self.ident(q4)?;
        let q6 = self.expect(q5, ")")?;
        let q7 = self.expect(q6, "{")?;
        Ok((name, inner_type, inner_field, q7))
    }

    /// A named value.
    pub fn raw_variant(&self, pos: usize) -> (r: Result<(RawVariant, usize), SyntaxError>)
        requires
            self.wf(),
            pos <= self.chars.len(),
        ensures
            match r {
                Ok((value, p)) => raw_variant(self.chars@, pos as int) matches Ok(want) && want.0
                    == value@ && want.1 == p && pos <= p <= self.chars.len(),
                Err(e) => raw_variant(self.chars@, pos as int) matches Err(want) && want == e@,
            },
    {
        let (docs, p) = self.docs(pos);
        let (name, _, q) = self.ident(p)?;
        let q1 = self.expect(q, "=")?;
        let (value, q2) = self.number(q1)?;
        Ok((RawVariant { docs, name, value }, self.accept(q2, ",")))
    }

    /// The named values up to the closing brace.
    pub fn raw_variants(&self, pos: usize) -> (r: Result<(Vec<RawVariant>, usize), SyntaxError>)
        requires
            self.wf(),
            pos <= self.chars.len(),
        ensures
            match r {
                Ok((value, p)) => raw_variants(self.chars@, pos as int, Seq::empty()) matches Ok(
                    want,
                ) && want.0 == value.deep_view() && want.1 == p && pos <= p <= self.chars.len(),
                Err(e) => raw_variants(self.chars@, pos as int, Seq::empty()) matches Err(want)
                    && want == e@,
            },
    {
        let mut acc: Vec<RawVariant> = Vec::new();
        let mut at: usize = pos;
        assert(acc.deep_view() =~= Seq::<RawVariantView>::empty());
        loop
            invariant
                self.wf(),
                pos <= at <= self.chars.len(),
                raw_variants(self.chars@, pos as int, Seq::empty()) == raw_variants(
                    self.chars@,
                    at as int,
                    acc.deep_view(),
                ),
            decreases self.chars.len() - at,
        {
            if self.peek(at, "}") {
                return Ok((acc, self.accept(at, "}")));
            }
            let (v, q) = self.raw_variant(at)?;
            if at < q {
                let ghost before = acc.deep_view();
                let ghost added = v@;
                acc.push(v);
                assert(acc.deep_view() =~= before.push(added));
                at = q;
            } else {
                return self.error(at, "expected a name");
            }
        }
    }

    /// The names of an `extern` block up to the closing brace, each
    /// added to `acc` as an item.
    pub fn externs(&self, pos: usize, acc: Vec<Item>) -> (r: Result<(Vec<Item>, usize), SyntaxError>)
        requires
            self.wf(),
            pos <= self.chars.len(),
        ensures
            match r {
                Ok((value, p)) => externs(self.chars@, pos as int, acc.deep_view()) matches Ok(
                    want,
                ) && want.0 == value.deep_view() && want.1 == p && pos <= p <= self.chars.len(),
                Err(e) => externs(self.chars@, pos as int, acc.deep_view()) matches Err(want)
                    && want == e@,
            },
    {
        let ghost given = acc.deep_view();
        let mut found = acc;
        let mut at: usize = pos;
        loop
            invariant
                self.wf(),
                pos <= at <= self.chars.len(),
                given == acc.deep_view(),
                externs(self.chars@, pos as int, given) == externs(
                    self.chars@,
                    at as int,
                    found.deep_view(),
                ),
            decreases self.chars.len() - at,
        {
            if self.peek(at, "}") {
                return Ok((found, self.accept(at, "}")));
            }
            let (name, _, q) = self.ident(at)?;
            let next = self.accept(q, ",");
            if at < next {
                let ghost before = found.deep_view();
                let ghost added = ItemView::Extern(name@);
                found.push(Item::Extern(Extern { name }));
                assert(found.deep_view() =~= before.push(added));
                at = next;
            } else {
                return self.error(at, "expected a name");
            }
        }
    }

    /// The body of a record or table behind its keyword.
    pub fn fields_item(&self, pos: usize, args: Option<TableReadArgs>) -> (r: Result<
        (String, Fields, usize),
        SyntaxError,
    >)
        requires
            self.wf(),
            pos <= self.chars.len(),
        ensures
            match r {
                Ok((name, fields, p)) => fields_item(self.chars@, pos as int, args.deep_view()) matches Ok(
                    want,
                ) && want.0 == name@ && want.1 == fields@ && want.2 == p && pos <= p
                    <= self.chars.len(),
                Err(e) => fields_item(self.chars@, pos as int, args.deep_view()) matches Err(
                    want,
                ) && want == e@,
            },
    {
        let (name, _, q) = self.ident(pos)?;
        let q1 = self.expect(self.accept(q, "<'a>"), "{")?;
        let (list, q2) = self.field_list(q1)?;
        let mut fields = match Fields::new(list) {
            Ok(fields) => fields,
            Err(_) => {
                assert(false);
                vstd::pervasive::unreached()
            },
        };
        fields.read_args = args;
        Ok((name, fields, q2))
    }

    /// The head of an item over a scalar behind its keyword.
    pub fn scalar_head(&self, pos: usize) -> (r: Result<(String, String, usize), SyntaxError>)
        requires
            self.wf(),
            pos <= self.chars.len(),
        ensures
            match r {
                Ok((typ, name, p)) => scalar_head(self.chars@, pos as int) matches Ok(want)
                    && want.0 == typ@ && want.1 == name@ && want.2 == p && pos <= p
                    <= self.chars.len(),
                Err(e) => scalar_head(self.chars@, pos as int) matches Err(want) && want == e@,
            },
    {
        let (typ, _, q) = self.ident(pos)?;
        let (name, _, q1) = self.ident(q)?;
        let q2 = self.expect(q1, "{")?;
        Ok((typ, name, q2))
    }

    /// An item, added to `acc`.
    pub fn item(&self, pos: usize, acc: Vec<Item>) -> (r: Result<(Vec<Item>, usize), SyntaxError>)
        requires
            self.wf(),
            pos <= self.chars.len(),
        ensures
            match r {
                Ok((value, p)) => item(self.chars@, pos as int, acc.deep_view()) matches Ok(want)
                    && want.0 == value.deep_view() && want.1 == p && pos <= p
                    <= self.chars.len(),
                Err(e) => item(self.chars@, pos as int, acc.deep_view()) matches Err(want)
                    && want == e@,
            },
    {
        let ghost given = acc.deep_view();
        let mut found = acc;
        let (docs, args, p) = self.item_prefix(pos)?;
        let (keyword, span, q) = self.ident(p)?;
        if is_word(&keyword, "record") {
            let (name, fields, q1) = self.fields_item(q, args)?;
            let made = Item::Record(Record { docs, name, fields });
            let ghost added = made@;
            found.push(made);
            assert(found.deep_view() =~= given.push(added));
            Ok((found, q1))
        } else if is_word(&keyword, "table") {
            let (name, fields, q1) = self.fields_item(q, args)?;
            let made = Item::Table(Table { docs, name, fields });
            let ghost added = made@;
            found.push(made);
            assert(found.deep_view() =~= given.push(added));
            Ok((found, q1))
        } else if is_word(&keyword, "flags") {
            let (typ, name, q1) = self.scalar_head(q)?;
            let (variants, q2) = self.raw_variants(q1)?;
            let made = Item::Flags(BitFlags { docs, name, typ, variants });
            let ghost added = made@;
            found.push(made);
            assert(found.deep_view() =~= given.push(added));
            Ok((found, q2))
        } else if is_word(&keyword, "enum") {
            let (typ, name, q1) = self.scalar_head(q)?;
            let (variants, q2) = self.raw_variants(q1)?;
            let made = Item::RawEnum(RawEnum { docs, name, typ, variants });
            let ghost added = made@;
            found.push(made);
            assert(found.deep_view() =~= given.push(added));
            Ok((found, q2))
        } else if is_word(&keyword, "format") {
            let (typ, name, q1) = self.scalar_head(q)?;
            let (variants, q2) = self.format_variants(q1)?;
            let made = Item::Format(TableFormat { docs, format: typ, name, variants });
            let ghost added = made@;
            found.push(made);
            assert(found.deep_view() =~= given.push(added));
            Ok((found, q2))
        } else if is_word(&keyword, "group") {
            let (name, inner_type, inner_field, q1) = self.group_head(q)?;
            let (variants, q2) = self.group_variants(q1)?;
            let made = Item::GenericGroup(
                GenericGroup { docs, name, inner_type, inner_field, variants },
            );
            let ghost added = made@;
            found.push(made);
            assert(found.deep_view() =~= given.push(added));
            Ok((found, q2))
        } else if is_word(&keyword, "extern") {
            let q1 = self.expect(q, "{")?;
            self.externs(q1, found)
        } else {
            self.error(span.start, "expected an item")
        }
    }

    /// The items up to the end of the text.
    pub fn items(&self, pos: usize) -> (r: Result<Vec<Item>, SyntaxError>)
        requires
            self.wf(),
            pos <= self.chars.len(),
        ensures
            match r {
                Ok(value) => items(self.chars@, pos as int, Seq::empty()) matches Ok(want)
                    && want == value.deep_view(),
                Err(e) => items(self.chars@, pos as int, Seq::empty()) matches Err(want) && want
                    == e@,
            },
    {
        let mut acc: Vec<Item> = Vec::new();
        let mut at: usize = pos;
        assert(acc.deep_view() =~= Seq::<ItemView>::empty());
        loop
            invariant
                self.wf(),
                pos <= at <= self.chars.len(),
                items(self.chars@, pos as int, Seq::empty()) == items(
                    self.chars@,
                    at as int,
                    acc.deep_view(),
                ),
            decreases self.chars.len() - at,
        {
            if self.skip(at) >= self.chars.len() {
                return Ok(acc);
            }
            let (found, q) = self.item(at, acc)?;
            if at < q {
                acc = found;
                at = q;
            } else {
                return self.error(at, "expected an item");
            }
        }
    }

    /// The line that names the parse module.
    pub fn pragma(&self) -> (r: Result<(String, usize), SyntaxError>)
        requires
            self.wf(),
        ensures
            match r {
                Ok((path, p)) => pragma(self.chars@) matches Ok(want) && want.0 == path@
                    && want.1 == p && p <= self.chars.len(),
                Err(e) => pragma(self.chars@) matches Err(want) && want == e@,
            },
    {
        let p = self.expect(0, "#![")?;
        let (name, span, q) = self.ident(p)?;
        if !is_word(&name, "parse_module") {
            return self.error(span.start, "expected `parse_module`");
        }
        let q1 = self.expect(q, "(")?;
        let start = self.skip(q1);
        let end = self.scan(start, CharClass::Path);
        if start < end {
            let q2 = self.expect(end, ")")?;
            let q3 = self.expect(q2, "]")?;
            Ok((self.slice(start, end), q3))
        } else {
            self.error(start, "expected a path")
        }
    }
}

/// Reads a schema.
///
/// The result is the schema that the grammar gives for the text, or the
/// first place at which the text is not written as the grammar asks.
pub fn parse_schema(text: &str) -> (r: Result<Items, SyntaxError>)
    ensures
        match r {
            Ok(found) => schema(text@) matches Ok(want) && want == found@,
            Err(e) => schema(text@) matches Err(want) && want == e@,
        },
{
    let src = Source::new(text);
    let (path, p) = src.pragma()?;
    let found = src.items(p)?;
    Ok(Items { parse_module_path: path, items: found })
}

} // verus!
