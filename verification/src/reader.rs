//! The grammar of the schema language: expressions, attributes, types
//! and fields.

use crate::lexer::{
    CharClass, Source, SyntaxError, SyntaxErrorView, accept, at, error_at, expect, ident,
    is_digit, number, peek, scan, skip,
};
use crate::parsing::{
    Count, CountView, CustomArray, CustomArrayView, Expr, ExprView, Field, FieldAttrs,
    FieldAttrsView, FieldReadArgs, FieldReadArgsView, FieldType, FieldTypeView, FieldView, Op,
    Span,
};
use vstd::prelude::*;

verus! {

/// How deep expressions and types may nest.
pub const MAX_DEPTH: u32 = 32;

/// The operator that `name` names.
pub open spec fn op_of(name: Seq<char>) -> Option<Op> {
    if name == "add"@ {
        Some(Op::Add)
    } else if name == "sub"@ {
        Some(Op::Sub)
    } else if name == "mul"@ {
        Some(Op::Mul)
    } else {
        None
    }
}

/// Whether `name` is one of the scalar types that the runtime defines.
pub open spec fn is_scalar_name(name: Seq<char>) -> bool {
    name == "u8"@ || name == "i8"@ || name == "u16"@ || name == "i16"@ || name == "u32"@ || name
        == "i32"@ || name == "Uint24"@ || name == "Int24"@ || name == "Fixed"@ || name
        == "F2Dot14"@ || name == "FWord"@ || name == "UfWord"@ || name == "LongDateTime"@ || name
        == "Tag"@ || name == "Version16Dot16"@ || name == "MajorMinor"@ || name == "GlyphId"@
}

/// Whether `name` is one of the offset types.
pub open spec fn is_offset_name(name: Seq<char>) -> bool {
    name == "Offset16"@ || name == "Offset24"@ || name == "Offset32"@
}

/// An expression: `$name`, a number, or an operator applied to two
/// expressions.
pub open spec fn expr(s: Seq<char>, pos: int, depth: nat) -> Result<(ExprView, int), SyntaxErrorView>
    decreases depth,
{
    let p = skip(s, pos);
    if at(s, p, "$"@) {
        match ident(s, p + 1) {
            Ok((name, span, q)) => Ok((ExprView::Field(name), q)),
            Err(e) => Err(e),
        }
    } else if p < s.len() && is_digit(s[p]) {
        match number(s, p) {
            Ok((value, q)) => Ok((ExprView::Literal(value), q)),
            Err(e) => Err(e),
        }
    } else {
        match ident(s, p) {
            Err(e) => Err(e),
            Ok((name, span, q)) => match op_of(name) {
                None => Err(error_at(p, "expected `add`, `sub` or `mul`"@)),
                Some(op) => if depth == 0 {
                    Err(error_at(p, "the expression nests too deeply"@))
                } else {
                    match expect(s, q, "("@) {
                        Err(e) => Err(e),
                        Ok(q1) => match expr(s, q1, (depth - 1) as nat) {
                            Err(e) => Err(e),
                            Ok((lhs, q2)) => match expect(s, q2, ","@) {
                                Err(e) => Err(e),
                                Ok(q3) => match expr(s, q3, (depth - 1) as nat) {
                                    Err(e) => Err(e),
                                    Ok((rhs, q4)) => match expect(s, q4, ")"@) {
                                        Err(e) => Err(e),
                                        Ok(q5) => Ok(
                                            (
                                                ExprView::Call {
                                                    op,
                                                    lhs: Box::new(lhs),
                                                    rhs: Box::new(rhs),
                                                },
                                                q5,
                                            ),
                                        ),
                                    },
                                },
                            },
                        },
                    }
                },
            },
        }
    }
}

/// A count: `..`, `$name`, a number, or an expression.
pub open spec fn count(s: Seq<char>, pos: int) -> Result<(CountView, int), SyntaxErrorView> {
    let p = skip(s, pos);
    if at(s, p, ".."@) {
        Ok((CountView::All, p + 2))
    } else {
        match expr(s, p, MAX_DEPTH as nat) {
            Err(e) => Err(e),
            Ok((ExprView::Field(name), q)) => Ok((CountView::Field(name), q)),
            Ok((ExprView::Literal(value), q)) => Ok((CountView::Literal(value), q)),
            Ok((e, q)) => Ok((CountView::Expr(e), q)),
        }
    }
}

/// The arguments of `read_with_args`, added to `acc`: `$name`, and more
/// of them behind commas.
pub open spec fn args(s: Seq<char>, pos: int, acc: Seq<Seq<char>>) -> Result<
    (Seq<Seq<char>>, int),
    SyntaxErrorView,
>
    decreases s.len() - pos,
{
    match expect(s, pos, "$"@) {
        Err(e) => Err(e),
        Ok(p) => match ident(s, p) {
            Err(e) => Err(e),
            Ok((name, span, q)) => if peek(s, q, ","@) && pos < accept(s, q, ","@) <= s.len() {
                args(s, accept(s, q, ","@), acc.push(name))
            } else {
                Ok((acc.push(name), q))
            },
        },
    }
}

/// What stands in the parentheses of an attribute.
pub enum AttrValue {
    Number(u32),
    Expr(ExprView),
    Count(CountView),
    Name(Seq<char>),
    Args(Seq<Seq<char>>),
}

/// The kinds of what stands in the parentheses of an attribute.
#[derive(Debug, Clone, Copy, PartialEq, Eq, Structural)]
pub enum AttrKind {
    Number,
    Expr,
    Count,
    Name,
    Args,
}

/// What stands at `pos` as a value of `kind`.
pub open spec fn attr_value(s: Seq<char>, pos: int, kind: AttrKind) -> Result<
    (AttrValue, int),
    SyntaxErrorView,
> {
    match kind {
        AttrKind::Number => match number(s, pos) {
            Ok((value, q)) => Ok((AttrValue::Number(value), q)),
            Err(e) => Err(e),
        },
        AttrKind::Expr => match expr(s, pos, MAX_DEPTH as nat) {
            Ok((value, q)) => Ok((AttrValue::Expr(value), q)),
            Err(e) => Err(e),
        },
        AttrKind::Count => match count(s, pos) {
            Ok((value, q)) => Ok((AttrValue::Count(value), q)),
            Err(e) => Err(e),
        },
        AttrKind::Name => match ident(s, pos) {
            Ok((value, span, q)) => Ok((AttrValue::Name(value), q)),
            Err(e) => Err(e),
        },
        AttrKind::Args => match args(s, pos, Seq::empty()) {
            Ok((value, q)) => Ok((AttrValue::Args(value), q)),
            Err(e) => Err(e),
        },
    }
}

/// A value of `kind` in parentheses.
pub open spec fn parens(s: Seq<char>, pos: int, kind: AttrKind) -> Result<
    (AttrValue, int),
    SyntaxErrorView,
> {
    match expect(s, pos, "("@) {
        Err(e) => Err(e),
        Ok(p) => match attr_value(s, p, kind) {
            Err(e) => Err(e),
            Ok((value, q)) => match expect(s, q, ")"@) {
                Err(e) => Err(e),
                Ok(q1) => Ok((value, q1)),
            },
        },
    }
}

/// The attributes that take nothing.
pub open spec fn is_flag_attr(name: Seq<char>) -> bool {
    name == "nullable"@ || name == "skip_getter"@ || name == "skip_offset_getter"@
}

/// What an attribute that takes something in parentheses takes.
pub open spec fn attr_kind(name: Seq<char>) -> Option<AttrKind> {
    if name == "count"@ {
        Some(AttrKind::Count)
    } else if name == "len"@ || name == "compile"@ {
        Some(AttrKind::Expr)
    } else if name == "read_with_args"@ {
        Some(AttrKind::Args)
    } else if name == "available"@ {
        Some(AttrKind::Number)
    } else if name == "compile_type"@ {
        Some(AttrKind::Name)
    } else {
        None
    }
}

impl FieldAttrsView {
    /// No attributes.
    pub open spec fn none() -> FieldAttrsView {
        FieldAttrsView {
            docs: Seq::empty(),
            nullable: false,
            available: None,
            skip_getter: false,
            skip_offset_getter: false,
            count: None,
            len: None,
            read_with_args: None,
            format: None,
            compile: None,
            compile_type: None,
            len_span: Span { start: 0, end: 0 },
            read_with_args_span: Span { start: 0, end: 0 },
        }
    }

    /// The attributes with the flag `name` set.
    pub open spec fn with_flag(self, name: Seq<char>) -> FieldAttrsView {
        if name == "nullable"@ {
            FieldAttrsView { nullable: true, ..self }
        } else if name == "skip_getter"@ {
            FieldAttrsView { skip_getter: true, ..self }
        } else {
            FieldAttrsView { skip_offset_getter: true, ..self }
        }
    }

    /// The attributes with `name`, which stands at `span`, set to
    /// `value`.
    pub open spec fn with_value(self, name: Seq<char>, value: AttrValue, span: Span) -> FieldAttrsView {
        match value {
            AttrValue::Count(count) => FieldAttrsView { count: Some(count), ..self },
            AttrValue::Expr(e) => if name == "len"@ {
                FieldAttrsView { len: Some(e), len_span: span, ..self }
            } else {
                FieldAttrsView { compile: Some(e), ..self }
            },
            AttrValue::Args(inputs) => FieldAttrsView {
                read_with_args: Some(FieldReadArgsView { inputs }),
                read_with_args_span: span,
                ..self
            },
            AttrValue::Number(version) => FieldAttrsView { available: Some(version), ..self },
            AttrValue::Name(typ) => FieldAttrsView { compile_type: Some(typ), ..self },
        }
    }
}

/// One attribute behind its `#[`, added to `attrs`.
#[verifier::opaque]
pub open spec fn attr(s: Seq<char>, pos: int, attrs: FieldAttrsView) -> Result<
    (FieldAttrsView, int),
    SyntaxErrorView,
> {
    match ident(s, pos) {
        Err(e) => Err(e),
        Ok((name, span, q)) => {
            let set = if is_flag_attr(name) {
                Ok((attrs.with_flag(name), q))
            } else if name == "format"@ {
                match expect(s, q, "="@) {
                    Err(e) => Err(e),
                    Ok(q1) => match number(s, q1) {
                        Err(e) => Err(e),
                        Ok((value, q2)) => Ok(
                            (FieldAttrsView { format: Some(value), ..attrs }, q2),
                        ),
                    },
                }
            } else {
                match attr_kind(name) {
                    None => Err(error_at(span.start as int, "unknown attribute"@)),
                    Some(kind) => match parens(s, q, kind) {
                        Err(e) => Err(e),
                        Ok((value, q1)) => Ok((attrs.with_value(name, value, span), q1)),
                    },
                }
            };
            match set {
                Err(e) => Err(e),
                Ok((attrs, q1)) => match expect(s, q1, "]"@) {
                    Err(e) => Err(e),
                    Ok(q2) => Ok((attrs, q2)),
                },
            }
        },
    }
}

/// What stands before a field, added to `attrs`: lines of documentation
/// and attributes, in any order.
pub open spec fn prefix(s: Seq<char>, pos: int, attrs: FieldAttrsView) -> Result<
    (FieldAttrsView, int),
    SyntaxErrorView,
>
    decreases s.len() - pos,
{
    let p = skip(s, pos);
    if at(s, p, "///"@) {
        let e = scan(s, p + 3, CharClass::Line);
        if pos < e <= s.len() {
            prefix(s, e, FieldAttrsView { docs: attrs.docs.push(s.subrange(p + 3, e)), ..attrs })
        } else {
            Err(error_at(p, "expected a field"@))
        }
    } else if at(s, p, "#["@) {
        match attr(s, p + 2, attrs) {
            Err(e) => Err(e),
            Ok((attrs, q)) => if pos < q <= s.len() {
                prefix(s, q, attrs)
            } else {
                Err(error_at(p, "expected a field"@))
            },
        }
    } else {
        Ok((attrs, p))
    }
}

/// The type behind the name of an offset type: with its target in
/// angle brackets, or without one.
pub open spec fn offset_type(s: Seq<char>, pos: int, name: Seq<char>) -> Result<
    (FieldTypeView, int),
    SyntaxErrorView,
> {
    if peek(s, pos, "<"@) {
        match ident(s, accept(s, pos, "<"@)) {
            Err(e) => Err(e),
            Ok((target, span, q)) => match expect(s, q, ">"@) {
                Err(e) => Err(e),
                Ok(q1) => Ok((FieldTypeView::Offset { typ: name, target: Some(target) }, q1)),
            },
        }
    } else {
        Ok((FieldTypeView::Offset { typ: name, target: None }, pos))
    }
}

/// The type behind `ComputedArray`, which stands at `span`: the element
/// type in angle brackets, with `<'a>` behind it where it borrows from
/// the font data.
pub open spec fn computed_array_type(s: Seq<char>, pos: int, span: Span) -> Result<
    (FieldTypeView, int),
    SyntaxErrorView,
> {
    match expect(s, pos, "<"@) {
        Err(e) => Err(e),
        Ok(p) => match ident(s, p) {
            Err(e) => Err(e),
            Ok((inner, inner_span, q)) => {
                let lifetime = peek(s, q, "<'a>"@);
                match expect(s, accept(s, q, "<'a>"@), ">"@) {
                    Err(e) => Err(e),
                    Ok(q1) => Ok(
                        (
                            FieldTypeView::ComputedArray(CustomArrayView { inner, lifetime, span }),
                            q1,
                        ),
                    ),
                }
            },
        }
    }
}

/// A type: an array of a type in square brackets, an offset, a computed
/// array, a scalar that the runtime defines, or the name of another
/// type.
pub open spec fn typ(s: Seq<char>, pos: int, depth: nat) -> Result<
    (FieldTypeView, int),
    SyntaxErrorView,
>
    decreases depth,
{
    let p = skip(s, pos);
    if at(s, p, "["@) {
        if depth == 0 {
            Err(error_at(p, "the type nests too deeply"@))
        } else {
            match typ(s, p + 1, (depth - 1) as nat) {
                Err(e) => Err(e),
                Ok((inner, q)) => match expect(s, q, "]"@) {
                    Err(e) => Err(e),
                    Ok(q1) => Ok((FieldTypeView::Array { inner_typ: Box::new(inner) }, q1)),
                },
            }
        }
    } else {
        match ident(s, p) {
            Err(e) => Err(e),
            Ok((name, span, q)) => if is_offset_name(name) {
                offset_type(s, q, name)
            } else if name == "ComputedArray"@ {
                computed_array_type(s, q, span)
            } else if is_scalar_name(name) {
                Ok((FieldTypeView::Scalar { typ: name }, q))
            } else {
                Ok((FieldTypeView::Other { typ: name }, q))
            },
        }
    }
}

/// A field: what stands before it, its name, a colon, its type, and a
/// comma if one follows.
pub open spec fn field(s: Seq<char>, pos: int) -> Result<(FieldView, int), SyntaxErrorView> {
    match prefix(s, pos, FieldAttrsView::none()) {
        Err(e) => Err(e),
        Ok((attrs, p)) => match ident(s, p) {
            Err(e) => Err(e),
            Ok((name, span, q)) => match expect(s, q, ":"@) {
                Err(e) => Err(e),
                Ok(q1) => match typ(s, q1, MAX_DEPTH as nat) {
                    Err(e) => Err(e),
                    Ok((typ, q2)) => Ok(
                        (
                            FieldView { name, typ, attrs, read_at_parse_time: false, span },
                            accept(s, q2, ","@),
                        ),
                    ),
                },
            },
        },
    }
}

/// The fields up to the closing brace, added to `acc`.
pub open spec fn field_list(s: Seq<char>, pos: int, acc: Seq<FieldView>) -> Result<
    (Seq<FieldView>, int),
    SyntaxErrorView,
>
    decreases s.len() - pos,
{
    if peek(s, pos, "}"@) {
        Ok((acc, accept(s, pos, "}"@)))
    } else {
        match field(s, pos) {
            Err(e) => Err(e),
            Ok((f, q)) => if pos < q <= s.len() {
                field_list(s, q, acc.push(f))
            } else {
                Err(error_at(pos, "expected a field"@))
            },
        }
    }
}

impl FieldAttrs {
    /// No attributes.
    pub fn none() -> (attrs: FieldAttrs)
        ensures
            attrs@ == FieldAttrsView::none(),
    {
        let docs: Vec<String> = Vec::new();
        assert(docs.deep_view() =~= Seq::<Seq<char>>::empty());
        FieldAttrs {
            docs,
            nullable: false,
            available: None,
            skip_getter: false,
            skip_offset_getter: false,
            count: None,
            len: None,
            read_with_args: None,
            format: None,
            compile: None,
            compile_type: None,
            len_span: Span { start: 0, end: 0 },
            read_with_args_span: Span { start: 0, end: 0 },
        }
    }
}

/// Whether `name` spells `word`.
pub fn is_word(name: &String, word: &str) -> (r: bool)
    ensures
        r == (name@ == word@),
{
    *name == String::from_str(word)
}

fn op_named(name: &String) -> (op: Option<Op>)
    ensures
        op == op_of(name@),
{
    if is_word(name, "add") {
        Some(Op::Add)
    } else if is_word(name, "sub") {
        Some(Op::Sub)
    } else if is_word(name, "mul") {
        Some(Op::Mul)
    } else {
        None
    }
}

fn scalar_named(name: &String) -> (r: bool)
    ensures
        r == is_scalar_name(name@),
{
    is_word(name, "u8") || is_word(name, "i8") || is_word(name, "u16") || is_word(name, "i16")
        || is_word(name, "u32") || is_word(name, "i32") || is_word(name, "Uint24") || is_word(
        name,
        "Int24",
    ) || is_word(name, "Fixed") || is_word(name, "F2Dot14") || is_word(name, "FWord") || is_word(
        name,
        "UfWord",
    ) || is_word(name, "LongDateTime") || is_word(name, "Tag") || is_word(
        name,
        "Version16Dot16",
    ) || is_word(name, "MajorMinor") || is_word(name, "GlyphId")
}

fn offset_named(name: &String) -> (r: bool)
    ensures
        r == is_offset_name(name@),
{
    is_word(name, "Offset16") || is_word(name, "Offset24") || is_word(name, "Offset32")
}

fn flag_attr_named(name: &String) -> (r: bool)
    ensures
        r == is_flag_attr(name@),
{
    is_word(name, "nullable") || is_word(name, "skip_getter") || is_word(
        name,
        "skip_offset_getter",
    )
}

fn attr_kind_named(name: &String) -> (kind: Option<AttrKind>)
    ensures
        kind == attr_kind(name@),
{
    if is_word(name, "count") {
        Some(AttrKind::Count)
    } else if is_word(name, "len") || is_word(name, "compile") {
        Some(AttrKind::Expr)
    } else if is_word(name, "read_with_args") {
        Some(AttrKind::Args)
    } else if is_word(name, "available") {
        Some(AttrKind::Number)
    } else if is_word(name, "compile_type") {
        Some(AttrKind::Name)
    } else {
        None
    }
}

/// What stands in the parentheses of an attribute.
pub enum AttrParsed {
    Number(u32),
    Expr(Expr),
    Count(Count),
    Name(String),
    Args(Vec<String>),
}

impl View for AttrParsed {
    type V = AttrValue;

    open spec fn view(&self) -> AttrValue {
        match self {
            AttrParsed::Number(value) => AttrValue::Number(*value),
            AttrParsed::Expr(value) => AttrValue::Expr(value@),
            AttrParsed::Count(value) => AttrValue::Count(value@),
            AttrParsed::Name(value) => AttrValue::Name(value@),
            AttrParsed::Args(value) => AttrValue::Args(value.deep_view()),
        }
    }
}

impl<'a> Source<'a> {
    /// An expression.
    pub fn expr(&self, pos: usize, depth: u32) -> (r: Result<(Expr, usize), SyntaxError>)
        requires
            self.wf(),
            pos <= self.chars.len(),
        ensures
            match r {
                Ok((value, p)) => expr(self.chars@, pos as int, depth as nat) matches Ok(want)
                    && want.0 == value@ && want.1 == p && p <= self.chars.len(),
                Err(e) => expr(self.chars@, pos as int, depth as nat) matches Err(want) && want
                    == e@,
            },
        decreases depth,
    {
        let p = self.skip(pos);
        if self.at(p, "$") {
            proof {
                reveal_strlit("$");
            }
            let (name, _, q) = self.ident(p + 1)?;
            Ok((Expr::Field(name), q))
        } else if p < self.chars.len() && self.chars[p] >= '0' && self.chars[p] <= '9' {
            let (value, q) = self.number(p)?;
            Ok((Expr::Literal(value), q))
        } else {
            let (name, _, q) = self.ident(p)?;
            match op_named(&name) {
                None => self.error(p, "expected `add`, `sub` or `mul`"),
                Some(op) => {
                    if depth == 0 {
                        return self.error(p, "the expression nests too deeply");
                    }
                    let q1 = self.expect(q, "(")?;
                    let (lhs, q2) = self.expr(q1, depth - 1)?;
                    let q3 = self.expect(q2, ",")?;
                    let (rhs, q4) = self.expr(q3, depth - 1)?;
                    let q5 = self.expect(q4, ")")?;
                    Ok((Expr::Call { op, lhs: Box::new(lhs), rhs: Box::new(rhs) }, q5))
                },
            }
        }
    }

    /// A count.
    pub fn count(&self, pos: usize) -> (r: Result<(Count, usize), SyntaxError>)
        requires
            self.wf(),
            pos <= self.chars.len(),
        ensures
            match r {
                Ok((value, p)) => count(self.chars@, pos as int) matches Ok(want) && want.0
                    == value@ && want.1 == p && p <= self.chars.len(),
                Err(e) => count(self.chars@, pos as int) matches Err(want) && want == e@,
            },
    {
        let p = self.skip(pos);
        if self.at(p, "..") {
            proof {
                reveal_strlit("..");
            }
            return Ok((Count::All, p + 2));
        }
        let (e, q) = self.expr(p, MAX_DEPTH)?;
        match e {
            Expr::Field(name) => Ok((Count::Field(name), q)),
            Expr::Literal(value) => Ok((Count::Literal(value), q)),
            e => Ok((Count::Expr(e), q)),
        }
    }

    /// The arguments of `read_with_args`.
    pub fn args(&self, pos: usize) -> (r: Result<(Vec<String>, usize), SyntaxError>)
        requires
            self.wf(),
            pos <= self.chars.len(),
        ensures
            match r {
                Ok((value, p)) => args(self.chars@, pos as int, Seq::empty()) matches Ok(want)
                    && want.0 == value.deep_view() && want.1 == p && p <= self.chars.len(),
                Err(e) => args(self.chars@, pos as int, Seq::empty()) matches Err(want) && want
                    == e@,
            },
    {
        let mut acc: Vec<String> = Vec::new();
        let mut at: usize = pos;
        assert(acc.deep_view() =~= Seq::<Seq<char>>::empty());
        loop
            invariant
                self.wf(),
                pos <= at <= self.chars.len(),
                args(self.chars@, pos as int, Seq::empty()) == args(
                    self.chars@,
                    at as int,
                    acc.deep_view(),
                ),
            decreases self.chars.len() - at,
        {
            let p = self.expect(at, "$")?;
            let (name, _, q) = self.ident(p)?;
            let ghost before = acc.deep_view();
            acc.push(name);
            assert(acc.deep_view() =~= before.push(name@));
            let next = self.accept(q, ",");
            if self.peek(q, ",") && at < next {
                at = next;
            } else {
                return Ok((acc, q));
            }
        }
    }

    /// What stands at `pos` as a value of `kind`.
    pub fn attr_value(&self, pos: usize, kind: AttrKind) -> (r: Result<
        (AttrParsed, usize),
        SyntaxError,
    >)
        requires
            self.wf(),
            pos <= self.chars.len(),
        ensures
            match r {
                Ok((value, p)) => attr_value(self.chars@, pos as int, kind) matches Ok(want)
                    && want.0 == value@ && want.1 == p && p <= self.chars.len(),
                Err(e) => attr_value(self.chars@, pos as int, kind) matches Err(want) && want
                    == e@,
            },
    {
        match kind {
            AttrKind::Number => {
                let (value, q) = self.number(pos)?;
                Ok((AttrParsed::Number(value), q))
            },
            AttrKind::Expr => {
                let (value, q) = self.expr(pos, MAX_DEPTH)?;
                Ok((AttrParsed::Expr(value), q))
            },
            AttrKind::Count => {
                let (value, q) = self.count(pos)?;
                Ok((AttrParsed::Count(value), q))
            },
            AttrKind::Name => {
                let (value, _, q) = self.ident(pos)?;
                Ok((AttrParsed::Name(value), q))
            },
            AttrKind::Args => {
                let (value, q) = self.args(pos)?;
                Ok((AttrParsed::Args(value), q))
            },
        }
    }

    /// A value of `kind` in parentheses.
    pub fn parens(&self, pos: usize, kind: AttrKind) -> (r: Result<(AttrParsed, usize), SyntaxError>)
        requires
            self.wf(),
            pos <= self.chars.len(),
        ensures
            match r {
                Ok((value, p)) => parens(self.chars@, pos as int, kind) matches Ok(want)
                    && want.0 == value@ && want.1 == p && p <= self.chars.len(),
                Err(e) => parens(self.chars@, pos as int, kind) matches Err(want) && want == e@,
            },
    {
        let p = self.expect(pos, "(")?;
        let (value, q) = self.attr_value(p, kind)?;
        let q1 = self.expect(q, ")")?;
        Ok((value, q1))
    }

    /// One attribute behind its `#[`, added to `attrs`.
    pub fn attr(&self, pos: usize, attrs: FieldAttrs) -> (r: Result<(FieldAttrs, usize), SyntaxError>)
        requires
            self.wf(),
            pos <= self.chars.len(),
        ensures
            match r {
                Ok((value, p)) => attr(self.chars@, pos as int, attrs@) matches Ok(want)
                    && want.0 == value@ && want.1 == p && p <= self.chars.len(),
                Err(e) => attr(self.chars@, pos as int, attrs@) matches Err(want) && want == e@,
            },
    {
        proof {
            reveal(attr);
        }
        let mut attrs = attrs;
        let ghost given = attrs@;
        let (name, span, q) = self.ident(pos)?;
        let q1 = if flag_attr_named(&name) {
            if is_word(&name, "nullable") {
                attrs.nullable = true;
            } else if is_word(&name, "skip_getter") {
                attrs.skip_getter = true;
            } else {
                attrs.skip_offset_getter = true;
            }
            assert(attrs@ == given.with_flag(name@));
            q
        } else if is_word(&name, "format") {
            let q1 = self.expect(q, "=")?;
            let (value, q2) = self.number(q1)?;
            attrs.format = Some(value);
            q2
        } else {
            match attr_kind_named(&name) {
                None => {
                    return self.error(span.start, "unknown attribute");
                },
                Some(kind) => {
                    let (value, q1) = self.parens(q, kind)?;
                    let ghost parsed = value@;
                    match value {
                        AttrParsed::Count(count) => {
                            attrs.count = Some(count);
                        },
                        AttrParsed::Expr(e) => {
                            if is_word(&name, "len") {
                                attrs.len = Some(e);
                                attrs.len_span = span;
                            } else {
                                attrs.compile = Some(e);
                            }
                        },
                        AttrParsed::Args(inputs) => {
                            attrs.read_with_args = Some(FieldReadArgs { inputs });
                            attrs.read_with_args_span = span;
                        },
                        AttrParsed::Number(version) => {
                            attrs.available = Some(version);
                        },
                        AttrParsed::Name(typ) => {
                            attrs.compile_type = Some(typ);
                        },
                    }
                    assert(attrs@ == given.with_value(name@, parsed, span));
                    q1
                },
            }
        };
        let q2 = self.expect(q1, "]")?;
        Ok((attrs, q2))
    }

    /// What stands before a field.
    pub fn prefix(&self, pos: usize, attrs: FieldAttrs) -> (r: Result<
        (FieldAttrs, usize),
        SyntaxError,
    >)
        requires
            self.wf(),
            pos <= self.chars.len(),
        ensures
            match r {
                Ok((value, p)) => prefix(self.chars@, pos as int, attrs@) matches Ok(want)
                    && want.0 == value@ && want.1 == p && pos <= p <= self.chars.len(),
                Err(e) => prefix(self.chars@, pos as int, attrs@) matches Err(want) && want
                    == e@,
            },
    {
        let ghost given = attrs@;
        let mut found = attrs;
        let mut at: usize = pos;
        loop
            invariant
                self.wf(),
                pos <= at <= self.chars.len(),
                given == attrs@,
                prefix(self.chars@, pos as int, given) == prefix(self.chars@, at as int, found@),
            decreases self.chars.len() - at,
        {
            let p = self.skip(at);
            let ghost before = found@;
            if self.at(p, "///") {
                proof {
                    reveal_strlit("///");
                }
                let e = self.scan(p + 3, CharClass::Line);
                if at < e {
                    let line = self.slice(p + 3, e);
                    found.docs.push(line);
                    assert(found@.docs =~= before.docs.push(line@));
                    assert(found@ == (FieldAttrsView { docs: before.docs.push(line@), ..before }));
                    at = e;
                } else {
                    return self.error(p, "expected a field");
                }
            } else if self.at(p, "#[") {
                proof {
                    reveal_strlit("#[");
                }
                let (next, q) = self.attr(p + 2, found)?;
                if at < q {
                    found = next;
                    at = q;
                } else {
                    return self.error(p, "expected a field");
                }
            } else {
                return Ok((found, p));
            }
        }
    }

    /// The type behind the name of an offset type.
    fn offset_type(&self, pos: usize, name: String) -> (r: Result<(FieldType, usize), SyntaxError>)
        requires
            self.wf(),
            pos <= self.chars.len(),
        ensures
            match r {
                Ok((value, p)) => offset_type(self.chars@, pos as int, name@) matches Ok(want)
                    && want.0 == value@ && want.1 == p && pos <= p <= self.chars.len(),
                Err(e) => offset_type(self.chars@, pos as int, name@) matches Err(want) && want
                    == e@,
            },
    {
        if self.peek(pos, "<") {
            let (target, _, q) = self.ident(self.accept(pos, "<"))?;
            let q1 = self.expect(q, ">")?;
            Ok((FieldType::Offset { typ: name, target: Some(target) }, q1))
        } else {
            Ok((FieldType::Offset { typ: name, target: None }, pos))
        }
    }

    /// The type behind `ComputedArray`.
    fn computed_array_type(&self, pos: usize, span: Span) -> (r: Result<
        (FieldType, usize),
        SyntaxError,
    >)
        requires
            self.wf(),
            pos <= self.chars.len(),
        ensures
            match r {
                Ok((value, p)) => computed_array_type(self.chars@, pos as int, span) matches Ok(
                    want,
                ) && want.0 == value@ && want.1 == p && pos <= p <= self.chars.len(),
                Err(e) => computed_array_type(self.chars@, pos as int, span) matches Err(want)
                    && want == e@,
            },
    {
        let p = self.expect(pos, "<")?;
        let (inner, _, q) = self.ident(p)?;
        let lifetime = self.peek(q, "<'a>");
        let q1 = self.expect(self.accept(q, "<'a>"), ">")?;
        Ok((FieldType::ComputedArray(CustomArray { inner, lifetime, span }), q1))
    }

    /// A type.
    pub fn typ(&self, pos: usize, depth: u32) -> (r: Result<(FieldType, usize), SyntaxError>)
        requires
            self.wf(),
            pos <= self.chars.len(),
        ensures
            match r {
                Ok((value, p)) => typ(self.chars@, pos as int, depth as nat) matches Ok(want)
                    && want.0 == value@ && want.1 == p && pos <= p <= self.chars.len(),
                Err(e) => typ(self.chars@, pos as int, depth as nat) matches Err(want) && want
                    == e@,
            },
        decreases depth,
    {
        let p = self.skip(pos);
        if self.at(p, "[") {
            proof {
                reveal_strlit("[");
            }
            if depth == 0 {
                return self.error(p, "the type nests too deeply");
            }
            let (inner, q) = self.typ(p + 1, depth - 1)?;
            let q1 = self.expect(q, "]")?;
            Ok((FieldType::Array { inner_typ: Box::new(inner) }, q1))
        } else {
            let (name, span, q) = self.ident(p)?;
            if offset_named(&name) {
                self.offset_type(q, name)
            } else if is_word(&name, "ComputedArray") {
                self.computed_array_type(q, span)
            } else if scalar_named(&name) {
                Ok((FieldType::Scalar { typ: name }, q))
            } else {
                Ok((FieldType::Other { typ: name }, q))
            }
        }
    }

    /// A field.
    pub fn field(&self, pos: usize) -> (r: Result<(Field, usize), SyntaxError>)
        requires
            self.wf(),
            pos <= self.chars.len(),
        ensures
            match r {
                Ok((value, p)) => field(self.chars@, pos as int) matches Ok(want) && want.0
                    == value@ && want.1 == p && pos <= p <= self.chars.len(),
                Err(e) => field(self.chars@, pos as int) matches Err(want) && want == e@,
            },
    {
        let (attrs, p) = self.prefix(pos, FieldAttrs::none())?;
        let (name, span, q) = self.ident(p)?;
        let q1 = self.expect(q, ":")?;
        let (typ, q2) = self.typ(q1, MAX_DEPTH)?;
        Ok((Field { name, typ, attrs, read_at_parse_time: false, span }, self.accept(q2, ",")))
    }

    /// The fields up to the closing brace.
    pub fn field_list(&self, pos: usize) -> (r: Result<(Vec<Field>, usize), SyntaxError>)
        requires
            self.wf(),
            pos <= self.chars.len(),
        ensures
            match r {
                Ok((value, p)) => field_list(self.chars@, pos as int, Seq::empty()) matches Ok(
                    want,
                ) && want.0 == value.deep_view() && want.1 == p && pos <= p <= self.chars.len(),
                Err(e) => field_list(self.chars@, pos as int, Seq::empty()) matches Err(want)
                    && want == e@,
            },
    {
        let mut acc: Vec<Field> = Vec::new();
        let mut at: usize = pos;
        assert(acc.deep_view() =~= Seq::<FieldView>::empty());
        loop
            invariant
                self.wf(),
                pos <= at <= self.chars.len(),
                field_list(self.chars@, pos as int, Seq::empty()) == field_list(
                    self.chars@,
                    at as int,
                    acc.deep_view(),
                ),
            decreases self.chars.len() - at,
        {
            if self.peek(at, "}") {
                return Ok((acc, self.accept(at, "}")));
            }
            let (f, q) = self.field(at)?;
            if at < q {
                let ghost before = acc.deep_view();
                let ghost added = f@;
                acc.push(f);
                assert(acc.deep_view() =~= before.push(added));
                at = q;
            } else {
                return self.error(at, "expected a field");
            }
        }
    }
}

} // verus!
