//! The words of the schema language: blanks and comments, punctuation,
//! names and numbers.

use crate::parsing::Span;
use crate::text::to_chars;
use vstd::prelude::*;

verus! {

/// Where a schema is not written as the language asks.
#[derive(Debug, PartialEq, Eq)]
pub struct SyntaxError {
    /// the place that the reader had reached
    pub span: Span,
    /// what the reader looked for there
    pub message: String,
}

pub struct SyntaxErrorView {
    pub span: Span,
    pub message: Seq<char>,
}

impl View for SyntaxError {
    type V = SyntaxErrorView;

    open spec fn view(&self) -> SyntaxErrorView {
        SyntaxErrorView { span: self.span, message: self.message@ }
    }
}

/// The error that says that `message` was looked for at `pos`.
pub open spec fn error_at(pos: int, message: Seq<char>) -> SyntaxErrorView {
    SyntaxErrorView { span: Span { start: pos as usize, end: pos as usize }, message }
}

/// The classes of characters that the reader runs over.
#[derive(Debug, Clone, Copy, PartialEq, Eq, Structural)]
pub enum CharClass {
    /// blanks and line ends
    Space,
    /// letters, digits and the underscore
    Ident,
    /// decimal digits
    Digit,
    /// hexadecimal digits
    Hex,
    /// everything but the line end
    Line,
    /// what a path is made of: the characters of names, and the colon
    Path,
}

pub open spec fn is_digit(c: char) -> bool {
    '0' <= c && c <= '9'
}

pub open spec fn is_letter(c: char) -> bool {
    ('a' <= c && c <= 'z') || ('A' <= c && c <= 'Z') || c == '_'
}

pub open spec fn is_hex(c: char) -> bool {
    is_digit(c) || ('a' <= c && c <= 'f') || ('A' <= c && c <= 'F')
}

/// Whether `c` belongs to `class`.
pub open spec fn in_class(c: char, class: CharClass) -> bool {
    match class {
        CharClass::Space => c == ' ' || c == '\t' || c == '\n' || c == '\r',
        CharClass::Ident => is_letter(c) || is_digit(c),
        CharClass::Digit => is_digit(c),
        CharClass::Hex => is_hex(c),
        CharClass::Line => c != '\n',
        CharClass::Path => is_letter(c) || is_digit(c) || c == ':',
    }
}

/// Whether `c` belongs to `class`.
pub fn char_in_class(c: char, class: CharClass) -> (r: bool)
    ensures
        r == in_class(c, class),
{
    let digit = c >= '0' && c <= '9';
    let letter = (c >= 'a' && c <= 'z') || (c >= 'A' && c <= 'Z') || c == '_';
    match class {
        CharClass::Space => c == ' ' || c == '\t' || c == '\n' || c == '\r',
        CharClass::Ident => letter || digit,
        CharClass::Digit => digit,
        CharClass::Hex => digit || (c >= 'a' && c <= 'f') || (c >= 'A' && c <= 'F'),
        CharClass::Line => c != '\n',
        CharClass::Path => letter || digit || c == ':',
    }
}

/// The end of the run of characters of `class` that begins at `pos`.
pub open spec fn scan(s: Seq<char>, pos: int, class: CharClass) -> int
    decreases s.len() - pos,
{
    if 0 <= pos < s.len() && in_class(s[pos], class) {
        scan(s, pos + 1, class)
    } else {
        pos
    }
}

/// A run ends at or after its beginning, within the text, and holds
/// only characters of its class.
pub proof fn lemma_scan(s: Seq<char>, pos: int, class: CharClass)
    requires
        0 <= pos <= s.len(),
    ensures
        pos <= scan(s, pos, class) <= s.len(),
        forall|i: int| pos <= i < scan(s, pos, class) ==> in_class(#[trigger] s[i], class),
        scan(s, pos, class) < s.len() ==> !in_class(s[scan(s, pos, class)], class),
    decreases s.len() - pos,
{
    if pos < s.len() && in_class(s[pos], class) {
        lemma_scan(s, pos + 1, class);
    }
}

/// Whether `lit` stands at `pos`.
pub open spec fn at(s: Seq<char>, pos: int, lit: Seq<char>) -> bool {
    0 <= pos && pos + lit.len() <= s.len() && s.subrange(pos, pos + lit.len()) == lit
}

/// Whether a comment begins at `pos`: two slashes that no third one
/// follows.
pub open spec fn comment_at(s: Seq<char>, pos: int) -> bool {
    at(s, pos, "//"@) && !at(s, pos, "///"@)
}

/// The place of the next word at or after `pos`: behind the blanks and
/// comments that stand there.
pub open spec fn skip(s: Seq<char>, pos: int) -> int
    decreases s.len() - pos,
{
    let p = scan(s, pos, CharClass::Space);
    if comment_at(s, p) {
        let q = scan(s, p, CharClass::Line);
        if pos < q <= s.len() {
            skip(s, q)
        } else {
            p
        }
    } else {
        p
    }
}

/// The value of the digits in `base`, which is ten or sixteen.
pub open spec fn digits_value(digits: Seq<char>, base: nat) -> nat
    decreases digits.len(),
{
    if digits.len() == 0 {
        0
    } else {
        digits_value(digits.drop_last(), base) * base + digit_value(digits.last())
    }
}

/// The value of one digit.
pub open spec fn digit_value(c: char) -> nat {
    if is_digit(c) {
        (c as nat - '0' as nat) as nat
    } else if 'a' <= c && c <= 'f' {
        (c as nat - 'a' as nat + 10) as nat
    } else if 'A' <= c && c <= 'F' {
        (c as nat - 'A' as nat + 10) as nat
    } else {
        0
    }
}

/// A name at the next word: its characters and where they stand. A name
/// is a run of letters, digits and underscores that does not begin
/// with a digit.
pub open spec fn ident(s: Seq<char>, pos: int) -> Result<(Seq<char>, Span, int), SyntaxErrorView> {
    let p = skip(s, pos);
    let e = scan(s, p, CharClass::Ident);
    if p < e <= s.len() && !is_digit(s[p]) {
        Ok((s.subrange(p, e), Span { start: p as usize, end: e as usize }, e))
    } else {
        Err(error_at(p, "expected a name"@))
    }
}

/// What is read as a name is one: it is not empty, it is made of
/// letters, digits and underscores, it does not begin with a digit, and
/// it stands in the text where its span says.
pub proof fn lemma_ident_is_a_name(s: Seq<char>, pos: int)
    requires
        0 <= pos <= s.len() <= usize::MAX,
    ensures
        ident(s, pos) matches Ok((name, span, end)) ==> name.len() > 0 && !is_digit(name[0]) && (
        forall|i: int| 0 <= i < name.len() ==> in_class(#[trigger] name[i], CharClass::Ident))
            && pos <= span.start < span.end <= s.len() && end == span.end && s.subrange(
            span.start as int,
            span.end as int,
        ) == name,
{
    let p = skip(s, pos);
    lemma_skip_stays(s, pos);
    lemma_scan(s, p, CharClass::Ident);
}

/// The next word stands at or after the place from which it is looked
/// for, and within the text.
pub proof fn lemma_skip_stays(s: Seq<char>, pos: int)
    requires
        0 <= pos <= s.len(),
    ensures
        pos <= skip(s, pos) <= s.len(),
    decreases s.len() - pos,
{
    let p = scan(s, pos, CharClass::Space);
    lemma_scan(s, pos, CharClass::Space);
    if comment_at(s, p) {
        let q = scan(s, p, CharClass::Line);
        lemma_scan(s, p, CharClass::Line);
        if pos < q <= s.len() {
            lemma_skip_stays(s, q);
        }
    }
}

/// A number at the next word: decimal, or hexadecimal behind `0x`. It
/// has to fit in 32 bits.
pub open spec fn number(s: Seq<char>, pos: int) -> Result<(u32, int), SyntaxErrorView> {
    let p = skip(s, pos);
    if at(s, p, "0x"@) {
        let e = scan(s, p + 2, CharClass::Hex);
        if p + 2 < e <= s.len() && digits_value(s.subrange(p + 2, e), 16) <= u32::MAX {
            Ok((digits_value(s.subrange(p + 2, e), 16) as u32, e))
        } else {
            Err(error_at(p, "expected a number that fits in 32 bits"@))
        }
    } else {
        let e = scan(s, p, CharClass::Digit);
        if p < e <= s.len() && digits_value(s.subrange(p, e), 10) <= u32::MAX {
            Ok((digits_value(s.subrange(p, e), 10) as u32, e))
        } else {
            Err(error_at(p, "expected a number that fits in 32 bits"@))
        }
    }
}

/// The punctuation `lit` at the next word.
pub open spec fn expect(s: Seq<char>, pos: int, lit: Seq<char>) -> Result<int, SyntaxErrorView> {
    let p = skip(s, pos);
    if at(s, p, lit) {
        Ok(p + lit.len())
    } else {
        Err(error_at(p, "expected `"@ + lit + "`"@))
    }
}

/// Whether `lit` stands at the next word.
pub open spec fn peek(s: Seq<char>, pos: int, lit: Seq<char>) -> bool {
    at(s, skip(s, pos), lit)
}

/// The place behind `lit` if it stands at the next word, and `pos` if
/// not.
pub open spec fn accept(s: Seq<char>, pos: int, lit: Seq<char>) -> int {
    if peek(s, pos, lit) {
        skip(s, pos) + lit.len()
    } else {
        pos
    }
}

/// A schema text and its characters.
pub struct Source<'a> {
    pub text: &'a str,
    pub chars: Vec<char>,
}

impl<'a> Source<'a> {
    /// Whether the characters are those of the text.
    pub open spec fn wf(&self) -> bool {
        self.chars@ == self.text@
    }

    /// Takes a text to read.
    pub fn new(text: &'a str) -> (src: Source<'a>)
        ensures
            src.wf(),
            src.text@ == text@,
    {
        Source { text, chars: to_chars(text) }
    }

    /// The error that says that `message` was looked for at `pos`.
    pub fn error<T>(&self, pos: usize, message: &str) -> (r: Result<T, SyntaxError>)
        ensures
            r matches Err(e) && e@ == error_at(pos as int, message@),
    {
        Err(SyntaxError { span: Span { start: pos, end: pos }, message: String::from_str(message) })
    }

    /// The characters from `start` to `end`.
    pub fn slice(&self, start: usize, end: usize) -> (out: String)
        requires
            self.wf(),
            start <= end <= self.chars.len(),
        ensures
            out@ == self.chars@.subrange(start as int, end as int),
    {
        String::from_str(self.text.substring_char(start, end))
    }

    /// The end of the run of characters of `class` that begins at `pos`.
    pub fn scan(&self, pos: usize, class: CharClass) -> (end: usize)
        requires
            pos <= self.chars.len(),
        ensures
            end == scan(self.chars@, pos as int, class),
            pos <= end <= self.chars.len(),
    {
        let mut i = pos;
        while i < self.chars.len() && char_in_class(self.chars[i], class)
            invariant
                pos <= i <= self.chars.len(),
                scan(self.chars@, pos as int, class) == scan(self.chars@, i as int, class),
            decreases self.chars.len() - i,
        {
            i += 1;
        }
        i
    }

    /// Whether `lit` stands at `pos`.
    pub fn at(&self, pos: usize, lit: &str) -> (r: bool)
        requires
            pos <= self.chars.len(),
        ensures
            r == at(self.chars@, pos as int, lit@),
    {
        let want = to_chars(lit);
        if want.len() > self.chars.len() - pos {
            return false;
        }
        let mut i: usize = 0;
        while i < want.len()
            invariant
                i <= want.len(),
                pos + want.len() <= self.chars.len(),
                want@ == lit@,
                forall|k: int| 0 <= k < i ==> self.chars@[pos + k] == want@[k],
            decreases want.len() - i,
        {
            if self.chars[pos + i] != want[i] {
                proof {
                    let part = self.chars@.subrange(pos as int, pos + want.len());
                    assert(part[i as int] == self.chars@[pos + i]);
                }
                return false;
            }
            i += 1;
        }
        assert(self.chars@.subrange(pos as int, pos + want.len()) =~= want@);
        true
    }

    /// The place of the next word at or after `pos`.
    pub fn skip(&self, pos: usize) -> (p: usize)
        requires
            pos <= self.chars.len(),
        ensures
            p == skip(self.chars@, pos as int),
            pos <= p <= self.chars.len(),
        decreases self.chars.len() - pos,
    {
        let p = self.scan(pos, CharClass::Space);
        if self.at(p, "//") && !self.at(p, "///") {
            let q = self.scan(p, CharClass::Line);
            if pos < q {
                self.skip(q)
            } else {
                p
            }
        } else {
            p
        }
    }

    /// Whether `lit` stands at the next word.
    pub fn peek(&self, pos: usize, lit: &str) -> (r: bool)
        requires
            pos <= self.chars.len(),
        ensures
            r == peek(self.chars@, pos as int, lit@),
    {
        let p = self.skip(pos);
        self.at(p, lit)
    }

    /// The place behind `lit` if it stands at the next word.
    pub fn accept(&self, pos: usize, lit: &str) -> (p: usize)
        requires
            pos <= self.chars.len(),
        ensures
            p == accept(self.chars@, pos as int, lit@),
            pos <= p <= self.chars.len(),
    {
        let start = self.skip(pos);
        if self.at(start, lit) {
            start + lit.unicode_len()
        } else {
            pos
        }
    }

    /// The punctuation `lit` at the next word.
    pub fn expect(&self, pos: usize, lit: &str) -> (r: Result<usize, SyntaxError>)
        requires
            pos <= self.chars.len(),
        ensures
            match r {
                Ok(p) => expect(self.chars@, pos as int, lit@) == Ok::<int, SyntaxErrorView>(
                    p as int,
                ) && pos <= p <= self.chars.len(),
                Err(e) => expect(self.chars@, pos as int, lit@) == Err::<int, SyntaxErrorView>(e@),
            },
    {
        let p = self.skip(pos);
        if self.at(p, lit) {
            Ok(p + lit.unicode_len())
        } else {
            let message = String::from_str("expected `").concat(lit).concat("`");
            self.error(p, message.as_str())
        }
    }

    /// A name at the next word.
    pub fn ident(&self, pos: usize) -> (r: Result<(String, Span, usize), SyntaxError>)
        requires
            self.wf(),
            pos <= self.chars.len(),
        ensures
            match r {
                Ok((name, span, p)) => ident(self.chars@, pos as int) == Ok::<
                    (Seq<char>, Span, int),
                    SyntaxErrorView,
                >((name@, span, p as int)) && pos < p <= self.chars.len(),
                Err(e) => ident(self.chars@, pos as int) == Err::<
                    (Seq<char>, Span, int),
                    SyntaxErrorView,
                >(e@),
            },
    {
        let p = self.skip(pos);
        let e = self.scan(p, CharClass::Ident);
        if p < e && !char_in_class(self.chars[p], CharClass::Digit) {
            Ok((self.slice(p, e), Span { start: p, end: e }, e))
        } else {
            self.error(p, "expected a name")
        }
    }

    /// The value of the digits from `start` to `end` in `base`, if it
    /// fits in 32 bits.
    fn digits(&self, start: usize, end: usize, base: u32) -> (value: Option<u32>)
        requires
            start <= end <= self.chars.len(),
            base == 10 || base == 16,
            forall|i: int| start <= i < end ==> is_hex(#[trigger] self.chars@[i]),
        ensures
            match value {
                Some(v) => v == digits_value(
                    self.chars@.subrange(start as int, end as int),
                    base as nat,
                ),
                None => digits_value(self.chars@.subrange(start as int, end as int), base as nat)
                    > u32::MAX,
            },
    {
        let mut value: u64 = 0;
        let mut i = start;
        let ghost digits = self.chars@.subrange(start as int, end as int);
        assert(digits.take(0) =~= Seq::<char>::empty());
        while i < end
            invariant
                start <= i <= end <= self.chars.len(),
                base == 10 || base == 16,
                digits == self.chars@.subrange(start as int, end as int),
                forall|k: int| start <= k < end ==> is_hex(#[trigger] self.chars@[k]),
                value == digits_value(digits.take(i - start), base as nat),
                value <= u32::MAX,
            decreases end - i,
        {
            let c = self.chars[i];
            let digit: u64 = if c >= '0' && c <= '9' {
                (c as u64) - ('0' as u64)
            } else if c >= 'a' && c <= 'f' {
                (c as u64) - ('a' as u64) + 10
            } else {
                assert(is_hex(self.chars@[i as int]));
                (c as u64) - ('A' as u64) + 10
            };
            proof {
                let next = digits.take(i - start + 1);
                assert(next.drop_last() =~= digits.take(i - start));
                assert(next.last() == c);
                assert(digit == digit_value(c));
                assert(value * (base as u64) <= 0xffff_ffff * 16) by (nonlinear_arith)
                    requires
                        value <= 0xffff_ffff,
                        base <= 16,
                ;
            }
            value = value * (base as u64) + digit;
            if value > u32::MAX as u64 {
                proof {
                    lemma_digits_grow(digits, i - start + 1, base as nat);
                }
                return None;
            }
            i += 1;
        }
        assert(digits.take(i - start) =~= digits);
        Some(value as u32)
    }

    /// A number at the next word.
    pub fn number(&self, pos: usize) -> (r: Result<(u32, usize), SyntaxError>)
        requires
            pos <= self.chars.len(),
        ensures
            match r {
                Ok((value, p)) => number(self.chars@, pos as int) == Ok::<
                    (u32, int),
                    SyntaxErrorView,
                >((value, p as int)) && pos < p <= self.chars.len(),
                Err(e) => number(self.chars@, pos as int) == Err::<(u32, int), SyntaxErrorView>(
                    e@,
                ),
            },
    {
        let p = self.skip(pos);
        let (start, base, class) = if self.at(p, "0x") {
            proof {
                reveal_strlit("0x");
            }
            (p + 2, 16u32, CharClass::Hex)
        } else {
            (p, 10u32, CharClass::Digit)
        };
        let e = self.scan(start, class);
        proof {
            lemma_scan(self.chars@, start as int, class);
        }
        if start < e {
            match self.digits(start, e, base) {
                Some(value) => Ok((value, e)),
                None => self.error(p, "expected a number that fits in 32 bits"),
            }
        } else {
            self.error(p, "expected a number that fits in 32 bits")
        }
    }
}

/// More digits do not make a number smaller.
proof fn lemma_digits_grow(digits: Seq<char>, n: int, base: nat)
    requires
        0 <= n <= digits.len(),
        base > 0,
    ensures
        digits_value(digits.take(n), base) <= digits_value(digits, base),
    decreases digits.len() - n,
{
    if n < digits.len() {
        lemma_digits_grow(digits, n + 1, base);
        let next = digits.take(n + 1);
        assert(next.drop_last() =~= digits.take(n));
        assert(digits_value(next, base) >= digits_value(digits.take(n), base) * base) ;
        assert(digits_value(digits.take(n), base) * base >= digits_value(digits.take(n), base))
            by (nonlinear_arith)
            requires
                base > 0,
        ;
    } else {
        assert(digits.take(n) =~= digits);
    }
}

} // verus!
