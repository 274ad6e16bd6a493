use vstd::prelude::*;

use crate::emit::{dec_rep, push_all, push_decimal, push_spaces, spaces, BAR, CARET, CR, LF, SP};

verus! {

// ---------------------------------------------------------------------------
// The diagnostic model.
//
// A parse failure is carried as a residual position (the byte offset of the
// unconsumed remainder of the input), an optional human-readable context,
// and the kind of the lowest-level mismatch. Offsets are carried explicitly
// instead of as subslices, so locating a failure needs no address
// arithmetic and cannot be handed a slice from the wrong buffer.
// ---------------------------------------------------------------------------

/// The kind of a low-level grammar mismatch, recorded when a rule fails
/// without attaching a context of its own.
#[derive(Debug, Clone, Copy, PartialEq, Eq, Structural)]
pub enum MismatchKind {
    /// A fixed token was expected.
    Tag,
    /// A particular character was expected.
    Char,
    /// Input matched where it must not, or a single-character expectation
    /// failed.
    Not,
    /// Every alternative of a choice failed.
    Alt,
    /// The end of the input was expected.
    Eof,
}

/// A parse failure: the byte offset of the residual (unconsumed) input, the
/// innermost context attached while the failure propagated outward, and the
/// kind of the underlying mismatch.
#[derive(Debug, Clone, PartialEq)]
pub struct TwigParsingErrorInformation {
    /// Byte offset of the residual input within the original input.
    pub leftover: usize,
    /// The most specific annotation attached so far, if any.
    pub context: Option<Vec<u8>>,
    pub kind: MismatchKind,
}

/// A parse failure tagged with its severity: a recoverable error lets the
/// enclosing rule try another alternative, an unrecoverable failure aborts
/// the whole parse attempt.
#[derive(Debug, Clone, PartialEq)]
pub enum TwigParseError {
    ParsingError(TwigParsingErrorInformation),
    ParsingFailure(TwigParsingErrorInformation),
}

impl TwigParsingErrorInformation {
    /// A bare diagnostic with no context, anchored at the given residual
    /// offset. Called by the lowest-level grammar primitives on mismatch.
    pub fn from_error_kind(input: usize, kind: MismatchKind) -> (r: Self)
        ensures
            r.leftover == input,
            r.kind == kind,
            r.context is None,
    {
        TwigParsingErrorInformation { leftover: input, kind, context: None }
    }

    /// When a rule combinator tries several alternatives and all fail, the
    /// most recent failure is kept unchanged; deeper, later failures are
    /// usually the more informative ones. This is a deliberate policy, not
    /// a merge.
    pub fn append(_input: usize, _kind: MismatchKind, other: Self) -> (r: Self)
        ensures
            r == other,
    {
        other
    }

    /// A diagnostic for a failed single-character expectation, with no
    /// context and the `Not` mismatch kind.
    pub fn from_char(input: usize, _expected: char) -> (r: Self)
        ensures
            r.leftover == input,
            r.kind == MismatchKind::Not,
            r.context is None,
    {
        TwigParsingErrorInformation { leftover: input, kind: MismatchKind::Not, context: None }
    }

    /// Overwrites the context with a static label: a named grammar rule
    /// saying "while parsing X". The previous context, if any, is dropped,
    /// so the final diagnostic carries the most specific annotation.
    pub fn add_context(_input: usize, ctx: Vec<u8>, other: Self) -> (r: Self)
        ensures
            r.leftover == other.leftover,
            r.kind == other.kind,
            r.context == Some(ctx),
    {
        let mut updated = other;
        updated.context = Some(ctx);
        updated
    }

    /// Overwrites the context with a label computed at failure time, for
    /// example one naming the offending token. Same overwrite policy as
    /// `add_context`.
    pub fn add_dynamic_context(_input: usize, ctx: Vec<u8>, other: Self) -> (r: Self)
        ensures
            r.leftover == other.leftover,
            r.kind == other.kind,
            r.context == Some(ctx),
    {
        let mut updated = other;
        updated.context = Some(ctx);
        updated
    }
}

/// Attaching one context and then another leaves exactly the second: the
/// annotation is overwritten on each propagation step, never concatenated.
pub proof fn lemma_context_overwrite(
    first: Vec<u8>,
    second: Vec<u8>,
    a: TwigParsingErrorInformation,
    b: TwigParsingErrorInformation,
    c: TwigParsingErrorInformation,
    p: usize,
    q: usize,
)
    requires
        call_ensures(TwigParsingErrorInformation::add_context, (p, first, a), b),
        call_ensures(TwigParsingErrorInformation::add_context, (q, second, b), c),
    ensures
        c.context == Some(second),
        c.leftover == a.leftover,
        c.kind == a.kind,
{
}

// ---------------------------------------------------------------------------
// Position resolution.
//
// Given the complete original input and the byte offset of a residual, the
// resolver computes the 1-based line and column of the failure and the text
// of the line it sits on. A line break is `\n`, or `\r` not followed by
// `\n`; a Windows-style `\r\n` pair is one boundary, not two.
// ---------------------------------------------------------------------------

/// A new line begins at position `p` of `s` (for `1 <= p <= s.len()`): the
/// previous byte ends a line break. A `\n` always ends one; a `\r` ends one
/// only when no `\n` follows it, so `\r\n` is counted once, at the `\n`.
pub open spec fn starts_new_line(s: Seq<u8>, p: int) -> bool {
    s[p - 1] == LF || (s[p - 1] == CR && (p == s.len() || s[p] != LF))
}

/// The 1-based line number of byte offset `o` in `s`: one more than the
/// number of line starts at or before `o`.
pub open spec fn line_number(s: Seq<u8>, o: int) -> int
    decreases o,
{
    if o <= 0 {
        1
    } else {
        line_number(s, o - 1) + if starts_new_line(s, o) {
            1int
        } else {
            0int
        }
    }
}

/// The offset at which the line containing offset `o` begins.
pub open spec fn line_start(s: Seq<u8>, o: int) -> int
    decreases o,
{
    if o <= 0 {
        0
    } else if starts_new_line(s, o) {
        o
    } else {
        line_start(s, o - 1)
    }
}

/// The first position at or after `q` that ends the line: the input's end,
/// or the first line-break byte.
pub open spec fn line_end(s: Seq<u8>, q: int) -> int
    decreases s.len() - q,
{
    if q < 0 || q >= s.len() || s[q] == CR || s[q] == LF {
        q
    } else {
        line_end(s, q + 1)
    }
}

/// The text of the line containing offset `o`, bounded at the input's end
/// when the final line has no trailing line break.
pub open spec fn line_text(s: Seq<u8>, o: int) -> Seq<u8> {
    s.subrange(line_start(s, o), line_end(s, line_start(s, o)))
}

/// Resolves the byte offset of a residual back to its 1-based line number,
/// 1-based column, and the full text of the line it sits on.
#[verifier::loop_isolation(false)]
pub fn get_line_and_column_of_subslice(input: &[u8], offset: usize) -> (r: (usize, usize, Vec<u8>))
    requires
        offset <= input@.len(),
        input@.len() < usize::MAX,
    ensures
        r.0 == line_number(input@, offset as int),
        r.1 == offset - line_start(input@, offset as int) + 1,
        r.1 >= 1,
        r.2@ == line_text(input@, offset as int),
{
    let ghost s = input@;
    let n = input.len();

    let mut line: usize = 1;
    let mut start: usize = 0;
    let mut p: usize = 1;
    while p <= offset
        invariant
            1 <= p <= offset + 1,
            start <= p - 1,
            line <= p,
            line == line_number(s, p - 1),
            start == line_start(s, p - 1),
        decreases offset + 1 - p,
    {
        let b = input[p - 1];
        let new_line_here = if b == LF {
            true
        } else if b == CR {
            p == n || input[p] != LF
        } else {
            false
        };
        if new_line_here {
            line = line + 1;
            start = p;
        }
        p = p + 1;
    }

    let mut end: usize = start;
    while end < n && input[end] != CR && input[end] != LF
        invariant
            start <= end <= n,
            line_end(s, start as int) == line_end(s, end as int),
        decreases n - end,
    {
        end = end + 1;
    }

    let mut text: Vec<u8> = Vec::new();
    let mut q: usize = start;
    while q < end
        invariant
            start <= q <= end,
            text@ == s.subrange(start as int, q as int),
        decreases end - q,
    {
        text.push(input[q]);
        proof {
            assert(text@ =~= s.subrange(start as int, q + 1));
        }
        q = q + 1;
    }

    (line, offset - start + 1, text)
}


// ---------------------------------------------------------------------------
// Diagnostic rendering.
//
// The pretty form of a diagnostic is the tool's only feedback for a syntax
// error: a header naming line and column, the offending source line
// verbatim, a caret aligned under the failure column, a bar marker on the
// next line at the same indentation, and the context (or, without one, the
// name of the mismatch kind).
// ---------------------------------------------------------------------------

/// The header opening: `Parsing goes wrong in line `.
pub open spec fn lit_pretty_line() -> Seq<u8> {
    seq![80u8, 97u8, 114u8, 115u8, 105u8, 110u8, 103u8, SP, 103u8, 111u8, 101u8, 115u8, SP, 119u8, 114u8, 111u8, 110u8, 103u8, SP, 105u8, 110u8, SP, 108u8, 105u8, 110u8, 101u8, SP]
}

/// The header middle: ` and column `.
pub open spec fn lit_pretty_column() -> Seq<u8> {
    seq![SP, 97u8, 110u8, 100u8, SP, 99u8, 111u8, 108u8, 117u8, 109u8, 110u8, SP]
}

/// The header ending: ` :` and a line break.
pub open spec fn lit_pretty_colon() -> Seq<u8> {
    seq![SP, 58u8, LF]
}

/// The opening of a recoverable error's description:
/// `parsing error because: `.
pub open spec fn lit_describe_error() -> Seq<u8> {
    seq![112u8, 97u8, 114u8, 115u8, 105u8, 110u8, 103u8, SP, 101u8, 114u8, 114u8, 111u8, 114u8, SP, 98u8, 101u8, 99u8, 97u8, 117u8, 115u8, 101u8, 58u8, SP]
}

/// The opening of an unrecoverable failure's description:
/// `Unrecoverable parsing failure because: `.
pub open spec fn lit_describe_failure() -> Seq<u8> {
    seq![85u8, 110u8, 114u8, 101u8, 99u8, 111u8, 118u8, 101u8, 114u8, 97u8, 98u8, 108u8, 101u8, SP, 112u8, 97u8, 114u8, 115u8, 105u8, 110u8, 103u8, SP, 102u8, 97u8, 105u8, 108u8, 117u8, 114u8, 101u8, SP, 98u8, 101u8, 99u8, 97u8, 117u8, 115u8, 101u8, 58u8, SP]
}

/// A comma and a space.
pub open spec fn lit_sep() -> Seq<u8> {
    seq![44u8, SP]
}

/// The word `None`, printed for an absent context.
pub open spec fn lit_none_text() -> Seq<u8> {
    seq![78u8, 111u8, 110u8, 101u8]
}

/// The printed name of a mismatch kind.
pub open spec fn spec_kind_name(k: MismatchKind) -> Seq<u8> {
    match k {
        MismatchKind::Tag => seq![84u8, 97u8, 103u8],
        MismatchKind::Char => seq![67u8, 104u8, 97u8, 114u8],
        MismatchKind::Not => seq![78u8, 111u8, 116u8],
        MismatchKind::Alt => seq![65u8, 108u8, 116u8],
        MismatchKind::Eof => seq![69u8, 111u8, 102u8],
    }
}

/// Writes the printed name of a mismatch kind.
fn emit_kind_name(out: &mut Vec<u8>, kind: MismatchKind)
    ensures
        final(out)@ == old(out)@ + spec_kind_name(kind),
{
    match kind {
        MismatchKind::Tag => {
            out.push(84);
            out.push(97);
            out.push(103);
        },
        MismatchKind::Char => {
            out.push(67);
            out.push(104);
            out.push(97);
            out.push(114);
        },
        MismatchKind::Not => {
            out.push(78);
            out.push(111);
            out.push(116);
        },
        MismatchKind::Alt => {
            out.push(65);
            out.push(108);
            out.push(116);
        },
        MismatchKind::Eof => {
            out.push(69);
            out.push(111);
            out.push(102);
        },
    }
    proof {
        assert(out@ =~= old(out)@ + spec_kind_name(kind));
    }
}

fn emit_pretty_line(out: &mut Vec<u8>)
    ensures
        final(out)@ == old(out)@ + lit_pretty_line(),
{
    out.push(80);
    out.push(97);
    out.push(114);
    out.push(115);
    out.push(105);
    out.push(110);
    out.push(103);
    out.push(SP);
    out.push(103);
    out.push(111);
    out.push(101);
    out.push(115);
    out.push(SP);
    out.push(119);
    out.push(114);
    out.push(111);
    out.push(110);
    out.push(103);
    out.push(SP);
    out.push(105);
    out.push(110);
    out.push(SP);
    out.push(108);
    out.push(105);
    out.push(110);
    out.push(101);
    out.push(SP);
    proof {
        assert(out@ =~= old(out)@ + lit_pretty_line());
    }
}

fn emit_pretty_column(out: &mut Vec<u8>)
    ensures
        final(out)@ == old(out)@ + lit_pretty_column(),
{
    out.push(SP);
    out.push(97);
    out.push(110);
    out.push(100);
    out.push(SP);
    out.push(99);
    out.push(111);
    out.push(108);
    out.push(117);
    out.push(109);
    out.push(110);
    out.push(SP);
    proof {
        assert(out@ =~= old(out)@ + lit_pretty_column());
    }
}

fn emit_pretty_colon(out: &mut Vec<u8>)
    ensures
        final(out)@ == old(out)@ + lit_pretty_colon(),
{
    out.push(SP);
    out.push(58);
    out.push(LF);
    proof {
        assert(out@ =~= old(out)@ + lit_pretty_colon());
    }
}

fn emit_describe_error(out: &mut Vec<u8>)
    ensures
        final(out)@ == old(out)@ + lit_describe_error(),
{
    out.push(112);
    out.push(97);
    out.push(114);
    out.push(115);
    out.push(105);
    out.push(110);
    out.push(103);
    out.push(SP);
    out.push(101);
    out.push(114);
    out.push(114);
    out.push(111);
    out.push(114);
    out.push(SP);
    out.push(98);
    out.push(101);
    out.push(99);
    out.push(97);
    out.push(117);
    out.push(115);
    out.push(101);
    out.push(58);
    out.push(SP);
    proof {
        assert(out@ =~= old(out)@ + lit_describe_error());
    }
}

fn emit_describe_failure(out: &mut Vec<u8>)
    ensures
        final(out)@ == old(out)@ + lit_describe_failure(),
{
    out.push(85);
    out.push(110);
    out.push(114);
    out.push(101);
    out.push(99);
    out.push(111);
    out.push(118);
    out.push(101);
    out.push(114);
    out.push(97);
    out.push(98);
    out.push(108);
    out.push(101);
    out.push(SP);
    out.push(112);
    out.push(97);
    out.push(114);
    out.push(115);
    out.push(105);
    out.push(110);
    out.push(103);
    out.push(SP);
    out.push(102);
    out.push(97);
    out.push(105);
    out.push(108);
    out.push(117);
    out.push(114);
    out.push(101);
    out.push(SP);
    out.push(98);
    out.push(101);
    out.push(99);
    out.push(97);
    out.push(117);
    out.push(115);
    out.push(101);
    out.push(58);
    out.push(SP);
    proof {
        assert(out@ =~= old(out)@ + lit_describe_failure());
    }
}

fn emit_sep(out: &mut Vec<u8>)
    ensures
        final(out)@ == old(out)@ + lit_sep(),
{
    out.push(44);
    out.push(SP);
    proof {
        assert(out@ =~= old(out)@ + lit_sep());
    }
}

fn emit_none_text(out: &mut Vec<u8>)
    ensures
        final(out)@ == old(out)@ + lit_none_text(),
{
    out.push(78);
    out.push(111);
    out.push(110);
    out.push(101);
    proof {
        assert(out@ =~= old(out)@ + lit_none_text());
    }
}


impl TwigParseError {
    /// The information carried by either severity.
    pub open spec fn spec_info(&self) -> TwigParsingErrorInformation {
        match self {
            TwigParseError::ParsingError(i) => *i,
            TwigParseError::ParsingFailure(i) => *i,
        }
    }

    /// The exact pretty form of a diagnostic against its input.
    pub open spec fn pretty_text(&self, s: Seq<u8>) -> Seq<u8> {
        let info = self.spec_info();
        let line = line_number(s, info.leftover as int);
        let column = info.leftover - line_start(s, info.leftover as int) + 1;
        lit_pretty_line() + dec_rep(line as nat) + lit_pretty_column() + dec_rep(column as nat)
            + lit_pretty_colon() + line_text(s, info.leftover as int) + seq![LF] + spaces(
            column - 1,
        ) + seq![CARET, LF] + spaces(column - 1) + seq![BAR, LF] + (match info.context {
            Some(c) => c@,
            None => spec_kind_name(info.kind),
        })
    }

    /// Renders the diagnostic for display: header with 1-based line and
    /// column, the offending source line verbatim, a caret aligned under the
    /// failure column by single-space padding, a bar marker at the same
    /// indentation, and the context if present, the mismatch kind's name
    /// otherwise.
    pub fn pretty_helpful_error_string(&self, input: &[u8]) -> (out: Vec<u8>)
        requires
            self.spec_info().leftover <= input@.len(),
            input@.len() < usize::MAX,
        ensures
            out@ == self.pretty_text(input@),
    {
        let info = match self {
            TwigParseError::ParsingError(i) => i,
            TwigParseError::ParsingFailure(i) => i,
        };

        let (line, column, last_line) = get_line_and_column_of_subslice(input, info.leftover);

        let mut out: Vec<u8> = Vec::new();
        emit_pretty_line(&mut out);
        push_decimal(&mut out, line);
        emit_pretty_column(&mut out);
        push_decimal(&mut out, column);
        emit_pretty_colon(&mut out);
        push_all(&mut out, &last_line);
        out.push(LF);
        push_spaces(&mut out, column - 1);
        out.push(CARET);
        out.push(LF);
        push_spaces(&mut out, column - 1);
        out.push(BAR);
        out.push(LF);
        match &info.context {
            Some(c) => push_all(&mut out, c),
            None => emit_kind_name(&mut out, info.kind),
        }
        proof {
            assert(out@ =~= self.pretty_text(input@));
        }
        out
    }

    /// The exact one-line description of a diagnostic.
    pub open spec fn describe_text(&self) -> Seq<u8> {
        let info = self.spec_info();
        (match self {
            TwigParseError::ParsingError(_) => lit_describe_error(),
            TwigParseError::ParsingFailure(_) => lit_describe_failure(),
        }) + seq![40u8] + dec_rep(info.leftover as nat) + lit_sep() + spec_kind_name(info.kind)
            + lit_sep() + (match info.context {
            Some(c) => c@,
            None => lit_none_text(),
        }) + seq![41u8]
    }

    /// A one-line description of the diagnostic: its severity, the residual
    /// offset, the mismatch kind and the context, in parentheses.
    pub fn describe(&self) -> (out: Vec<u8>)
        ensures
            out@ == self.describe_text(),
    {
        let mut out: Vec<u8> = Vec::new();
        let info = match self {
            TwigParseError::ParsingError(i) => {
                emit_describe_error(&mut out);
                i
            },
            TwigParseError::ParsingFailure(i) => {
                emit_describe_failure(&mut out);
                i
            },
        };
        out.push(40);
        push_decimal(&mut out, info.leftover);
        emit_sep(&mut out);
        emit_kind_name(&mut out, info.kind);
        emit_sep(&mut out);
        match &info.context {
            Some(c) => push_all(&mut out, c),
            None => emit_none_text(&mut out),
        }
        out.push(41);
        proof {
            assert(out@ =~= self.describe_text());
        }
        out
    }
}

} // verus!


