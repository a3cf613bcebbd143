//! Lexical scanning of SQL text: placeholders outside string literals,
//! quoted identifiers and comments.

use vstd::prelude::*;
use crate::text::{chars_of, push_char, push_range, range_eq};

verus! {

/// Is `c` an ASCII decimal digit?
pub open spec fn is_digit(c: char) -> bool {
    '0' <= c && c <= '9'
}

/// Is `c` treated as an identifier character when reading a placeholder name?
pub open spec fn is_ident(c: char) -> bool {
    ('0' <= c && c <= '9') || ('a' <= c && c <= 'z') || ('A' <= c && c <= 'Z') || c == '_'
}

/// Returns `true` if this character is treated as an identifier character for
/// the purposes of rewriting named parameters.
pub fn is_ident_char(c: char) -> (r: bool)
    ensures
        r == is_ident(c),
{
    ('0' <= c && c <= '9') || ('a' <= c && c <= 'z') || ('A' <= c && c <= 'Z') || c == '_'
}

/// Is `c` an ASCII decimal digit?
pub fn is_digit_char(c: char) -> (r: bool)
    ensures
        r == is_digit(c),
{
    '0' <= c && c <= '9'
}

/// First position at or after `j` that is not a digit (or the end).
pub open spec fn digit_run_end(s: Seq<char>, j: int) -> int
    decreases s.len() - j,
{
    if j < 0 || j >= s.len() || !is_digit(s[j]) {
        j
    } else {
        digit_run_end(s, j + 1)
    }
}

/// First position at or after `j` that is not an identifier character (or the end).
pub open spec fn ident_run_end(s: Seq<char>, j: int) -> int
    decreases s.len() - j,
{
    if j < 0 || j >= s.len() || !is_ident(s[j]) {
        j
    } else {
        ident_run_end(s, j + 1)
    }
}

/// All characters of `s` in `[a, b)` are digits.
pub open spec fn all_digits(s: Seq<char>, a: int, b: int) -> bool {
    forall|k: int| a <= k < b ==> is_digit(#[trigger] s[k])
}

/// Scanner state for strings, quoted identifiers, and comments.
#[derive(Debug, Clone, Copy, PartialEq, Eq, Structural)]
pub enum ScanState {
    /// Outside quotes and comments.
    Normal,
    /// Inside a single-quoted string.
    SingleQuote,
    /// Inside a double-quoted identifier or string.
    DoubleQuote,
    /// Inside a `--` line comment.
    LineComment,
    /// Inside a `/* */` block comment.
    BlockComment,
}

/// One span of scanned SQL, as positions into its characters.
///
/// `Text` covers `[start, end)`; the placeholder spans cover the prefix at
/// `start - 1` and the name or digits at `[start, end)`.
#[derive(Debug, Clone, Copy, PartialEq, Eq, Structural)]
pub enum SqlSpan {
    /// Literal text, including quoted strings and comments.
    Text { start: usize, end: usize },
    /// Named placeholder such as `:name`, `@name`, or `$name`.
    Placeholder { prefix: char, start: usize, end: usize },
    /// Numeric placeholder such as `?1` or `$2`.
    Numeric { prefix: char, start: usize, end: usize },
}

/// The text span `[ts, i)` if it is not empty.
pub open spec fn text_before(ts: int, i: int) -> Seq<SqlSpan> {
    if i > ts {
        seq![SqlSpan::Text { start: ts as usize, end: i as usize }]
    } else {
        seq![]
    }
}

/// One step of the scanner in the `Normal` state at position `i`:
/// the next position, the next start of pending text, the next state and the
/// spans emitted.
pub open spec fn normal_step(s: Seq<char>, i: int, ts: int) -> (int, int, ScanState, Seq<SqlSpan>) {
    let c = s[i];
    if c == '\'' {
        (i + 1, ts, ScanState::SingleQuote, seq![])
    } else if c == '"' {
        (i + 1, ts, ScanState::DoubleQuote, seq![])
    } else if c == '-' && i + 1 < s.len() && s[i + 1] == '-' {
        (i + 2, ts, ScanState::LineComment, seq![])
    } else if c == '/' && i + 1 < s.len() && s[i + 1] == '*' {
        (i + 2, ts, ScanState::BlockComment, seq![])
    } else if c == '?' && i + 1 < s.len() && is_digit(s[i + 1]) {
        let j = digit_run_end(s, i + 1);
        (
            j,
            j,
            ScanState::Normal,
            text_before(ts, i) + seq![
                SqlSpan::Numeric { prefix: '?', start: (i + 1) as usize, end: j as usize },
            ],
        )
    } else if c == '$' || c == ':' || c == '@' {
        let end = ident_run_end(s, i + 1);
        if end > i + 1 {
            let tok = if c == '$' && all_digits(s, i + 1, end) {
                SqlSpan::Numeric { prefix: '$', start: (i + 1) as usize, end: end as usize }
            } else {
                SqlSpan::Placeholder { prefix: c, start: (i + 1) as usize, end: end as usize }
            };
            (end, end, ScanState::Normal, text_before(ts, i) + seq![tok])
        } else {
            (i + 1, ts, ScanState::Normal, seq![])
        }
    } else {
        (i + 1, ts, ScanState::Normal, seq![])
    }
}

/// One step of the scanner at position `i` in state `st`.
pub open spec fn scan_step(s: Seq<char>, i: int, ts: int, st: ScanState) -> (
    int,
    int,
    ScanState,
    Seq<SqlSpan>,
) {
    match st {
        ScanState::Normal => normal_step(s, i, ts),
        ScanState::SingleQuote => if s[i] == '\'' {
            if i + 1 < s.len() && s[i + 1] == '\'' {
                (i + 2, ts, ScanState::SingleQuote, seq![])
            } else {
                (i + 1, ts, ScanState::Normal, seq![])
            }
        } else {
            (i + 1, ts, ScanState::SingleQuote, seq![])
        },
        ScanState::DoubleQuote => if s[i] == '"' {
            if i + 1 < s.len() && s[i + 1] == '"' {
                (i + 2, ts, ScanState::DoubleQuote, seq![])
            } else {
                (i + 1, ts, ScanState::Normal, seq![])
            }
        } else {
            (i + 1, ts, ScanState::DoubleQuote, seq![])
        },
        ScanState::LineComment => if s[i] == '\n' {
            (i + 1, ts, ScanState::Normal, seq![])
        } else {
            (i + 1, ts, ScanState::LineComment, seq![])
        },
        ScanState::BlockComment => if s[i] == '*' && i + 1 < s.len() && s[i + 1] == '/' {
            (i + 2, ts, ScanState::Normal, seq![])
        } else {
            (i + 1, ts, ScanState::BlockComment, seq![])
        },
    }
}

/// Run-end bounds used for termination of the scanner.
pub proof fn lemma_run_ends(s: Seq<char>, j: int)
    requires
        0 <= j <= s.len(),
    ensures
        j <= digit_run_end(s, j) <= s.len(),
        j <= ident_run_end(s, j) <= s.len(),
        all_digits(s, j, digit_run_end(s, j)),
        digit_run_end(s, j) < s.len() ==> !is_digit(s[digit_run_end(s, j)]),
        forall|k: int| j <= k < ident_run_end(s, j) ==> is_ident(#[trigger] s[k]),
        ident_run_end(s, j) < s.len() ==> !is_ident(s[ident_run_end(s, j)]),
    decreases s.len() - j,
{
    if j < s.len() {
        lemma_run_ends(s, j + 1);
    }
}

/// Every step advances and stays within the text; pending text never passes the position.
pub proof fn lemma_step_bounds(s: Seq<char>, i: int, ts: int, st: ScanState)
    requires
        0 <= ts <= i < s.len(),
    ensures
        ({
            let (i2, ts2, st2, em) = scan_step(s, i, ts, st);
            &&& i < i2 <= s.len()
            &&& 0 <= ts2 <= i2
            &&& ts <= ts2
        }),
{
    lemma_run_ends(s, i + 1);
}

/// The spans produced by scanning from position `i` with pending text from `ts`.
pub open spec fn scan_from(s: Seq<char>, i: int, ts: int, st: ScanState) -> Seq<SqlSpan>
    decreases s.len() - i,
{
    if i < 0 || ts < 0 || ts > i || i >= s.len() {
        if s.len() > ts && ts >= 0 {
            seq![SqlSpan::Text { start: ts as usize, end: s.len() as usize }]
        } else {
            seq![]
        }
    } else {
        let (i2, ts2, st2, em) = scan_step(s, i, ts, st);
        proof {
            lemma_step_bounds(s, i, ts, st);
        }
        em + scan_from(s, i2, ts2, st2)
    }
}

/// The spans of a whole SQL text.
pub open spec fn scan(s: Seq<char>) -> Seq<SqlSpan> {
    scan_from(s, 0, 0, ScanState::Normal)
}

/// The characters a span covers.
pub open spec fn span_text(s: Seq<char>, t: SqlSpan) -> Seq<char> {
    match t {
        SqlSpan::Text { start, end } => s.subrange(start as int, end as int),
        SqlSpan::Placeholder { start, end, .. } => s.subrange(start - 1, end as int),
        SqlSpan::Numeric { start, end, .. } => s.subrange(start - 1, end as int),
    }
}

/// The concatenated text of a sequence of spans.
pub open spec fn render(s: Seq<char>, spans: Seq<SqlSpan>) -> Seq<char>
    decreases spans.len(),
{
    if spans.len() == 0 {
        seq![]
    } else {
        span_text(s, spans[0]) + render(s, spans.drop_first())
    }
}

/// A span lies within the text, and a placeholder's prefix character is the one
/// just before its name or digits.
pub open spec fn span_wf(s: Seq<char>, t: SqlSpan) -> bool {
    match t {
        SqlSpan::Text { start, end } => start <= end <= s.len(),
        SqlSpan::Placeholder { prefix, start, end } => 1 <= start <= end <= s.len() && s[start - 1]
            == prefix,
        SqlSpan::Numeric { prefix, start, end } => 1 <= start <= end <= s.len() && s[start - 1]
            == prefix,
    }
}

/// Rendering distributes over concatenation of span sequences.
pub proof fn lemma_render_concat(s: Seq<char>, a: Seq<SqlSpan>, b: Seq<SqlSpan>)
    ensures
        render(s, a + b) == render(s, a) + render(s, b),
    decreases a.len(),
{
    if a.len() == 0 {
        assert(a + b =~= b);
        assert(render(s, a) + render(s, b) =~= render(s, b));
    } else {
        assert((a + b).drop_first() =~= a.drop_first() + b);
        lemma_render_concat(s, a.drop_first(), b);
        assert(render(s, a + b) =~= span_text(s, a[0]) + (render(s, a.drop_first()) + render(
            s,
            b,
        )));
    }
}

/// Rendering a single span gives its text.
pub proof fn lemma_render_single(s: Seq<char>, t: SqlSpan)
    ensures
        render(s, seq![t]) == span_text(s, t),
{
    assert(seq![t].drop_first() =~= Seq::<SqlSpan>::empty());
    assert(render(s, seq![t].drop_first()) =~= Seq::<char>::empty());
    assert(span_text(s, t) + Seq::<char>::empty() =~= span_text(s, t));
}

/// One scanner step emits spans that cover exactly the text from the pending
/// start to the next pending start.
proof fn lemma_step_render(s: Seq<char>, i: int, ts: int, st: ScanState)
    requires
        0 <= ts <= i < s.len(),
        s.len() <= usize::MAX,
    ensures
        ({
            let (i2, ts2, st2, em) = scan_step(s, i, ts, st);
            &&& ts <= ts2 <= i2
            &&& render(s, em) == s.subrange(ts, ts2)
            &&& forall|k: int| 0 <= k < em.len() ==> span_wf(s, #[trigger] em[k])
        }),
{
    lemma_run_ends(s, i + 1);
    lemma_step_bounds(s, i, ts, st);
    let (i2, ts2, st2, em) = scan_step(s, i, ts, st);
    if em.len() == 0 {
        assert(render(s, em) =~= seq![]);
        assert(s.subrange(ts, ts2) =~= seq![]);
    } else {
        let tb = text_before(ts, i);
        let tok = em[em.len() - 1];
        assert(em =~= tb + seq![tok]);
        lemma_render_concat(s, tb, seq![tok]);
        lemma_render_single(s, tok);
        if i > ts {
            lemma_render_single(s, SqlSpan::Text { start: ts as usize, end: i as usize });
        } else {
            assert(render(s, tb) =~= Seq::<char>::empty());
        }
        assert(render(s, tb) =~= s.subrange(ts, i));
        assert(span_text(s, tok) =~= s.subrange(i, ts2));
        assert(s.subrange(ts, i) + s.subrange(i, ts2) =~= s.subrange(ts, ts2));
    }
}

/// Scanning from a position renders back exactly the text from the pending
/// start to the end, with every span well formed.
pub proof fn lemma_scan_from_render(s: Seq<char>, i: int, ts: int, st: ScanState)
    requires
        0 <= ts <= i <= s.len(),
        s.len() <= usize::MAX,
    ensures
        render(s, scan_from(s, i, ts, st)) == s.subrange(ts, s.len() as int),
        forall|k: int|
            0 <= k < scan_from(s, i, ts, st).len() ==> span_wf(
                s,
                #[trigger] scan_from(s, i, ts, st)[k],
            ),
    decreases s.len() - i,
{
    if i >= s.len() {
        if s.len() > ts {
            let t = SqlSpan::Text { start: ts as usize, end: s.len() as usize };
            lemma_render_single(s, t);
        } else {
            assert(s.subrange(ts, s.len() as int) =~= seq![]);
        }
    } else {
        let (i2, ts2, st2, em) = scan_step(s, i, ts, st);
        lemma_step_bounds(s, i, ts, st);
        lemma_step_render(s, i, ts, st);
        lemma_scan_from_render(s, i2, ts2, st2);
        let rest = scan_from(s, i2, ts2, st2);
        lemma_render_concat(s, em, rest);
        assert(scan_from(s, i, ts, st) == em + rest);
        assert(s.subrange(ts, ts2) + s.subrange(ts2, s.len() as int) =~= s.subrange(
            ts,
            s.len() as int,
        ));
        assert forall|k: int| 0 <= k < (em + rest).len() implies span_wf(s, #[trigger] (em
            + rest)[k]) by {
            if k < em.len() {
                assert((em + rest)[k] == em[k]);
            } else {
                assert((em + rest)[k] == rest[k - em.len()]);
            }
        }
    }
}

/// Scanning is lossless: the spans of a SQL text, rendered in order, give back
/// the text itself, and every span lies within the text.
pub proof fn lemma_scan_lossless(s: Seq<char>)
    requires
        s.len() <= usize::MAX,
    ensures
        render(s, scan(s)) == s,
        forall|k: int| 0 <= k < scan(s).len() ==> span_wf(s, #[trigger] scan(s)[k]),
{
    lemma_scan_from_render(s, 0, 0, ScanState::Normal);
    assert(s.subrange(0, s.len() as int) =~= s);
}

/// The form of one span: text is never empty; a numeric placeholder is `?`
/// or `$` followed by digits that run up to a non-digit (for `?`) or a
/// non-identifier character (for `$`); a named placeholder is `$`, `:` or `@`
/// followed by identifier characters up to a non-identifier character, and a
/// `$` name is never all digits.
pub open spec fn span_shape(s: Seq<char>, t: SqlSpan) -> bool {
    match t {
        SqlSpan::Text { start, end } => start < end,
        SqlSpan::Numeric { prefix, start, end } => {
            &&& start < end
            &&& all_digits(s, start as int, end as int)
            &&& (prefix == '?' && (end >= s.len() || !is_digit(s[end as int]))) || (prefix == '$'
                && (end >= s.len() || !is_ident(s[end as int])))
        },
        SqlSpan::Placeholder { prefix, start, end } => {
            &&& prefix == '$' || prefix == ':' || prefix == '@'
            &&& start < end
            &&& forall|k: int| start <= k < end ==> is_ident(#[trigger] s[k])
            &&& !(prefix == '$' && all_digits(s, start as int, end as int))
            &&& end >= s.len() || !is_ident(s[end as int])
        },
    }
}

/// No two text spans follow each other.
pub open spec fn texts_apart(spans: Seq<SqlSpan>) -> bool {
    forall|k: int| 0 <= k < spans.len() - 1 ==> !(#[trigger] spans[k] is Text && spans[k + 1] is Text)
}

/// The spans one scanner step emits have their form, and any it emits end
/// with a placeholder.
proof fn lemma_step_shape(s: Seq<char>, i: int, ts: int, st: ScanState)
    requires
        0 <= ts <= i < s.len(),
        s.len() <= usize::MAX,
    ensures
        ({
            let em = scan_step(s, i, ts, st).3;
            &&& forall|k: int| 0 <= k < em.len() ==> span_shape(s, #[trigger] em[k])
            &&& texts_apart(em)
            &&& em.len() > 0 ==> !(em[em.len() - 1] is Text)
        }),
{
    lemma_run_ends(s, i + 1);
    let em = scan_step(s, i, ts, st).3;
    if em.len() > 0 {
        let tb = text_before(ts, i);
        let tok = em[em.len() - 1];
        assert(em =~= tb + seq![tok]);
        assert(!(tok is Text));
        if st == ScanState::Normal && s[i] == '?' {
            assert(is_digit(s[i + 1]));
        }
        assert(span_shape(s, tok));
        assert forall|k: int| 0 <= k < em.len() implies span_shape(s, #[trigger] em[k]) by {
            if k < tb.len() {
                assert(em[k] == tb[k]);
            }
        }
    }
}

/// Scanning from a position gives spans of the right form, no two texts in
/// a row.
proof fn lemma_scan_from_shape(s: Seq<char>, i: int, ts: int, st: ScanState)
    requires
        0 <= ts <= i <= s.len(),
        s.len() <= usize::MAX,
    ensures
        forall|k: int|
            0 <= k < scan_from(s, i, ts, st).len() ==> span_shape(s, #[trigger] scan_from(s, i, ts, st)[k]),
        texts_apart(scan_from(s, i, ts, st)),
    decreases s.len() - i,
{
    if i < s.len() {
        let (i2, ts2, st2, em) = scan_step(s, i, ts, st);
        lemma_step_bounds(s, i, ts, st);
        lemma_step_shape(s, i, ts, st);
        lemma_scan_from_shape(s, i2, ts2, st2);
        let rest = scan_from(s, i2, ts2, st2);
        let all = em + rest;
        assert(scan_from(s, i, ts, st) == all);
        assert forall|k: int| 0 <= k < all.len() implies span_shape(s, #[trigger] all[k]) by {
            if k < em.len() {
                assert(all[k] == em[k]);
            } else {
                assert(all[k] == rest[k - em.len()]);
            }
        }
        assert forall|k: int| 0 <= k < all.len() - 1 implies !(#[trigger] all[k] is Text
            && all[k + 1] is Text) by {
            if k + 1 < em.len() {
                assert(all[k] == em[k] && all[k + 1] == em[k + 1]);
            } else if k + 1 == em.len() {
                assert(all[k] == em[em.len() - 1]);
            } else {
                assert(all[k] == rest[k - em.len()] && all[k + 1] == rest[k + 1 - em.len()]);
            }
        }
    }
}

/// The shape of scanned SQL: every text span is non-empty, no two text
/// spans are next to each other, numeric placeholders are `?` or `$`
/// followed by a full run of digits, and named placeholders are `$`, `:` or
/// `@` followed by a full run of identifier characters, never all digits for
/// `$`.
pub proof fn lemma_scan_shape(s: Seq<char>)
    requires
        s.len() <= usize::MAX,
    ensures
        forall|k: int| 0 <= k < scan(s).len() ==> span_shape(s, #[trigger] scan(s)[k]),
        texts_apart(scan(s)),
{
    lemma_scan_from_shape(s, 0, 0, ScanState::Normal);
}

/// An ASCII letter, an ASCII digit, or `_`: the characters a placeholder
/// name is made of.
pub open spec fn is_name_char(c: char) -> bool {
    ||| 'a' <= c <= 'z'
    ||| 'A' <= c <= 'Z'
    ||| '0' <= c <= '9'
    ||| c == '_'
}

/// A run of name characters reaches to the end of the text.
proof fn lemma_name_run_to_end(s: Seq<char>, j: int)
    requires
        0 <= j <= s.len(),
        forall|k: int| j <= k < s.len() ==> is_name_char(#[trigger] s[k]),
    ensures
        ident_run_end(s, j) == s.len(),
    decreases s.len() - j,
{
    if j < s.len() {
        assert(is_name_char(s[j]));
        lemma_name_run_to_end(s, j + 1);
    }
}

/// Identifier characters in placeholder names are exactly the ASCII
/// letters, the ASCII digits and `_`.
pub proof fn lemma_ident_chars(c: char)
    ensures
        is_ident(c) <==> is_name_char(c),
{
}

/// A named placeholder takes the whole run of name characters after its
/// prefix: `:` followed by any non-empty name of ASCII letters, digits and
/// `_` scans as one placeholder covering all of it.
pub proof fn lemma_colon_name_is_one_placeholder(name: Seq<char>)
    requires
        name.len() > 0,
        name.len() < usize::MAX,
        forall|k: int| 0 <= k < name.len() ==> is_name_char(#[trigger] name[k]),
    ensures
        scan(seq![':'] + name) == seq![
            SqlSpan::Placeholder { prefix: ':', start: 1, end: (name.len() + 1) as usize },
        ],
{
    let s = seq![':'] + name;
    assert forall|k: int| 1 <= k < s.len() implies is_name_char(#[trigger] s[k]) by {
        assert(s[k] == name[k - 1]);
    }
    lemma_name_run_to_end(s, 1);
    lemma_run_ends(s, 1);
    assert(s[0] == ':');
    let (i2, ts2, st2, em) = scan_step(s, 0, 0, ScanState::Normal);
    assert(i2 == s.len() && ts2 == s.len() && st2 == ScanState::Normal);
    assert(text_before(0, 0) =~= Seq::<SqlSpan>::empty());
    assert(em =~= seq![
        SqlSpan::Placeholder { prefix: ':', start: 1, end: (name.len() + 1) as usize },
    ]);
    assert(scan_from(s, s.len() as int, s.len() as int, ScanState::Normal) =~= Seq::<SqlSpan>::empty());
    assert(scan(s) == em + scan_from(s, i2, ts2, st2));
    assert(em + Seq::<SqlSpan>::empty() =~= em);
}

/// Executable counterpart of [`digit_run_end`].
fn digit_run_end_exec(s: &Vec<char>, j: usize) -> (r: usize)
    requires
        j <= s.len(),
    ensures
        r == digit_run_end(s@, j as int),
{
    let mut k = j;
    proof {
        lemma_run_ends(s@, j as int);
    }
    while k < s.len() && is_digit_char(s[k])
        invariant
            j <= k <= s.len(),
            digit_run_end(s@, k as int) == digit_run_end(s@, j as int),
        decreases s.len() - k,
    {
        k = k + 1;
    }
    k
}

/// Executable counterpart of [`ident_run_end`].
fn ident_run_end_exec(s: &Vec<char>, j: usize) -> (r: usize)
    requires
        j <= s.len(),
    ensures
        r == ident_run_end(s@, j as int),
{
    let mut k = j;
    while k < s.len() && is_ident_char(s[k])
        invariant
            j <= k <= s.len(),
            ident_run_end(s@, k as int) == ident_run_end(s@, j as int),
        decreases s.len() - k,
    {
        k = k + 1;
    }
    k
}

/// Are all characters in `[a, b)` digits?
fn all_digits_exec(s: &Vec<char>, a: usize, b: usize) -> (r: bool)
    requires
        a <= b <= s.len(),
    ensures
        r == all_digits(s@, a as int, b as int),
{
    let mut k = a;
    while k < b
        invariant
            a <= k <= b <= s.len(),
            all_digits(s@, a as int, k as int),
        decreases b - k,
    {
        if !is_digit_char(s[k]) {
            return false;
        }
        k = k + 1;
    }
    true
}

/// Executable counterpart of [`scan_step`].
fn scan_step_exec(s: &Vec<char>, i: usize, ts: usize, st: ScanState) -> (r: (
    usize,
    usize,
    ScanState,
    Vec<SqlSpan>,
))
    requires
        ts <= i < s.len(),
    ensures
        ({
            let (i2, ts2, st2, em) = scan_step(s@, i as int, ts as int, st);
            &&& r.0 == i2
            &&& r.1 == ts2
            &&& r.2 == st2
            &&& r.3@ == em
        }),
{
    proof {
        lemma_run_ends(s@, i + 1);
    }
    let c = s[i];
    let has_next = i + 1 < s.len();
    match st {
        ScanState::Normal => {
            if c == '\'' {
                (i + 1, ts, ScanState::SingleQuote, Vec::new())
            } else if c == '"' {
                (i + 1, ts, ScanState::DoubleQuote, Vec::new())
            } else if c == '-' && has_next && s[i + 1] == '-' {
                (i + 2, ts, ScanState::LineComment, Vec::new())
            } else if c == '/' && has_next && s[i + 1] == '*' {
                (i + 2, ts, ScanState::BlockComment, Vec::new())
            } else if c == '?' && has_next && is_digit_char(s[i + 1]) {
                let j = digit_run_end_exec(s, i + 1);
                let mut em: Vec<SqlSpan> = Vec::new();
                if i > ts {
                    em.push(SqlSpan::Text { start: ts, end: i });
                }
                em.push(SqlSpan::Numeric { prefix: '?', start: i + 1, end: j });
                proof {
                    assert(em@ =~= text_before(ts as int, i as int) + seq![
                        SqlSpan::Numeric { prefix: '?', start: (i + 1) as usize, end: j },
                    ]);
                }
                (j, j, ScanState::Normal, em)
            } else if c == '$' || c == ':' || c == '@' {
                let end = ident_run_end_exec(s, i + 1);
                if end > i + 1 {
                    let tok = if c == '$' && all_digits_exec(s, i + 1, end) {
                        SqlSpan::Numeric { prefix: '$', start: i + 1, end: end }
                    } else {
                        SqlSpan::Placeholder { prefix: c, start: i + 1, end: end }
                    };
                    let mut em: Vec<SqlSpan> = Vec::new();
                    if i > ts {
                        em.push(SqlSpan::Text { start: ts, end: i });
                    }
                    em.push(tok);
                    proof {
                        assert(em@ =~= text_before(ts as int, i as int) + seq![tok]);
                    }
                    (end, end, ScanState::Normal, em)
                } else {
                    (i + 1, ts, ScanState::Normal, Vec::new())
                }
            } else {
                (i + 1, ts, ScanState::Normal, Vec::new())
            }
        },
        ScanState::SingleQuote => {
            if c == '\'' {
                if has_next && s[i + 1] == '\'' {
                    (i + 2, ts, ScanState::SingleQuote, Vec::new())
                } else {
                    (i + 1, ts, ScanState::Normal, Vec::new())
                }
            } else {
                (i + 1, ts, ScanState::SingleQuote, Vec::new())
            }
        },
        ScanState::DoubleQuote => {
            if c == '"' {
                if has_next && s[i + 1] == '"' {
                    (i + 2, ts, ScanState::DoubleQuote, Vec::new())
                } else {
                    (i + 1, ts, ScanState::Normal, Vec::new())
                }
            } else {
                (i + 1, ts, ScanState::DoubleQuote, Vec::new())
            }
        },
        ScanState::LineComment => {
            if c == '\n' {
                (i + 1, ts, ScanState::Normal, Vec::new())
            } else {
                (i + 1, ts, ScanState::LineComment, Vec::new())
            }
        },
        ScanState::BlockComment => {
            if c == '*' && has_next && s[i + 1] == '/' {
                (i + 2, ts, ScanState::Normal, Vec::new())
            } else {
                (i + 1, ts, ScanState::BlockComment, Vec::new())
            }
        },
    }
}

/// Walk the characters of SQL text and return its spans: literal text
/// (including quoted strings and comments) and the placeholders outside
/// strings, quoted identifiers and comments.
pub fn scan_spans(s: &Vec<char>) -> (r: Vec<SqlSpan>)
    ensures
        r@ == scan(s@),
{
    let mut out: Vec<SqlSpan> = Vec::new();
    let mut i: usize = 0;
    let mut ts: usize = 0;
    let mut st = ScanState::Normal;
    while i < s.len()
        invariant
            ts <= i <= s.len(),
            out@ + scan_from(s@, i as int, ts as int, st) == scan(s@),
        decreases s.len() - i,
    {
        let (i2, ts2, st2, em) = scan_step_exec(s, i, ts, st);
        proof {
            lemma_step_bounds(s@, i as int, ts as int, st);
            assert(scan_from(s@, i as int, ts as int, st) == em@ + scan_from(
                s@,
                i2 as int,
                ts2 as int,
                st2,
            ));
            assert(out@ + em@ + scan_from(s@, i2 as int, ts2 as int, st2) =~= out@ + (em@
                + scan_from(s@, i2 as int, ts2 as int, st2)));
        }
        let mut em = em;
        out.append(&mut em);
        i = i2;
        ts = ts2;
        st = st2;
    }
    if s.len() > ts {
        out.push(SqlSpan::Text { start: ts, end: s.len() });
    }
    proof {
        assert(out@ =~= scan(s@));
    }
    out
}

/// Walk `sql` and return its spans outside strings and comments.
pub fn scan_sql(sql: &str) -> (r: Vec<SqlSpan>)
    ensures
        r@ == scan(sql@),
        sql@.len() <= usize::MAX,
{
    let chars = chars_of(sql);
    assert(chars@.len() == chars.len());
    scan_spans(&chars)
}

/// Does any span of `spans` denote a numeric placeholder?
pub open spec fn has_numeric(spans: Seq<SqlSpan>) -> bool {
    exists|k: int| 0 <= k < spans.len() && (#[trigger] spans[k]) is Numeric
}

/// Returns `true` if SQL contains `?NNN` or numeric `$NNN` placeholders outside
/// strings, quoted identifiers, and comments.
pub fn contains_numeric_parameter(sql: &str) -> (r: bool)
    ensures
        r == has_numeric(scan(sql@)),
        sql@.len() <= usize::MAX,
{
    let spans = scan_sql(sql);
    let mut k: usize = 0;
    while k < spans.len()
        invariant
            k <= spans.len(),
            spans@ == scan(sql@),
            sql@.len() <= usize::MAX,
            forall|j: int| 0 <= j < k ==> !(#[trigger] spans@[j] is Numeric),
        decreases spans.len() - k,
    {
        match spans[k] {
            SqlSpan::Numeric { .. } => {
                return true;
            },
            _ => {},
        }
        k = k + 1;
    }
    false
}

/// The replacement name for `name`, if any (the first matching pair).
pub open spec fn lookup_rename(renames: Seq<(Seq<char>, Seq<char>)>, name: Seq<char>) -> Option<
    Seq<char>,
>
    decreases renames.len(),
{
    if renames.len() == 0 {
        None
    } else if renames[0].0 == name {
        Some(renames[0].1)
    } else {
        lookup_rename(renames.drop_first(), name)
    }
}

/// The character view of a list of renames.
pub open spec fn renames_view(r: Seq<(String, String)>) -> Seq<(Seq<char>, Seq<char>)> {
    r.map_values(|p: (String, String)| (p.0@, p.1@))
}

/// The rewritten text of one span.
pub open spec fn rewrite_span(s: Seq<char>, t: SqlSpan, rn: Seq<(Seq<char>, Seq<char>)>) -> Seq<
    char,
> {
    match t {
        SqlSpan::Text { start, end } => s.subrange(start as int, end as int),
        SqlSpan::Numeric { prefix, start, end } => seq![prefix] + s.subrange(
            start as int,
            end as int,
        ),
        SqlSpan::Placeholder { prefix, start, end } => seq![prefix] + match lookup_rename(
            rn,
            s.subrange(start as int, end as int),
        ) {
            Some(n) => n,
            None => s.subrange(start as int, end as int),
        },
    }
}

/// The rewritten text of a sequence of spans.
pub open spec fn rewrite_all(s: Seq<char>, spans: Seq<SqlSpan>, rn: Seq<(Seq<char>, Seq<char>)>) -> Seq<char>
    decreases spans.len(),
{
    if spans.len() == 0 {
        seq![]
    } else {
        rewrite_span(s, spans[0], rn) + rewrite_all(s, spans.drop_first(), rn)
    }
}

/// SQL text with its named placeholders renamed by `rn`.
pub open spec fn rewritten(s: Seq<char>, rn: Seq<(Seq<char>, Seq<char>)>) -> Seq<char> {
    rewrite_all(s, scan(s), rn)
}

/// Renaming a parameter replaces its whole name: rewriting `:` followed by
/// a name of ASCII letters, digits and `_`, with that name renamed to
/// `new`, gives `:` followed by `new`.
pub proof fn lemma_rename_whole_name(name: Seq<char>, new: Seq<char>)
    requires
        name.len() > 0,
        name.len() < usize::MAX,
        forall|k: int| 0 <= k < name.len() ==> is_name_char(#[trigger] name[k]),
    ensures
        rewritten(seq![':'] + name, seq![(name, new)]) == seq![':'] + new,
{
    let s = seq![':'] + name;
    lemma_colon_name_is_one_placeholder(name);
    let t = SqlSpan::Placeholder { prefix: ':', start: 1, end: (name.len() + 1) as usize };
    assert(s.subrange(1, name.len() + 1int) =~= name);
    assert(seq![t].drop_first() =~= Seq::<SqlSpan>::empty());
    assert(rewrite_all(s, seq![t].drop_first(), seq![(name, new)]) =~= Seq::<char>::empty());
    assert(rewritten(s, seq![(name, new)]) =~= seq![':'] + new);
}

/// Rewriting one more span appends its rewritten text.
proof fn lemma_rewrite_push(s: Seq<char>, spans: Seq<SqlSpan>, t: SqlSpan, rn: Seq<(Seq<char>, Seq<char>)>)
    ensures
        rewrite_all(s, spans.push(t), rn) == rewrite_all(s, spans, rn) + rewrite_span(s, t, rn),
    decreases spans.len(),
{
    if spans.len() == 0 {
        assert(spans.push(t).drop_first() =~= Seq::<SqlSpan>::empty());
        assert(rewrite_all(s, spans.push(t).drop_first(), rn) =~= Seq::<char>::empty());
        assert(rewrite_all(s, spans, rn) =~= Seq::<char>::empty());
        assert(rewrite_all(s, spans.push(t), rn) =~= rewrite_span(s, t, rn));
    } else {
        assert(spans.push(t).drop_first() =~= spans.drop_first().push(t));
        lemma_rewrite_push(s, spans.drop_first(), t, rn);
        assert(rewrite_all(s, spans.push(t), rn) =~= rewrite_span(s, spans[0], rn) + (
        rewrite_all(s, spans.drop_first(), rn) + rewrite_span(s, t, rn)));
    }
}

/// Rewriting leaves every span whose name has no replacement as it was.
proof fn lemma_rewrite_all_identity(s: Seq<char>, spans: Seq<SqlSpan>, rn: Seq<(Seq<char>, Seq<char>)>)
    requires
        forall|k: int| 0 <= k < spans.len() ==> span_wf(s, #[trigger] spans[k]),
        forall|k: int|
            0 <= k < spans.len() ==> (#[trigger] spans[k] matches SqlSpan::Placeholder {
                start,
                end,
                ..
            } ==> lookup_rename(rn, s.subrange(start as int, end as int)) is None),
    ensures
        rewrite_all(s, spans, rn) == render(s, spans),
    decreases spans.len(),
{
    if spans.len() > 0 {
        let t = spans[0];
        assert(span_wf(s, t));
        assert forall|k: int| 0 <= k < spans.drop_first().len() implies span_wf(
            s,
            #[trigger] spans.drop_first()[k],
        ) by {
            assert(spans.drop_first()[k] == spans[k + 1]);
        }
        assert forall|k: int| 0 <= k < spans.drop_first().len() implies (
        #[trigger] spans.drop_first()[k] matches SqlSpan::Placeholder { start, end, .. }
            ==> lookup_rename(rn, s.subrange(start as int, end as int)) is None) by {
            assert(spans.drop_first()[k] == spans[k + 1]);
        }
        lemma_rewrite_all_identity(s, spans.drop_first(), rn);
        match t {
            SqlSpan::Text { .. } => {},
            SqlSpan::Numeric { prefix, start, end } => {
                assert(seq![prefix] + s.subrange(start as int, end as int) =~= s.subrange(
                    start - 1,
                    end as int,
                ));
            },
            SqlSpan::Placeholder { prefix, start, end } => {
                assert(seq![prefix] + s.subrange(start as int, end as int) =~= s.subrange(
                    start - 1,
                    end as int,
                ));
            },
        }
    }
}

/// Rewriting with renames that match no placeholder of the text gives the text
/// back unchanged; in particular rewriting with no renames is the identity.
pub proof fn lemma_rewrite_without_matches_is_identity(s: Seq<char>, rn: Seq<(Seq<char>, Seq<char>)>)
    requires
        s.len() <= usize::MAX,
        forall|k: int|
            0 <= k < scan(s).len() ==> (#[trigger] scan(s)[k] matches SqlSpan::Placeholder {
                start,
                end,
                ..
            } ==> lookup_rename(rn, s.subrange(start as int, end as int)) is None),
    ensures
        rewritten(s, rn) == s,
{
    lemma_scan_lossless(s);
    lemma_rewrite_all_identity(s, scan(s), rn);
}

/// Index of the first rename whose old name equals `s[start..end]`.
fn find_rename(renames: &Vec<(String, String)>, s: &Vec<char>, start: usize, end: usize) -> (r: Option<usize>)
    requires
        start <= end <= s.len(),
    ensures
        match r {
            Some(k) => k < renames.len() && lookup_rename(renames_view(renames@), s@.subrange(start as int, end as int)) == Some(renames@[k as int].1@),
            None => lookup_rename(renames_view(renames@), s@.subrange(start as int, end as int)) is None,
        },
{
    let ghost name = s@.subrange(start as int, end as int);
    let ghost rv = renames_view(renames@);
    let mut k: usize = 0;
    assert(rv.skip(0) =~= rv);
    while k < renames.len()
        invariant
            k <= renames.len(),
            rv == renames_view(renames@),
            rv.len() == renames@.len(),
            start <= end <= s.len(),
            name == s@.subrange(start as int, end as int),
            lookup_rename(rv, name) == lookup_rename(rv.skip(k as int), name),
        decreases renames.len() - k,
    {
        let key = chars_of(renames[k].0.as_str());
        assert(rv.skip(k as int).drop_first() =~= rv.skip(k + 1));
        assert(rv.skip(k as int)[0] == (renames@[k as int].0@, renames@[k as int].1@));
        if range_eq(s, start, end, &key) {
            return Some(k);
        }
        k = k + 1;
    }
    None
}

/// Rewrites named parameters (e.g. `:name`, `@name`, `$name`) according to the
/// provided mapping, skipping string literals, quoted identifiers, and
/// comments.
pub fn rewrite_named_parameters(sql: &str, renames: &Vec<(String, String)>) -> (r: String)
    ensures
        r@ == rewritten(sql@, renames_view(renames@)),
{
    let s = chars_of(sql);
    let spans = scan_spans(&s);
    proof {
        assert(s@.len() == s.len());
        lemma_scan_lossless(s@);
    }
    let ghost rn = renames_view(renames@);
    let mut out = String::new();
    let mut k: usize = 0;
    while k < spans.len()
        invariant
            k <= spans.len(),
            spans@ == scan(s@),
            s@ == sql@,
            rn == renames_view(renames@),
            forall|j: int| 0 <= j < spans@.len() ==> span_wf(s@, #[trigger] spans@[j]),
            out@ == rewrite_all(s@, spans@.take(k as int), rn),
        decreases spans.len() - k,
    {
        let t = spans[k];
        assert(span_wf(s@, spans@[k as int]));
        let ghost before = out@;
        match t {
            SqlSpan::Text { start, end } => {
                push_range(&mut out, &s, start, end);
            },
            SqlSpan::Numeric { prefix, start, end } => {
                push_char(&mut out, prefix);
                push_range(&mut out, &s, start, end);
                assert(out@ =~= before + (seq![prefix] + s@.subrange(start as int, end as int)));
            },
            SqlSpan::Placeholder { prefix, start, end } => {
                push_char(&mut out, prefix);
                match find_rename(renames, &s, start, end) {
                    Some(idx) => {
                        let nc = chars_of(renames[idx].1.as_str());
                        let ghost mid = out@;
                        push_range(&mut out, &nc, 0, nc.len());
                        assert(nc@.subrange(0, nc@.len() as int) =~= nc@);
                        assert(rn[idx as int].1 == renames@[idx as int].1@);
                        assert(out@ =~= before + rewrite_span(s@, t, rn));
                    },
                    None => {
                        push_range(&mut out, &s, start, end);
                        assert(out@ =~= before + rewrite_span(s@, t, rn));
                    },
                }
            },
        }
        proof {
            lemma_rewrite_push(s@, spans@.take(k as int), t, rn);
            assert(spans@.take(k + 1) =~= spans@.take(k as int).push(t));
        }
        k = k + 1;
    }
    assert(spans@.take(spans@.len() as int) =~= spans@);
    out
}

} // verus!
