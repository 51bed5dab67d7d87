//! Decoding `DuckDB`'s exception JSON.
//!
//! When `duckdb_expression_fold` fails, `DuckDB` builds the error from the
//! exception's JSON form, such as
//! `{"exception_type":"Conversion","exception_message":"Could not convert
//! string 'abc' to INT64",...}`, and always tags it `INVALID_INPUT`. This
//! module unpacks that text: the plain `exception_message` and the
//! [`DuckDbErrorType`] named by `exception_type`. Text that does not parse as
//! that JSON is left as it is.

use vstd::prelude::*;

use crate::error_data::DuckDbErrorType;
use crate::text::{is_ascii_ws, is_unicode_ws, is_whitespace, push_char, str_chars, str_eq};

verus! {

// ─── Trimming ────────────────────────────────────────────────────────────────

/// `s` without its leading Unicode whitespace.
pub open spec fn trim_start(s: Seq<char>) -> Seq<char>
    decreases s.len(),
{
    if s.len() > 0 && is_unicode_ws(s[0]) {
        trim_start(s.drop_first())
    } else {
        s
    }
}

/// `s` without its trailing Unicode whitespace.
pub open spec fn trim_end(s: Seq<char>) -> Seq<char>
    decreases s.len(),
{
    if s.len() > 0 && is_unicode_ws(s.last()) {
        trim_end(s.drop_last())
    } else {
        s
    }
}

/// `str::trim`: `s` without leading and trailing Unicode whitespace.
pub open spec fn trim(s: Seq<char>) -> Seq<char> {
    trim_end(trim_start(s))
}

proof fn lemma_trim_start_skip(s: Seq<char>, i: int)
    requires
        0 <= i <= s.len(),
        forall|j: int| 0 <= j < i ==> is_unicode_ws(s[j]),
    ensures
        trim_start(s) == trim_start(s.subrange(i, s.len() as int)),
    decreases i,
{
    if i > 0 {
        lemma_trim_start_skip(s.drop_first(), i - 1);
        assert(s.drop_first().subrange(i - 1, s.drop_first().len() as int) =~= s.subrange(
            i,
            s.len() as int,
        ));
    } else {
        assert(s.subrange(0, s.len() as int) =~= s);
    }
}

proof fn lemma_trim_end_skip(s: Seq<char>, j: int)
    requires
        0 <= j <= s.len(),
        forall|k: int| j <= k < s.len() ==> is_unicode_ws(s[k]),
    ensures
        trim_end(s) == trim_end(s.subrange(0, j)),
    decreases s.len() - j,
{
    if j < s.len() {
        lemma_trim_end_skip(s.drop_last(), j);
        assert(s.drop_last().subrange(0, j) =~= s.subrange(0, j));
    } else {
        assert(s.subrange(0, j) =~= s);
    }
}

/// `str::trim` on a character sequence.
pub fn trim_chars(s: &[char]) -> (out: Vec<char>)
    ensures
        out@ == trim(s@),
{
    let n = s.len();
    let mut i: usize = 0;
    while i < n && is_whitespace(s[i])
        invariant
            n == s@.len(),
            i <= n,
            forall|j: int| 0 <= j < i ==> is_unicode_ws(s@[j]),
        decreases n - i,
    {
        i = i + 1;
    }
    proof {
        lemma_trim_start_skip(s@, i as int);
    }
    let ghost rest = s@.subrange(i as int, n as int);
    assert(rest.len() == 0 || !is_unicode_ws(rest[0]));
    assert(trim_start(rest) == rest);
    let mut j: usize = n;
    while j > i && is_whitespace(s[j - 1])
        invariant
            n == s@.len(),
            i <= j <= n,
            forall|k: int| j <= k < n ==> is_unicode_ws(s@[k]),
        decreases j,
    {
        j = j - 1;
    }
    proof {
        assert forall|k: int| j - i <= k < rest.len() implies is_unicode_ws(rest[k]) by {
            assert(rest[k] == s@[i + k]);
        }
        lemma_trim_end_skip(rest, j - i);
        let core = rest.subrange(0, j - i);
        assert(core.len() == 0 || !is_unicode_ws(core.last()));
        assert(trim_end(core) == core);
    }
    let mut out: Vec<char> = Vec::new();
    let mut k: usize = i;
    while k < j
        invariant
            i <= k <= j <= n,
            n == s@.len(),
            out@ == s@.subrange(i as int, k as int),
        decreases j - k,
    {
        out.push(s[k]);
        assert(s@.subrange(i as int, k as int).push(s@[k as int]) =~= s@.subrange(
            i as int,
            k + 1,
        ));
        k = k + 1;
    }
    assert(out@ =~= rest.subrange(0, j - i));
    out
}

// ─── JSON strings ────────────────────────────────────────────────────────────

/// The value of a hexadecimal digit (`char::to_digit(16)`).
pub open spec fn hex_value(c: char) -> Option<int> {
    if '0' <= c <= '9' {
        Some(c as int - '0' as int)
    } else if 'a' <= c <= 'f' {
        Some(c as int - 'a' as int + 10)
    } else if 'A' <= c <= 'F' {
        Some(c as int - 'A' as int + 10)
    } else {
        None
    }
}

/// The value of the four hex digits at `i`, if there are four.
pub open spec fn hex4_at(t: Seq<char>, i: int) -> Option<int> {
    if 0 <= i && i + 4 <= t.len() && hex_value(t[i]) is Some && hex_value(t[i + 1]) is Some
        && hex_value(t[i + 2]) is Some && hex_value(t[i + 3]) is Some {
        Some(
            ((hex_value(t[i])->0 * 16 + hex_value(t[i + 1])->0) * 16 + hex_value(t[i + 2])->0) * 16
                + hex_value(t[i + 3])->0,
        )
    } else {
        None
    }
}

/// `code` is a Unicode scalar value (what `char::from_u32` accepts).
pub open spec fn is_scalar(code: int) -> bool {
    (0 <= code < 0xD800) || (0xE000 <= code <= 0x10FFFF)
}

/// The character a one-letter escape `\e` stands for, if `e` names one.
pub open spec fn simple_escape(e: char) -> Option<char> {
    if e == '"' {
        Some('"')
    } else if e == '\\' {
        Some('\\')
    } else if e == '/' {
        Some('/')
    } else if e == 'b' {
        Some('\u{8}')
    } else if e == 'f' {
        Some('\u{c}')
    } else if e == 'n' {
        Some('\n')
    } else if e == 'r' {
        Some('\r')
    } else if e == 't' {
        Some('\t')
    } else {
        None
    }
}

/// Decodes the body of a JSON string literal from position `i` (just after
/// the opening quote or a decoded character), having decoded `acc` so far.
/// Returns the decoded text and the position after the closing quote, or
/// `None` if the literal is unterminated or holds an invalid escape
/// (including an unpaired `\u` surrogate).
pub open spec fn string_body(t: Seq<char>, i: int, acc: Seq<char>) -> Option<(Seq<char>, int)>
    decreases t.len() - i,
{
    if i < 0 || i >= t.len() {
        None
    } else if t[i] == '"' {
        Some((acc, i + 1))
    } else if t[i] != '\\' {
        string_body(t, i + 1, acc.push(t[i]))
    } else if i + 1 >= t.len() {
        None
    } else if simple_escape(t[i + 1]) is Some {
        string_body(t, i + 2, acc.push(simple_escape(t[i + 1])->0))
    } else if t[i + 1] != 'u' {
        None
    } else {
        match hex4_at(t, i + 2) {
            None => None,
            Some(high) => if 0xD800 <= high < 0xDC00 {
                if i + 7 < t.len() && t[i + 6] == '\\' && t[i + 7] == 'u' {
                    match hex4_at(t, i + 8) {
                        None => None,
                        Some(low) => if 0xDC00 <= low < 0xE000 {
                            string_body(
                                t,
                                i + 12,
                                acc.push((0x10000 + (high - 0xD800) * 1024 + (low - 0xDC00)) as char),
                            )
                        } else {
                            None
                        },
                    }
                } else {
                    None
                }
            } else if is_scalar(high) {
                string_body(t, i + 6, acc.push(high as char))
            } else {
                None
            },
        }
    }
}

/// The JSON string literal starting at `i` (its opening quote): its decoded
/// text and the position just after its closing quote.
pub open spec fn json_string_at(t: Seq<char>, i: int) -> Option<(Seq<char>, int)> {
    if 0 <= i < t.len() && t[i] == '"' {
        string_body(t, i + 1, Seq::empty())
    } else {
        None
    }
}

pub proof fn lemma_string_body_advances(t: Seq<char>, i: int, acc: Seq<char>)
    ensures
        string_body(t, i, acc) matches Some((_, j)) ==> i < j <= t.len(),
    decreases t.len() - i,
{
    if 0 <= i < t.len() && t[i] != '"' {
        if t[i] != '\\' {
            lemma_string_body_advances(t, i + 1, acc.push(t[i]));
        } else if i + 1 < t.len() {
            if simple_escape(t[i + 1]) is Some {
                lemma_string_body_advances(t, i + 2, acc.push(simple_escape(t[i + 1])->0));
            } else if t[i + 1] == 'u' {
                if let Some(high) = hex4_at(t, i + 2) {
                    if 0xD800 <= high < 0xDC00 {
                        if let Some(low) = hex4_at(t, i + 8) {
                            lemma_string_body_advances(
                                t,
                                i + 12,
                                acc.push((0x10000 + (high - 0xD800) * 1024 + (low - 0xDC00)) as char),
                            );
                        }
                    } else {
                        lemma_string_body_advances(t, i + 6, acc.push(high as char));
                    }
                }
            }
        }
    }
}

/// The position of the first character at or after `i` that is not ASCII
/// whitespace (or the end).
pub open spec fn skip_ws(t: Seq<char>, i: int) -> int
    decreases t.len() - i,
{
    if 0 <= i < t.len() && is_ascii_ws(t[i]) {
        skip_ws(t, i + 1)
    } else {
        i
    }
}

pub proof fn lemma_skip_ws_bounds(t: Seq<char>, i: int)
    requires
        0 <= i <= t.len(),
    ensures
        i <= skip_ws(t, i) <= t.len(),
    decreases t.len() - i,
{
    if i < t.len() && is_ascii_ws(t[i]) {
        lemma_skip_ws_bounds(t, i + 1);
    }
}

/// Reads `"key" : "value"` pairs separated by `,` up to the closing `}` from
/// position `i` (after `{` or `,`), keeping the last `exception_type` and
/// `exception_message` values seen. Returns both and the position after `}`.
pub open spec fn members(
    t: Seq<char>,
    i: int,
    ty: Option<Seq<char>>,
    msg: Option<Seq<char>>,
) -> Option<(Option<Seq<char>>, Option<Seq<char>>, int)>
    decreases t.len() - i,
{
    if i < 0 || i > t.len() {
        None
    } else {
        let k0 = skip_ws(t, i);
        match json_string_at(t, k0) {
            None => None,
            Some((key, k1)) => {
                let c0 = skip_ws(t, k1);
                if !(0 <= c0 < t.len() && t[c0] == ':') {
                    None
                } else {
                    let v0 = skip_ws(t, c0 + 1);
                    match json_string_at(t, v0) {
                        None => None,
                        Some((val, v1)) => {
                            let ty2 = if key == "exception_type"@ { Some(val) } else { ty };
                            let msg2 = if key == "exception_message"@ { Some(val) } else { msg };
                            let e = skip_ws(t, v1);
                            if 0 <= e < t.len() && t[e] == ',' {
                                proof {
                                    lemma_skip_ws_bounds(t, i);
                                    lemma_string_body_advances(t, k0 + 1, Seq::empty());
                                    lemma_skip_ws_bounds(t, k1);
                                    lemma_skip_ws_bounds(t, c0 + 1);
                                    lemma_string_body_advances(t, v0 + 1, Seq::empty());
                                    lemma_skip_ws_bounds(t, v1);
                                }
                                members(t, e + 1, ty2, msg2)
                            } else if 0 <= e < t.len() && t[e] == '}' {
                                Some((ty2, msg2, e + 1))
                            } else {
                                None
                            }
                        },
                    }
                }
            },
        }
    }
}

/// `DuckDB`'s exception JSON: a flat object whose values are all strings,
/// surrounded by optional whitespace. Its `exception_type` and
/// `exception_message`, decoded; `None` for anything else (not an object, an
/// empty object, a non-string value, a missing key, trailing text).
pub open spec fn spec_parse_exception_json(raw: Seq<char>) -> Option<(Seq<char>, Seq<char>)> {
    let t = trim(raw);
    if !(t.len() > 0 && t[0] == '{') {
        None
    } else if skip_ws(t, 1) < t.len() && t[skip_ws(t, 1)] == '}' {
        None
    } else {
        match members(t, 1, None, None) {
            Some((Some(ty), Some(msg), end)) => if skip_ws(t, end) < t.len() {
                None
            } else {
                Some((ty, msg))
            },
            _ => None,
        }
    }
}

/// The text held by an optional string.
pub open spec fn opt_view(o: Option<String>) -> Option<Seq<char>> {
    match o {
        Some(s) => Some(s@),
        None => None,
    }
}

/// `char::from_u32`: the character whose scalar value is `code`, or `None`
/// when `code` is a surrogate or above `0x10FFFF`.
#[verifier::external_body]
fn char_from_u32(code: u32) -> (r: Option<char>)
    ensures
        r is Some <==> is_scalar(code as int),
        r matches Some(c) ==> c as int == code as int,
{
    char::from_u32(code)
}

fn hex_digit_value(c: char) -> (r: Option<u32>)
    ensures
        r matches Some(v) ==> v < 16,
        r matches Some(v) ==> hex_value(c) == Some(v as int),
        r is None ==> hex_value(c) is None,
{
    if '0' <= c && c <= '9' {
        Some((c as u32) - ('0' as u32))
    } else if 'a' <= c && c <= 'f' {
        Some((c as u32) - ('a' as u32) + 10)
    } else if 'A' <= c && c <= 'F' {
        Some((c as u32) - ('A' as u32) + 10)
    } else {
        None
    }
}

/// Reads the four hex digits of a `\u` escape at `i`.
pub fn parse_hex4(t: &[char], i: usize) -> (r: Option<u32>)
    ensures
        r matches Some(v) ==> hex4_at(t@, i as int) == Some(v as int),
        r is None ==> hex4_at(t@, i as int) is None,
{
    if i > t.len() || t.len() - i < 4 {
        return None;
    }
    let d0 = match hex_digit_value(t[i]) {
        Some(d) => d,
        None => return None,
    };
    let d1 = match hex_digit_value(t[i + 1]) {
        Some(d) => d,
        None => return None,
    };
    let d2 = match hex_digit_value(t[i + 2]) {
        Some(d) => d,
        None => return None,
    };
    let d3 = match hex_digit_value(t[i + 3]) {
        Some(d) => d,
        None => return None,
    };
    let code: u32 = ((d0 * 16 + d1) * 16 + d2) * 16 + d3;
    Some(code)
}

/// Parses one JSON string literal whose opening quote is at `i`, decoding
/// escapes (with `\u` surrogate pairs). Returns the text and the position
/// after the closing quote.
pub fn parse_json_string(t: &[char], i: usize) -> (r: Option<(String, usize)>)
    ensures
        r matches Some((s, j)) ==> json_string_at(t@, i as int) == Some((s@, j as int)),
        r is None ==> json_string_at(t@, i as int) is None,
{
    if i >= t.len() || t[i] != '"' {
        return None;
    }
    let mut out = String::new();
    let mut p: usize = i + 1;
    loop
        invariant
            i < p <= t@.len(),
            t@[i as int] == '"',
            string_body(t@, i + 1, Seq::empty()) == string_body(t@, p as int, out@),
        decreases t@.len() - p,
    {
        if p >= t.len() {
            return None;
        }
        let c = t[p];
        if c == '"' {
            return Some((out, p + 1));
        }
        if c != '\\' {
            push_char(&mut out, c);
            p = p + 1;
            continue;
        }
        if p + 1 >= t.len() {
            return None;
        }
        let e = t[p + 1];
        if e == '"' || e == '\\' || e == '/' || e == 'b' || e == 'f' || e == 'n' || e == 'r'
            || e == 't' {
            let d = if e == 'b' {
                '\u{8}'
            } else if e == 'f' {
                '\u{c}'
            } else if e == 'n' {
                '\n'
            } else if e == 'r' {
                '\r'
            } else if e == 't' {
                '\t'
            } else {
                e
            };
            push_char(&mut out, d);
            p = p + 2;
            continue;
        }
        if e != 'u' {
            return None;
        }
        let high = match parse_hex4(t, p + 2) {
            Some(h) => h,
            None => return None,
        };
        if 0xD800 <= high && high < 0xDC00 {
            if !(t.len() - p > 7 && t[p + 6] == '\\' && t[p + 7] == 'u') {
                return None;
            }
            let low = match parse_hex4(t, p + 8) {
                Some(l) => l,
                None => return None,
            };
            if !(0xDC00 <= low && low < 0xE000) {
                return None;
            }
            let code: u32 = 0x10000 + (high - 0xD800) * 1024 + (low - 0xDC00);
            match char_from_u32(code) {
                Some(ch) => {
                    push_char(&mut out, ch);
                },
                None => {
                    return None;
                },
            }
            p = p + 12;
        } else {
            match char_from_u32(high) {
                Some(ch) => {
                    push_char(&mut out, ch);
                },
                None => {
                    return None;
                },
            }
            p = p + 6;
        }
    }
}

/// The position of the first character at or after `i` that is not ASCII
/// whitespace.
fn skip_ascii_ws(t: &[char], i: usize) -> (r: usize)
    requires
        i <= t@.len(),
    ensures
        r == skip_ws(t@, i as int),
        i <= r <= t@.len(),
{
    let mut p = i;
    while p < t.len() && (t[p] == ' ' || t[p] == '\t' || t[p] == '\n' || t[p] == '\x0C' || t[p]
        == '\r')
        invariant
            i <= p <= t@.len(),
            skip_ws(t@, i as int) == skip_ws(t@, p as int),
        decreases t@.len() - p,
    {
        p = p + 1;
    }
    p
}

/// Parses `DuckDB`'s exception JSON — a flat object whose values are all
/// strings — and returns its `exception_type` and `exception_message`.
///
/// Returns `None` for anything else (not an object, a non-string value, a
/// missing key, trailing text), so the caller can fall back to the raw text.
pub fn parse_exception_json(raw: &str) -> (r: Option<(String, String)>)
    ensures
        r matches Some((ty, msg)) ==> spec_parse_exception_json(raw@) == Some((ty@, msg@)),
        r is None ==> spec_parse_exception_json(raw@) is None,
{
    let all = str_chars(raw);
    let t = trim_chars(all.as_slice());
    let ghost g = t@;
    if !(t.len() > 0 && t[0] == '{') {
        return None;
    }
    let first = skip_ascii_ws(t.as_slice(), 1);
    if first < t.len() && t[first] == '}' {
        return None;
    }
    let mut exception_type: Option<String> = None;
    let mut exception_message: Option<String> = None;
    let mut p: usize = 1;
    let end: usize;
    loop
        invariant
            1 <= p <= t@.len(),
            g == t@,
            g == trim(raw@),
            g.len() > 0 && g[0] == '{',
            !(skip_ws(g, 1) < g.len() && g[skip_ws(g, 1)] == '}'),
            members(g, 1, None, None) == members(
                g,
                p as int,
                opt_view(exception_type),
                opt_view(exception_message),
            ),
        ensures
            end <= t@.len(),
            members(g, 1, None, None) == Some((
                opt_view(exception_type),
                opt_view(exception_message),
                end as int,
            )),
        decreases t@.len() - p,
    {
        let k0 = skip_ascii_ws(t.as_slice(), p);
        let (key, k1) = match parse_json_string(t.as_slice(), k0) {
            Some(x) => x,
            None => return None,
        };
        proof {
            lemma_string_body_advances(g, k0 + 1, Seq::empty());
        }
        let c0 = skip_ascii_ws(t.as_slice(), k1);
        if !(c0 < t.len() && t[c0] == ':') {
            return None;
        }
        let v0 = skip_ascii_ws(t.as_slice(), c0 + 1);
        let (value, v1) = match parse_json_string(t.as_slice(), v0) {
            Some(x) => x,
            None => return None,
        };
        proof {
            lemma_string_body_advances(g, v0 + 1, Seq::empty());
        }
        let is_type = str_eq(key.as_str(), "exception_type");
        let is_message = str_eq(key.as_str(), "exception_message");
        if is_type {
            exception_type = Some(value.clone());
        }
        if is_message {
            exception_message = Some(value);
        }
        let e = skip_ascii_ws(t.as_slice(), v1);
        if e < t.len() && t[e] == ',' {
            p = e + 1;
        } else if e < t.len() && t[e] == '}' {
            end = e + 1;
            break;
        } else {
            return None;
        }
    }
    let after = skip_ascii_ws(t.as_slice(), end);
    if after < t.len() {
        return None;
    }
    match (exception_type, exception_message) {
        (Some(ty), Some(msg)) => Some((ty, msg)),
        _ => None,
    }
}


// ─── Error types by name ─────────────────────────────────────────────────────

/// The category `Exception::ExceptionTypeToString` names `name`
/// (`EXCEPTION_MAP` in `DuckDB`'s `src/common/exception.cpp`); an unknown
/// name is [`DuckDbErrorType::Invalid`], as `DuckDB`'s own reverse lookup
/// gives.
pub open spec fn type_for_name(name: Seq<char>) -> DuckDbErrorType {
    if name == "Out of Range"@ {
        DuckDbErrorType::OutOfRange
    } else if name == "Conversion"@ {
        DuckDbErrorType::Conversion
    } else if name == "Unknown Type"@ {
        DuckDbErrorType::UnknownType
    } else if name == "Decimal"@ {
        DuckDbErrorType::Decimal
    } else if name == "Mismatch Type"@ {
        DuckDbErrorType::MismatchType
    } else if name == "Divide by Zero"@ {
        DuckDbErrorType::DivideByZero
    } else if name == "Object Size"@ {
        DuckDbErrorType::ObjectSize
    } else if name == "Invalid type"@ {
        DuckDbErrorType::InvalidType
    } else if name == "Serialization"@ {
        DuckDbErrorType::Serialization
    } else if name == "TransactionContext"@ {
        DuckDbErrorType::Transaction
    } else if name == "Not implemented"@ {
        DuckDbErrorType::NotImplemented
    } else if name == "Expression"@ {
        DuckDbErrorType::Expression
    } else if name == "Catalog"@ {
        DuckDbErrorType::Catalog
    } else if name == "Parser"@ {
        DuckDbErrorType::Parser
    } else if name == "Binder"@ {
        DuckDbErrorType::Binder
    } else if name == "Planner"@ {
        DuckDbErrorType::Planner
    } else if name == "Scheduler"@ {
        DuckDbErrorType::Scheduler
    } else if name == "Executor"@ {
        DuckDbErrorType::Executor
    } else if name == "Constraint"@ {
        DuckDbErrorType::Constraint
    } else if name == "Index"@ {
        DuckDbErrorType::Index
    } else if name == "Stat"@ {
        DuckDbErrorType::Stat
    } else if name == "Connection"@ {
        DuckDbErrorType::Connection
    } else if name == "Syntax"@ {
        DuckDbErrorType::Syntax
    } else if name == "Settings"@ {
        DuckDbErrorType::Settings
    } else if name == "Optimizer"@ {
        DuckDbErrorType::Optimizer
    } else if name == "NullPointer"@ {
        DuckDbErrorType::NullPointer
    } else if name == "IO"@ {
        DuckDbErrorType::Io
    } else if name == "INTERRUPT"@ {
        DuckDbErrorType::Interrupt
    } else if name == "FATAL"@ {
        DuckDbErrorType::Fatal
    } else if name == "INTERNAL"@ {
        DuckDbErrorType::Internal
    } else if name == "Invalid Input"@ {
        DuckDbErrorType::InvalidInput
    } else if name == "Out of Memory"@ {
        DuckDbErrorType::OutOfMemory
    } else if name == "Permission"@ {
        DuckDbErrorType::Permission
    } else if name == "Parameter Not Resolved"@ {
        DuckDbErrorType::ParameterNotResolved
    } else if name == "Parameter Not Allowed"@ {
        DuckDbErrorType::ParameterNotAllowed
    } else if name == "Dependency"@ {
        DuckDbErrorType::Dependency
    } else if name == "Missing Extension"@ {
        DuckDbErrorType::MissingExtension
    } else if name == "HTTP"@ {
        DuckDbErrorType::Http
    } else if name == "Extension Autoloading"@ {
        DuckDbErrorType::Autoload
    } else if name == "Sequence"@ {
        DuckDbErrorType::Sequence
    } else if name == "Invalid Configuration"@ {
        DuckDbErrorType::InvalidConfiguration
    } else {
        DuckDbErrorType::Invalid
    }
}

/// Every name of `DuckDB`'s `EXCEPTION_MAP` reads back as the category it
/// names ("Catalog" as the catalog category, "Parser" as the parser
/// category, and so on), whose code the C API constants fix (see
/// `lemma_error_codes_are_the_c_api_constants`).
pub proof fn lemma_exception_names_read_back()
    ensures
        type_for_name("Binder"@) == DuckDbErrorType::Binder,
        type_for_name("Catalog"@) == DuckDbErrorType::Catalog,
        type_for_name("Connection"@) == DuckDbErrorType::Connection,
        type_for_name("Constraint"@) == DuckDbErrorType::Constraint,
        type_for_name("Conversion"@) == DuckDbErrorType::Conversion,
        type_for_name("Decimal"@) == DuckDbErrorType::Decimal,
        type_for_name("Dependency"@) == DuckDbErrorType::Dependency,
        type_for_name("Divide by Zero"@) == DuckDbErrorType::DivideByZero,
        type_for_name("Executor"@) == DuckDbErrorType::Executor,
        type_for_name("Expression"@) == DuckDbErrorType::Expression,
        type_for_name("Extension Autoloading"@) == DuckDbErrorType::Autoload,
        type_for_name("FATAL"@) == DuckDbErrorType::Fatal,
        type_for_name("HTTP"@) == DuckDbErrorType::Http,
        type_for_name("Index"@) == DuckDbErrorType::Index,
        type_for_name("INTERNAL"@) == DuckDbErrorType::Internal,
        type_for_name("INTERRUPT"@) == DuckDbErrorType::Interrupt,
        type_for_name("Invalid Configuration"@) == DuckDbErrorType::InvalidConfiguration,
        type_for_name("Invalid Input"@) == DuckDbErrorType::InvalidInput,
        type_for_name("Invalid type"@) == DuckDbErrorType::InvalidType,
        type_for_name("IO"@) == DuckDbErrorType::Io,
        type_for_name("Mismatch Type"@) == DuckDbErrorType::MismatchType,
        type_for_name("Missing Extension"@) == DuckDbErrorType::MissingExtension,
        type_for_name("Not implemented"@) == DuckDbErrorType::NotImplemented,
        type_for_name("NullPointer"@) == DuckDbErrorType::NullPointer,
        type_for_name("Object Size"@) == DuckDbErrorType::ObjectSize,
        type_for_name("Optimizer"@) == DuckDbErrorType::Optimizer,
        type_for_name("Out of Memory"@) == DuckDbErrorType::OutOfMemory,
        type_for_name("Out of Range"@) == DuckDbErrorType::OutOfRange,
        type_for_name("Parameter Not Allowed"@) == DuckDbErrorType::ParameterNotAllowed,
        type_for_name("Parameter Not Resolved"@) == DuckDbErrorType::ParameterNotResolved,
        type_for_name("Parser"@) == DuckDbErrorType::Parser,
        type_for_name("Permission"@) == DuckDbErrorType::Permission,
        type_for_name("Planner"@) == DuckDbErrorType::Planner,
        type_for_name("Scheduler"@) == DuckDbErrorType::Scheduler,
        type_for_name("Sequence"@) == DuckDbErrorType::Sequence,
        type_for_name("Serialization"@) == DuckDbErrorType::Serialization,
        type_for_name("Settings"@) == DuckDbErrorType::Settings,
        type_for_name("Stat"@) == DuckDbErrorType::Stat,
        type_for_name("Syntax"@) == DuckDbErrorType::Syntax,
        type_for_name("TransactionContext"@) == DuckDbErrorType::Transaction,
        type_for_name("Unknown Type"@) == DuckDbErrorType::UnknownType,
{
    reveal_strlit("Binder");
    reveal_strlit("Catalog");
    reveal_strlit("Connection");
    reveal_strlit("Constraint");
    reveal_strlit("Conversion");
    reveal_strlit("Decimal");
    reveal_strlit("Dependency");
    reveal_strlit("Divide by Zero");
    reveal_strlit("Executor");
    reveal_strlit("Expression");
    reveal_strlit("Extension Autoloading");
    reveal_strlit("FATAL");
    reveal_strlit("HTTP");
    reveal_strlit("Index");
    reveal_strlit("INTERNAL");
    reveal_strlit("INTERRUPT");
    reveal_strlit("Invalid Configuration");
    reveal_strlit("Invalid Input");
    reveal_strlit("Invalid type");
    reveal_strlit("IO");
    reveal_strlit("Mismatch Type");
    reveal_strlit("Missing Extension");
    reveal_strlit("Not implemented");
    reveal_strlit("NullPointer");
    reveal_strlit("Object Size");
    reveal_strlit("Optimizer");
    reveal_strlit("Out of Memory");
    reveal_strlit("Out of Range");
    reveal_strlit("Parameter Not Allowed");
    reveal_strlit("Parameter Not Resolved");
    reveal_strlit("Parser");
    reveal_strlit("Permission");
    reveal_strlit("Planner");
    reveal_strlit("Scheduler");
    reveal_strlit("Sequence");
    reveal_strlit("Serialization");
    reveal_strlit("Settings");
    reveal_strlit("Stat");
    reveal_strlit("Syntax");
    reveal_strlit("TransactionContext");
    reveal_strlit("Unknown Type");
    assert("Binder"@.len() == 6);
    assert("Catalog"@.len() == 7);
    assert("Connection"@.len() == 10);
    assert("Constraint"@.len() == 10);
    assert("Conversion"@.len() == 10);
    assert("Decimal"@.len() == 7);
    assert("Dependency"@.len() == 10);
    assert("Divide by Zero"@.len() == 14);
    assert("Executor"@.len() == 8);
    assert("Expression"@.len() == 10);
    assert("Extension Autoloading"@.len() == 21);
    assert("FATAL"@.len() == 5);
    assert("HTTP"@.len() == 4);
    assert("Index"@.len() == 5);
    assert("INTERNAL"@.len() == 8);
    assert("INTERRUPT"@.len() == 9);
    assert("Invalid Configuration"@.len() == 21);
    assert("Invalid Input"@.len() == 13);
    assert("Invalid type"@.len() == 12);
    assert("IO"@.len() == 2);
    assert("Mismatch Type"@.len() == 13);
    assert("Missing Extension"@.len() == 17);
    assert("Not implemented"@.len() == 15);
    assert("NullPointer"@.len() == 11);
    assert("Object Size"@.len() == 11);
    assert("Optimizer"@.len() == 9);
    assert("Out of Memory"@.len() == 13);
    assert("Out of Range"@.len() == 12);
    assert("Parameter Not Allowed"@.len() == 21);
    assert("Parameter Not Resolved"@.len() == 22);
    assert("Parser"@.len() == 6);
    assert("Permission"@.len() == 10);
    assert("Planner"@.len() == 7);
    assert("Scheduler"@.len() == 9);
    assert("Sequence"@.len() == 8);
    assert("Serialization"@.len() == 13);
    assert("Settings"@.len() == 8);
    assert("Stat"@.len() == 4);
    assert("Syntax"@.len() == 6);
    assert("TransactionContext"@.len() == 18);
    assert("Unknown Type"@.len() == 12);
    assert("Binder"@[0] != "Parser"@[0]);
    assert("Binder"@[0] != "Syntax"@[0]);
    assert("Catalog"@[0] != "Decimal"@[0]);
    assert("Catalog"@[0] != "Planner"@[0]);
    assert("Connection"@[0] != "Dependency"@[0]);
    assert("Connection"@[0] != "Expression"@[0]);
    assert("Connection"@[0] != "Permission"@[0]);
    assert("Connection"@[3] != "Constraint"@[3]);
    assert("Connection"@[3] != "Conversion"@[3]);
    assert("Constraint"@[0] != "Dependency"@[0]);
    assert("Constraint"@[0] != "Expression"@[0]);
    assert("Constraint"@[0] != "Permission"@[0]);
    assert("Constraint"@[3] != "Conversion"@[3]);
    assert("Conversion"@[0] != "Dependency"@[0]);
    assert("Conversion"@[0] != "Expression"@[0]);
    assert("Conversion"@[0] != "Permission"@[0]);
    assert("Decimal"@[0] != "Planner"@[0]);
    assert("Dependency"@[0] != "Expression"@[0]);
    assert("Dependency"@[0] != "Permission"@[0]);
    assert("Executor"@[0] != "INTERNAL"@[0]);
    assert("Executor"@[0] != "Sequence"@[0]);
    assert("Executor"@[0] != "Settings"@[0]);
    assert("Expression"@[0] != "Permission"@[0]);
    assert("Extension Autoloading"@[0] != "Invalid Configuration"@[0]);
    assert("Extension Autoloading"@[0] != "Parameter Not Allowed"@[0]);
    assert("FATAL"@[0] != "Index"@[0]);
    assert("HTTP"@[0] != "Stat"@[0]);
    assert("INTERNAL"@[0] != "Sequence"@[0]);
    assert("INTERNAL"@[0] != "Settings"@[0]);
    assert("INTERRUPT"@[0] != "Optimizer"@[0]);
    assert("INTERRUPT"@[0] != "Scheduler"@[0]);
    assert("Invalid Configuration"@[0] != "Parameter Not Allowed"@[0]);
    assert("Invalid Input"@[0] != "Mismatch Type"@[0]);
    assert("Invalid Input"@[0] != "Out of Memory"@[0]);
    assert("Invalid Input"@[0] != "Serialization"@[0]);
    assert("Invalid type"@[0] != "Out of Range"@[0]);
    assert("Invalid type"@[0] != "Unknown Type"@[0]);
    assert("Mismatch Type"@[0] != "Out of Memory"@[0]);
    assert("Mismatch Type"@[0] != "Serialization"@[0]);
    assert("NullPointer"@[0] != "Object Size"@[0]);
    assert("Optimizer"@[0] != "Scheduler"@[0]);
    assert("Out of Memory"@[0] != "Serialization"@[0]);
    assert("Out of Range"@[0] != "Unknown Type"@[0]);
    assert("Parser"@[0] != "Syntax"@[0]);
    assert("Sequence"@[2] != "Settings"@[2]);
}

/// Maps an exception type name back to its [`DuckDbErrorType`]. An unknown
/// name maps to [`DuckDbErrorType::Invalid`].
pub fn error_type_from_name(name: &str) -> (t: DuckDbErrorType)
    ensures
        t == type_for_name(name@),
{
    if str_eq(name, "Out of Range") {
        DuckDbErrorType::OutOfRange
    } else if str_eq(name, "Conversion") {
        DuckDbErrorType::Conversion
    } else if str_eq(name, "Unknown Type") {
        DuckDbErrorType::UnknownType
    } else if str_eq(name, "Decimal") {
        DuckDbErrorType::Decimal
    } else if str_eq(name, "Mismatch Type") {
        DuckDbErrorType::MismatchType
    } else if str_eq(name, "Divide by Zero") {
        DuckDbErrorType::DivideByZero
    } else if str_eq(name, "Object Size") {
        DuckDbErrorType::ObjectSize
    } else if str_eq(name, "Invalid type") {
        DuckDbErrorType::InvalidType
    } else if str_eq(name, "Serialization") {
        DuckDbErrorType::Serialization
    } else if str_eq(name, "TransactionContext") {
        DuckDbErrorType::Transaction
    } else if str_eq(name, "Not implemented") {
        DuckDbErrorType::NotImplemented
    } else if str_eq(name, "Expression") {
        DuckDbErrorType::Expression
    } else if str_eq(name, "Catalog") {
        DuckDbErrorType::Catalog
    } else if str_eq(name, "Parser") {
        DuckDbErrorType::Parser
    } else if str_eq(name, "Binder") {
        DuckDbErrorType::Binder
    } else if str_eq(name, "Planner") {
        DuckDbErrorType::Planner
    } else if str_eq(name, "Scheduler") {
        DuckDbErrorType::Scheduler
    } else if str_eq(name, "Executor") {
        DuckDbErrorType::Executor
    } else if str_eq(name, "Constraint") {
        DuckDbErrorType::Constraint
    } else if str_eq(name, "Index") {
        DuckDbErrorType::Index
    } else if str_eq(name, "Stat") {
        DuckDbErrorType::Stat
    } else if str_eq(name, "Connection") {
        DuckDbErrorType::Connection
    } else if str_eq(name, "Syntax") {
        DuckDbErrorType::Syntax
    } else if str_eq(name, "Settings") {
        DuckDbErrorType::Settings
    } else if str_eq(name, "Optimizer") {
        DuckDbErrorType::Optimizer
    } else if str_eq(name, "NullPointer") {
        DuckDbErrorType::NullPointer
    } else if str_eq(name, "IO") {
        DuckDbErrorType::Io
    } else if str_eq(name, "INTERRUPT") {
        DuckDbErrorType::Interrupt
    } else if str_eq(name, "FATAL") {
        DuckDbErrorType::Fatal
    } else if str_eq(name, "INTERNAL") {
        DuckDbErrorType::Internal
    } else if str_eq(name, "Invalid Input") {
        DuckDbErrorType::InvalidInput
    } else if str_eq(name, "Out of Memory") {
        DuckDbErrorType::OutOfMemory
    } else if str_eq(name, "Permission") {
        DuckDbErrorType::Permission
    } else if str_eq(name, "Parameter Not Resolved") {
        DuckDbErrorType::ParameterNotResolved
    } else if str_eq(name, "Parameter Not Allowed") {
        DuckDbErrorType::ParameterNotAllowed
    } else if str_eq(name, "Dependency") {
        DuckDbErrorType::Dependency
    } else if str_eq(name, "Missing Extension") {
        DuckDbErrorType::MissingExtension
    } else if str_eq(name, "HTTP") {
        DuckDbErrorType::Http
    } else if str_eq(name, "Extension Autoloading") {
        DuckDbErrorType::Autoload
    } else if str_eq(name, "Sequence") {
        DuckDbErrorType::Sequence
    } else if str_eq(name, "Invalid Configuration") {
        DuckDbErrorType::InvalidConfiguration
    } else {
        DuckDbErrorType::Invalid
    }
}


/// Splits `DuckDB`'s exception JSON into the [`DuckDbErrorType`] its
/// `exception_type` names and its plain `exception_message`; `None` when
/// `raw` is not that JSON (the caller then keeps the text as it is).
pub fn exception_json_parts(raw: &str) -> (r: Option<(DuckDbErrorType, String)>)
    ensures
        r is Some <==> spec_parse_exception_json(raw@) is Some,
        r matches Some((t, m)) ==> spec_parse_exception_json(raw@) matches Some((ty, msg)) && t
            == type_for_name(ty) && m@ == msg,
{
    match parse_exception_json(raw) {
        Some((ty, msg)) => Some((error_type_from_name(ty.as_str()), msg)),
        None => None,
    }
}

// ─── Round trip ──────────────────────────────────────────────────────────────

/// How a JSON writer escapes one character inside a string literal: a quote
/// and a backslash get a backslash; everything else is written as it is.
pub open spec fn escape_char(c: char) -> Seq<char> {
    if c == '"' || c == '\\' {
        seq!['\\', c]
    } else {
        seq![c]
    }
}

/// `s` escaped for the inside of a JSON string literal.
pub open spec fn json_escape(s: Seq<char>) -> Seq<char>
    decreases s.len(),
{
    if s.len() == 0 {
        Seq::empty()
    } else {
        escape_char(s[0]) + json_escape(s.drop_first())
    }
}

/// `s` as a JSON string literal.
pub open spec fn json_quote(s: Seq<char>) -> Seq<char> {
    seq!['"'] + json_escape(s) + seq!['"']
}

/// The exception JSON `DuckDB` writes for an error of type `ty` with message
/// `msg`.
pub open spec fn exception_json(ty: Seq<char>, msg: Seq<char>) -> Seq<char> {
    seq!['{'] + json_quote("exception_type"@) + seq![':'] + json_quote(ty) + seq![','] + json_quote(
        "exception_message"@,
    ) + seq![':'] + json_quote(msg) + seq!['}']
}

proof fn lemma_string_body_escaped(t: Seq<char>, i: int, s: Seq<char>, acc: Seq<char>)
    requires
        0 <= i,
        i + json_escape(s).len() < t.len(),
        t.subrange(i, i + json_escape(s).len()) == json_escape(s),
        t[i + json_escape(s).len()] == '"',
    ensures
        string_body(t, i, acc) == Some((acc + s, i + json_escape(s).len() + 1)),
    decreases s.len(),
{
    let e = json_escape(s);
    if s.len() == 0 {
        assert(acc + s =~= acc);
    } else {
        let c = s[0];
        let rest = s.drop_first();
        let er = json_escape(rest);
        let ec = escape_char(c);
        assert(e == ec + er);
        let n = ec.len() as int;
        assert(t[i] == e[0]);
        assert(t.subrange(i + n, i + n + er.len()) =~= er) by {
            assert forall|k: int| 0 <= k < er.len() implies t.subrange(i + n, i + n + er.len())[k]
                == er[k] by {
                assert(t[i + n + k] == t.subrange(i, i + e.len())[n + k]);
                assert(e[n + k] == er[k]);
            }
        }
        if c == '"' || c == '\\' {
            assert(t[i + 1] == e[1]);
            assert(t[i] == '\\');
            assert(simple_escape(t[i + 1]) == Some(c));
            lemma_string_body_escaped(t, i + 2, rest, acc.push(c));
        } else {
            assert(t[i] == c);
            lemma_string_body_escaped(t, i + 1, rest, acc.push(c));
        }
        assert(acc.push(c) + rest =~= acc + s);
    }
}

proof fn lemma_quoted_at(t: Seq<char>, i: int, s: Seq<char>)
    requires
        0 <= i,
        i + json_quote(s).len() <= t.len(),
        t.subrange(i, i + json_quote(s).len()) == json_quote(s),
    ensures
        json_string_at(t, i) == Some((s, i + json_quote(s).len())),
{
    let q = json_quote(s);
    let e = json_escape(s);
    assert(q.len() == e.len() + 2);
    assert(t[i] == q[0]);
    assert(t.subrange(i + 1, i + 1 + e.len()) =~= e) by {
        assert forall|k: int| 0 <= k < e.len() implies t.subrange(i + 1, i + 1 + e.len())[k]
            == e[k] by {
            assert(t[i + 1 + k] == t.subrange(i, i + q.len())[1 + k]);
            assert(q[1 + k] == e[k]);
        }
    }
    assert(t[i + 1 + e.len()] == t.subrange(i, i + q.len())[1 + e.len() as int]);
    lemma_string_body_escaped(t, i + 1, s, Seq::empty());
    assert(Seq::<char>::empty() + s =~= s);
}

/// Reading back the exception JSON `DuckDB` writes gives the type and the
/// message that went into it, whatever characters they hold.
pub proof fn lemma_exception_json_round_trip(ty: Seq<char>, msg: Seq<char>)
    ensures
        spec_parse_exception_json(exception_json(ty, msg)) == Some((ty, msg)),
{
    reveal_strlit("exception_type");
    reveal_strlit("exception_message");
    let kt = "exception_type"@;
    let km = "exception_message"@;
    let t = exception_json(ty, msg);
    let q1 = json_quote(kt);
    let q2 = json_quote(ty);
    let q3 = json_quote(km);
    let q4 = json_quote(msg);
    let a: int = 1;
    let b: int = a + q1.len();
    let c: int = b + 1;
    let d: int = c + q2.len();
    let e: int = d + 1;
    let f: int = e + q3.len();
    let g: int = f + 1;
    let h: int = g + q4.len();
    assert(t.len() == h + 1);
    assert(t[0] == '{');
    assert(t.subrange(a, b) =~= q1);
    assert(t[b] == ':');
    assert(t.subrange(c, d) =~= q2);
    assert(t[d] == ',');
    assert(t.subrange(e, f) =~= q3);
    assert(t[f] == ':');
    assert(t.subrange(g, h) =~= q4);
    assert(t[h] == '}');
    assert(q1[0] == '"' && q2[0] == '"' && q3[0] == '"' && q4[0] == '"');
    assert(t[a] == '"' && t[c] == '"' && t[e] == '"' && t[g] == '"') by {
        assert(t[a] == t.subrange(a, b)[0]);
        assert(t[c] == t.subrange(c, d)[0]);
        assert(t[e] == t.subrange(e, f)[0]);
        assert(t[g] == t.subrange(g, h)[0]);
    }
    lemma_quoted_at(t, a, kt);
    lemma_quoted_at(t, c, ty);
    lemma_quoted_at(t, e, km);
    lemma_quoted_at(t, g, msg);
    assert(kt != km) by {
        assert(kt.len() != km.len());
    }
    assert(skip_ws(t, a) == a);
    assert(skip_ws(t, b) == b);
    assert(skip_ws(t, c) == c);
    assert(skip_ws(t, d) == d);
    assert(skip_ws(t, e) == e);
    assert(skip_ws(t, f) == f);
    assert(skip_ws(t, g) == g);
    assert(skip_ws(t, h) == h);
    assert(skip_ws(t, h + 1) == h + 1);
    assert(members(t, e, Some(ty), None) == Some((Some(ty), Some(msg), h + 1)));
    assert(members(t, 1, None, None) == Some((Some(ty), Some(msg), h + 1)));
    assert(trim_start(t) == t);
    assert(trim_end(t) == t);
}

} // verus!
