//! Writing configured free text into generated files without changing its
//! meaning: YAML quoting for `description.yml`, `//!` lines for `src/lib.rs`.

use vstd::prelude::*;

use crate::expression::{hex4_at, hex_value};
use crate::text::{join_with, lemma_join_split, lemma_split_join, lemma_split_nonempty,
    lemma_split_pieces_lack_sep, push_char, push_str, split_chars, split_on, str_chars};

verus! {

// ─── YAML double-quoted scalars ──────────────────────────────────────────────

/// A character written as it is inside a YAML double-quoted scalar: printable
/// ASCII, or a character of YAML's printable set that no YAML 1.1 reader
/// takes for a line break or a byte-order mark.
pub open spec fn yaml_plain(c: char) -> bool {
    let v = c as u32;
    (0x20 <= v <= 0x7e) || (((0xa0 <= v <= 0xd7ff) || (0xe000 <= v <= 0xfffd) || v >= 0x10000)
        && v != 0x2028 && v != 0x2029 && v != 0xfeff)
}

/// The lower-case hexadecimal digit for `d` (0–15).
pub open spec fn lower_hex_digit(d: int) -> char {
    if d < 10 {
        (('0' as int) + d) as char
    } else {
        (('a' as int) + d - 10) as char
    }
}

/// `v` (below `0x10000`) as four lower-case hexadecimal digits (`{:04x}`).
pub open spec fn hex4_lower(v: int) -> Seq<char> {
    seq![
        lower_hex_digit(v / 4096 % 16),
        lower_hex_digit(v / 256 % 16),
        lower_hex_digit(v / 16 % 16),
        lower_hex_digit(v % 16),
    ]
}

/// How one character is written inside a YAML double-quoted scalar.
pub open spec fn yaml_escape_char(c: char) -> Seq<char> {
    if c == '"' {
        seq!['\\', '"']
    } else if c == '\\' {
        seq!['\\', '\\']
    } else if c == '\n' {
        seq!['\\', 'n']
    } else if c == '\t' {
        seq!['\\', 't']
    } else if c == '\r' {
        seq!['\\', 'r']
    } else if yaml_plain(c) {
        seq![c]
    } else {
        seq!['\\', 'u'] + hex4_lower((c as u32) as int)
    }
}

/// `s` escaped for the inside of a YAML double-quoted scalar.
pub open spec fn yaml_escape(s: Seq<char>) -> Seq<char>
    decreases s.len(),
{
    if s.len() == 0 {
        Seq::empty()
    } else {
        yaml_escape_char(s[0]) + yaml_escape(s.drop_first())
    }
}

/// `s` as a YAML double-quoted scalar.
pub open spec fn spec_yaml_quoted(s: Seq<char>) -> Seq<char> {
    seq!['"'] + yaml_escape(s) + seq!['"']
}

/// What a YAML reader makes of the inside of a double-quoted scalar that
/// uses only the escapes `\"`, `\\`, `\n`, `\t`, `\r` and `\uXXXX` and no raw
/// line break; `None` for a lone quote or any other escape.
pub open spec fn yaml_unescape(t: Seq<char>) -> Option<Seq<char>>
    decreases t.len(),
{
    if t.len() == 0 {
        Some(Seq::empty())
    } else if t[0] == '"' {
        None
    } else if t[0] != '\\' {
        match yaml_unescape(t.skip(1)) {
            Some(r) => Some(seq![t[0]] + r),
            None => None,
        }
    } else if t.len() < 2 {
        None
    } else {
        let e = t[1];
        let d: Option<char> = if e == '"' {
            Some('"')
        } else if e == '\\' {
            Some('\\')
        } else if e == 'n' {
            Some('\n')
        } else if e == 't' {
            Some('\t')
        } else if e == 'r' {
            Some('\r')
        } else {
            None
        };
        if d is Some {
            match yaml_unescape(t.skip(2)) {
                Some(r) => Some(seq![d->0] + r),
                None => None,
            }
        } else if e == 'u' && hex4_at(t, 2) is Some && (hex4_at(t, 2)->0 < 0xD800 || 0xE000
            <= hex4_at(t, 2)->0) {
            match yaml_unescape(t.skip(6)) {
                Some(r) => Some(seq![((hex4_at(t, 2)->0) as u32) as char] + r),
                None => None,
            }
        } else {
            None
        }
    }
}

/// A character a YAML reader may take for a line break.
pub open spec fn is_yaml_line_break(c: char) -> bool {
    c == '\n' || c == '\r' || c == '\u{85}' || c == '\u{2028}' || c == '\u{2029}'
}

fn hex_digit_char(d: u32) -> (c: char)
    requires
        d < 16,
    ensures
        c == lower_hex_digit(d as int),
{
    if d == 0 { '0' } else if d == 1 { '1' } else if d == 2 { '2' } else if d == 3 { '3' }
    else if d == 4 { '4' } else if d == 5 { '5' } else if d == 6 { '6' } else if d == 7 { '7' }
    else if d == 8 { '8' } else if d == 9 { '9' } else if d == 10 { 'a' } else if d == 11 { 'b' }
    else if d == 12 { 'c' } else if d == 13 { 'd' } else if d == 14 { 'e' } else { 'f' }
}

/// `text` as a YAML double-quoted scalar.
///
/// Inside double quotes only `\` and `"` are special; everything outside
/// YAML's printable set — plus the characters a YAML 1.1 reader takes for
/// line breaks (U+0085, U+2028, U+2029) and the byte-order mark — is written
/// as an escape, so the value decodes to exactly `text`.
pub fn yaml_quoted(text: &str) -> (out: String)
    ensures
        out@ == spec_yaml_quoted(text@),
{
    let chars = str_chars(text);
    let mut out = String::new();
    push_char(&mut out, '"');
    let mut i: usize = 0;
    while i < chars.len()
        invariant
            i <= chars@.len(),
            chars@ == text@,
            out@ == seq!['"'] + yaml_escape(chars@.take(i as int)),
        decreases chars@.len() - i,
    {
        let c = chars[i];
        proof {
            lemma_yaml_escape_push(chars@.take(i as int), c);
            assert(chars@.take(i + 1) =~= chars@.take(i as int).push(c));
        }
        if c == '"' {
            push_str(&mut out, "\\\"");
        } else if c == '\\' {
            push_str(&mut out, "\\\\");
        } else if c == '\n' {
            push_str(&mut out, "\\n");
        } else if c == '\t' {
            push_str(&mut out, "\\t");
        } else if c == '\r' {
            push_str(&mut out, "\\r");
        } else if (0x20 <= (c as u32) && (c as u32) <= 0x7e) || (((0xa0 <= (c as u32) && (c as u32)
            <= 0xd7ff) || (0xe000 <= (c as u32) && (c as u32) <= 0xfffd) || (c as u32) >= 0x10000)
            && (c as u32) != 0x2028 && (c as u32) != 0x2029 && (c as u32) != 0xfeff) {
            push_char(&mut out, c);
        } else {
            let v: u32 = c as u32;
            push_char(&mut out, '\\');
            push_char(&mut out, 'u');
            push_char(&mut out, hex_digit_char(v / 4096 % 16));
            push_char(&mut out, hex_digit_char(v / 256 % 16));
            push_char(&mut out, hex_digit_char(v / 16 % 16));
            push_char(&mut out, hex_digit_char(v % 16));
        }
        proof {
            reveal_strlit("\\\"");
            reveal_strlit("\\\\");
            reveal_strlit("\\n");
            reveal_strlit("\\t");
            reveal_strlit("\\r");
            assert(out@ =~= seq!['"'] + yaml_escape(chars@.take(i as int)) + yaml_escape_char(c));
        }
        i = i + 1;
    }
    push_char(&mut out, '"');
    assert(chars@.take(chars@.len() as int) =~= chars@);
    out
}

/// Escaping a text with one more character appends that character's escape.
pub proof fn lemma_yaml_escape_push(s: Seq<char>, c: char)
    ensures
        yaml_escape(s.push(c)) == yaml_escape(s) + yaml_escape_char(c),
    decreases s.len(),
{
    if s.len() == 0 {
        assert(s.push(c).drop_first() =~= Seq::<char>::empty());
        assert(s.push(c)[0] == c);
        assert(yaml_escape(s.push(c)) == yaml_escape_char(c) + yaml_escape(Seq::<char>::empty()));
        assert(yaml_escape(s.push(c)) =~= yaml_escape_char(c));
    } else {
        lemma_yaml_escape_push(s.drop_first(), c);
        assert(s.push(c).drop_first() =~= s.drop_first().push(c));
        assert(yaml_escape(s.push(c)) =~= yaml_escape(s) + yaml_escape_char(c));
    }
}

proof fn lemma_hex4_lower_round_trip(v: int)
    requires
        0 <= v < 0x10000,
    ensures
        forall|t: Seq<char>| t.len() >= 6 && t.subrange(2, 6) == hex4_lower(v) ==> hex4_at(t, 2) == Some(v),
{
    let d3 = v / 4096 % 16;
    let d2 = v / 256 % 16;
    let d1 = v / 16 % 16;
    let d0 = v % 16;
    assert(((d3 * 16 + d2) * 16 + d1) * 16 + d0 == v) by (nonlinear_arith)
        requires
            0 <= v < 0x10000,
            d3 == v / 4096 % 16,
            d2 == v / 256 % 16,
            d1 == v / 16 % 16,
            d0 == v % 16,
    ;
    assert(hex_value(lower_hex_digit(d3)) == Some(d3));
    assert(hex_value(lower_hex_digit(d2)) == Some(d2));
    assert(hex_value(lower_hex_digit(d1)) == Some(d1));
    assert(hex_value(lower_hex_digit(d0)) == Some(d0));
    assert forall|t: Seq<char>| t.len() >= 6 && t.subrange(2, 6) == hex4_lower(v) implies hex4_at(t, 2) == Some(v) by {
        assert(t[2] == t.subrange(2, 6)[0]);
        assert(t[3] == t.subrange(2, 6)[1]);
        assert(t[4] == t.subrange(2, 6)[2]);
        assert(t[5] == t.subrange(2, 6)[3]);
    }
}

/// Decoding the escapes `yaml_quoted` writes gives the text back: a value
/// written to `description.yml` reads back exactly as configured.
pub proof fn lemma_yaml_round_trip(s: Seq<char>)
    ensures
        yaml_unescape(yaml_escape(s)) == Some(s),
    decreases s.len(),
{
    if s.len() > 0 {
        let c = s[0];
        let rest = s.drop_first();
        let e = yaml_escape_char(c);
        let t = e + yaml_escape(rest);
        lemma_yaml_round_trip(rest);
        assert(t.skip(e.len() as int) =~= yaml_escape(rest));
        if c == '"' || c == '\\' || c == '\n' || c == '\t' || c == '\r' {
            assert(t[0] == '\\');
            assert(t[1] == e[1]);
        } else if yaml_plain(c) {
            assert(t[0] == c);
        } else {
            let u = c as u32;
            let v = u as int;
            assert(0 <= v < 0x10000);
            lemma_hex4_lower_round_trip(v);
            assert(t.subrange(2, 6) =~= hex4_lower(v));
            assert(t[0] == '\\' && t[1] == 'u');
            assert(hex4_at(t, 2) == Some(v));
            vstd::utf8::char_u32_cast(c, u);
            assert((u as char) == c);
        }
        assert(seq![c] + rest =~= s);
    }
}

/// The escaped form of a text holds no raw line break, so the scalar stays
/// on the one line of `description.yml` it is written on.
pub proof fn lemma_yaml_escape_has_no_line_break(s: Seq<char>)
    ensures
        forall|i: int| 0 <= i < yaml_escape(s).len() ==> !is_yaml_line_break(#[trigger] yaml_escape(s)[i]),
    decreases s.len(),
{
    if s.len() > 0 {
        lemma_yaml_escape_has_no_line_break(s.drop_first());
        let e = yaml_escape_char(s[0]);
        let r = yaml_escape(s.drop_first());
        assert forall|i: int| 0 <= i < yaml_escape(s).len() implies !is_yaml_line_break(#[trigger] yaml_escape(s)[i]) by {
            if i >= e.len() {
                assert(yaml_escape(s)[i] == r[i - e.len()]);
            } else {
                let c = s[0];
                if !(c == '"' || c == '\\' || c == '\n' || c == '\t' || c == '\r' || yaml_plain(c)) {
                    let v = (c as u32) as int;
                    assert(0 <= v / 4096 % 16 < 16);
                    assert(0 <= v / 256 % 16 < 16);
                    assert(0 <= v / 16 % 16 < 16);
                    assert(0 <= v % 16 < 16);
                }
            }
        }
    }
}

// ─── Doc-comment lines ───────────────────────────────────────────────────────

/// One line of a description as a `//!` doc-comment line.
pub open spec fn doc_line(l: Seq<char>) -> Seq<char> {
    if l.len() == 0 {
        "//!"@
    } else {
        "//! "@ + l
    }
}

/// `text` as `//!` doc-comment lines: each of its lines with its own prefix,
/// joined by line feeds.
pub open spec fn spec_doc_comment_lines(text: Seq<char>) -> Seq<char> {
    join_with(split_on(text, '\n').map_values(|l: Seq<char>| doc_line(l)), seq!['\n'])
}

/// `text` as `//!` doc-comment lines: every line of a multi-line description
/// gets its own prefix, so none of it escapes the comment into Rust source.
pub fn doc_comment_lines(text: &str) -> (out: String)
    ensures
        out@ == spec_doc_comment_lines(text@),
{
    let chars = str_chars(text);
    let lines = split_chars(chars.as_slice(), '\n');
    let ghost parts = split_on(text@, '\n');
    let ghost mapped = parts.map_values(|l: Seq<char>| doc_line(l));
    proof {
        lemma_split_nonempty(text@, '\n');
    }
    let mut out = String::new();
    let mut i: usize = 0;
    while i < lines.len()
        invariant
            i <= lines@.len(),
            lines@.len() == parts.len(),
            parts.len() >= 1,
            mapped == parts.map_values(|l: Seq<char>| doc_line(l)),
            forall|k: int| 0 <= k < lines@.len() ==> #[trigger] lines@[k]@ == parts[k],
            out@ == join_with(mapped.take(i as int), seq!['\n']),
        decreases lines@.len() - i,
    {
        let line = &lines[i];
        let ghost before = out@;
        if i > 0 {
            push_char(&mut out, '\n');
        }
        if line.len() == 0 {
            push_str(&mut out, "//!");
        } else {
            push_str(&mut out, "//! ");
            let mut k: usize = 0;
            let ghost mid = out@;
            while k < line.len()
                invariant
                    k <= line@.len(),
                    out@ == mid + line@.take(k as int),
                decreases line@.len() - k,
            {
                push_char(&mut out, line[k]);
                assert(line@.take(k as int).push(line@[k as int]) =~= line@.take(k + 1));
                k = k + 1;
            }
            assert(line@.take(line@.len() as int) =~= line@);
        }
        proof {
            assert(mapped.take(i + 1).drop_last() =~= mapped.take(i as int));
            assert(mapped.take(i + 1).last() == doc_line(parts[i as int]));
            if i == 0 {
                assert(before =~= Seq::<char>::empty());
                assert(out@ =~= doc_line(parts[0]));
            } else {
                assert(out@ =~= before + seq!['\n'] + doc_line(parts[i as int]));
            }
        }
        i = i + 1;
    }
    assert(mapped.take(lines@.len() as int) =~= mapped);
    out
}

/// Every line of the generated doc comment starts with `//!` and there is
/// one per line of the text: no line of a description can escape the
/// comment into the Rust source.
pub proof fn lemma_doc_comment_lines_stay_in_comment(text: Seq<char>)
    ensures
        split_on(spec_doc_comment_lines(text), '\n').len() == split_on(text, '\n').len(),
        forall|i: int| 0 <= i < split_on(spec_doc_comment_lines(text), '\n').len() ==> (#[trigger] split_on(
            spec_doc_comment_lines(text),
            '\n',
        )[i]).take(3) == "//!"@,
{
    reveal_strlit("//!");
    reveal_strlit("//! ");
    let parts = split_on(text, '\n');
    let mapped = parts.map_values(|l: Seq<char>| doc_line(l));
    lemma_split_nonempty(text, '\n');
    lemma_split_pieces_lack_sep(text, '\n');
    assert forall|i: int| 0 <= i < mapped.len() implies !(#[trigger] mapped[i]).contains('\n') by {
        let l = parts[i];
        assert(!l.contains('\n'));
        if mapped[i].contains('\n') {
            let k = choose|k: int| 0 <= k < mapped[i].len() && mapped[i][k] == '\n';
            if l.len() > 0 {
                assert(mapped[i][k] == ("//! "@ + l)[k]);
                if k >= 4 {
                    assert(l[k - 4] == '\n');
                }
            }
        }
    }
    lemma_split_join(mapped, '\n');
    assert forall|i: int| 0 <= i < mapped.len() implies (#[trigger] mapped[i]).take(3) == "//!"@ by {
        if parts[i].len() == 0 {
            assert(mapped[i].take(3) =~= "//!"@);
        } else {
            assert(mapped[i].take(3) =~= "//!"@);
        }
    }
}

/// Line `i` of the doc comment is `//!` where line `i` of the text is
/// empty, and `//! ` followed by that line otherwise: every line of the text
/// is kept, whole, after its prefix.
pub proof fn lemma_doc_comment_lines_keep_text(text: Seq<char>)
    ensures
        split_on(spec_doc_comment_lines(text), '\n').len() == split_on(text, '\n').len(),
        forall|i: int| 0 <= i < split_on(text, '\n').len() ==> #[trigger] split_on(
            spec_doc_comment_lines(text),
            '\n',
        )[i] == (if split_on(text, '\n')[i].len() == 0 {
            "//!"@
        } else {
            "//! "@ + split_on(text, '\n')[i]
        }),
{
    lemma_doc_comment_lines_stay_in_comment(text);
    let parts = split_on(text, '\n');
    let mapped = parts.map_values(|l: Seq<char>| doc_line(l));
    assert(split_on(spec_doc_comment_lines(text), '\n') == mapped) by {
        reveal_strlit("//!");
        reveal_strlit("//! ");
        lemma_split_pieces_lack_sep(text, '\n');
        assert forall|i: int| 0 <= i < mapped.len() implies !(#[trigger] mapped[i]).contains('\n') by {
            let l = parts[i];
            assert(!l.contains('\n'));
            if mapped[i].contains('\n') {
                let k = choose|k: int| 0 <= k < mapped[i].len() && mapped[i][k] == '\n';
                if l.len() > 0 {
                    assert(mapped[i][k] == ("//! "@ + l)[k]);
                    if k >= 4 {
                        assert(l[k - 4] == '\n');
                    }
                }
            }
        }
        lemma_split_join(mapped, '\n');
    }
}

} // verus!
