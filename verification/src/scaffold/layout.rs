//! What a reader of the generated `description.yml` finds in it: every field
//! the scaffold fills in sits on a line of its own, as its key followed by
//! its value, and a quoted value decodes back to the configured text. Read
//! line by line, the first line under each key is the one the scaffold
//! wrote for it.

use vstd::prelude::*;

use super::escape::{
    is_yaml_line_break, lemma_yaml_escape_has_no_line_break, lemma_yaml_round_trip,
    spec_yaml_quoted, yaml_escape, yaml_unescape,
};
use super::templates::{
    spec_description_yml, spec_description_yml_head, spec_platform_list, DESCRIPTION_YML_1,
    DESCRIPTION_YML_2, DESCRIPTION_YML_3, DESCRIPTION_YML_4, DESCRIPTION_YML_5, YML_REF_TAIL,
};
use super::{scaffold_error, ScaffoldConfig};
use crate::text::{lemma_join_split, split_on, join_with};
use crate::validate::{
    known_licenses, known_platforms, license_error, name_char_ok, name_error, platforms_error,
    repo_char_ok, repo_error, repo_part_ok,
};

verus! {

/// From index `i`, `file` holds a whole line made of `key` and then
/// `value`: it starts the file or follows a line feed, and a line feed ends
/// it.
pub open spec fn line_at(file: Seq<char>, i: int, key: Seq<char>, value: Seq<char>) -> bool {
    let line = key + value + seq!['\n'];
    &&& 0 <= i
    &&& i + line.len() <= file.len()
    &&& (i == 0 || file[i - 1] == '\n')
    &&& file.subrange(i, i + line.len()) == line
}

/// `file` holds the line `key` followed by `value`.
pub open spec fn has_line(file: Seq<char>, key: Seq<char>, value: Seq<char>) -> bool {
    exists|i: int| #[trigger] line_at(file, i, key, value)
}

/// `value` holds no character a YAML reader takes for a line break, so it
/// stays on the line it is written on.
pub open spec fn single_line(value: Seq<char>) -> bool {
    forall|i: int| 0 <= i < value.len() ==> !is_yaml_line_break(#[trigger] value[i])
}

proof fn lemma_line_at(p: Seq<char>, key: Seq<char>, value: Seq<char>, q: Seq<char>)
    requires
        p.len() == 0 || p.last() == '\n',
    ensures
        has_line(p + key + value + seq!['\n'] + q, key, value),
{
    let file = p + key + value + seq!['\n'] + q;
    let line = key + value + seq!['\n'];
    assert(file.subrange(p.len() as int, (p.len() + line.len()) as int) =~= line);
    if p.len() > 0 {
        assert(file[p.len() - 1] == p.last());
    }
    assert(line_at(file, p.len() as int, key, value));
}

/// A quoted value is one line, and reading its escapes gives the text back.
proof fn lemma_quoted_reads_back(s: Seq<char>)
    ensures
        single_line(spec_yaml_quoted(s)),
        yaml_unescape(yaml_escape(s)) == Some(s),
{
    lemma_yaml_round_trip(s);
    lemma_yaml_escape_has_no_line_break(s);
    let q = spec_yaml_quoted(s);
    assert forall|i: int| 0 <= i < q.len() implies !is_yaml_line_break(#[trigger] q[i]) by {
        if 0 < i < q.len() - 1 {
            assert(q[i] == yaml_escape(s)[i - 1]);
        }
    }
}

/// A valid GitHub repository path is one line.
proof fn lemma_repo_single_line(repo: Seq<char>)
    requires
        repo_error(repo) is None,
    ensures
        single_line(repo),
{
    let parts = split_on(repo, '/');
    lemma_join_split(repo, '/');
    assert(join_with(parts.drop_last(), seq!['/']) == parts[0]);
    assert(repo == parts[0] + seq!['/'] + parts[1]);
    assert(repo_part_ok(parts[0]) && repo_part_ok(parts[1]));
    assert forall|i: int| 0 <= i < repo.len() implies !is_yaml_line_break(#[trigger] repo[i]) by {
        if i < parts[0].len() {
            assert(repo[i] == parts[0][i]);
            assert(repo_char_ok(parts[0][i]));
        } else if i > parts[0].len() {
            assert(repo[i] == parts[1][i - parts[0].len() - 1]);
            assert(repo_char_ok(parts[1][i - parts[0].len() - 1]));
        }
    }
}

/// The lines of `description.yml` after the `extension:` fields.
pub open spec fn yml_tail(c: ScaffoldConfig) -> Seq<char> {
    (if c.excluded_platforms@.len() == 0 {
        Seq::empty()
    } else {
        "  excluded_platforms: \""@ + spec_platform_list(c) + "\"\n"@
    }) + "  maintainers:\n    - "@ + spec_yaml_quoted(c.maintainer@) + "\n\nrepo:\n  github: "@
        + c.github_repo@ + "\n  # Must be a commit hash, not a branch.\n  ref: "@ + c.git_ref@
        + YML_REF_TAIL@ + c.name@ + "_hello('world');\n  extended_description: "@
        + spec_yaml_quoted(c.description@) + "\n"@
}

proof fn lemma_yml_split(c: ScaffoldConfig)
    ensures
        spec_description_yml(c) == spec_description_yml_head(c) + yml_tail(c),
{
    assert(spec_description_yml(c) =~= spec_description_yml_head(c) + yml_tail(c));
}

proof fn lemma_description_line(c: ScaffoldConfig)
    ensures
        has_line(spec_description_yml(c), "  description: "@, spec_yaml_quoted(c.description@)),
{
    reveal_strlit("\n  description: ");
    reveal_strlit("  description: ");
    reveal_strlit("\n  version: ");
    lemma_yml_split(c);
    let nl = seq!['\n'];
    let qd = spec_yaml_quoted(c.description@);
    let d3 = DESCRIPTION_YML_3@;
    assert(DESCRIPTION_YML_2@ =~= nl + "  description: "@);
    assert(d3 =~= nl + d3.drop_first());
    let p1 = DESCRIPTION_YML_1@ + c.name@ + nl;
    let q1 = d3.drop_first() + spec_yaml_quoted(c.version@) + DESCRIPTION_YML_4@ + c.license@
        + DESCRIPTION_YML_5@;
    assert(spec_description_yml_head(c) =~= p1 + "  description: "@ + qd + nl + q1);
    assert(spec_description_yml(c) =~= p1 + "  description: "@ + qd + nl + (q1 + yml_tail(c)));
    lemma_line_at(p1, "  description: "@, qd, q1 + yml_tail(c));
}

proof fn lemma_version_line(c: ScaffoldConfig)
    ensures
        has_line(spec_description_yml(c), "  version: "@, spec_yaml_quoted(c.version@)),
{
    reveal_strlit("\n  version: ");
    reveal_strlit("  version: ");
    reveal_strlit("\n  language: Rust\n  build: cargo\n  license: ");
    lemma_yml_split(c);
    let nl = seq!['\n'];
    let qv = spec_yaml_quoted(c.version@);
    let d4 = DESCRIPTION_YML_4@;
    assert(DESCRIPTION_YML_3@ =~= nl + "  version: "@);
    assert(d4 =~= nl + d4.drop_first());
    let p2 = DESCRIPTION_YML_1@ + c.name@ + DESCRIPTION_YML_2@ + spec_yaml_quoted(c.description@)
        + nl;
    let q2 = d4.drop_first() + c.license@ + DESCRIPTION_YML_5@;
    assert(spec_description_yml_head(c) =~= p2 + "  version: "@ + qv + nl + q2);
    assert(spec_description_yml(c) =~= p2 + "  version: "@ + qv + nl + (q2 + yml_tail(c)));
    lemma_line_at(p2, "  version: "@, qv, q2 + yml_tail(c));
}

/// The optional `excluded_platforms` line.
spec fn platforms_line(c: ScaffoldConfig) -> Seq<char> {
    if c.excluded_platforms@.len() == 0 {
        Seq::empty()
    } else {
        "  excluded_platforms: \""@ + spec_platform_list(c) + "\"\n"@
    }
}

/// The file ends with `ending` after the `ref:` value.
spec fn yml_ending(c: ScaffoldConfig) -> Seq<char> {
    YML_REF_TAIL@ + c.name@ + "_hello('world');\n  extended_description: "@
        + spec_yaml_quoted(c.description@) + "\n"@
}

proof fn lemma_tail_parts(c: ScaffoldConfig)
    ensures
        spec_description_yml(c) == spec_description_yml_head(c) + platforms_line(c)
            + "  maintainers:\n    - "@ + spec_yaml_quoted(c.maintainer@) + "\n\nrepo:\n  github: "@
            + c.github_repo@ + "\n  # Must be a commit hash, not a branch.\n  ref: "@ + c.git_ref@
            + yml_ending(c),
{
    assert(spec_description_yml(c) =~= spec_description_yml_head(c) + platforms_line(c)
        + "  maintainers:\n    - "@ + spec_yaml_quoted(c.maintainer@) + "\n\nrepo:\n  github: "@
        + c.github_repo@ + "\n  # Must be a commit hash, not a branch.\n  ref: "@ + c.git_ref@
        + yml_ending(c));
}

proof fn lemma_maintainer_line(c: ScaffoldConfig)
    ensures
        has_line(spec_description_yml(c), "    - "@, spec_yaml_quoted(c.maintainer@)),
{
    reveal_strlit("  maintainers:\n    - ");
    reveal_strlit("  maintainers:\n");
    reveal_strlit("    - ");
    reveal_strlit("\n\nrepo:\n  github: ");
    reveal_strlit("\nrepo:\n  github: ");
    lemma_tail_parts(c);
    let nl = seq!['\n'];
    let m_key = "  maintainers:\n"@;
    assert("  maintainers:\n    - "@ =~= m_key + "    - "@);
    assert("\n\nrepo:\n  github: "@ =~= nl + "\nrepo:\n  github: "@);
    let pm = spec_description_yml_head(c) + platforms_line(c) + m_key;
    let rest = "\nrepo:\n  github: "@ + c.github_repo@
        + "\n  # Must be a commit hash, not a branch.\n  ref: "@ + c.git_ref@ + yml_ending(c);
    assert(pm.last() == '\n');
    assert(spec_description_yml(c) =~= pm + "    - "@ + spec_yaml_quoted(c.maintainer@) + nl + rest);
    lemma_line_at(pm, "    - "@, spec_yaml_quoted(c.maintainer@), rest);
}

proof fn lemma_github_line(c: ScaffoldConfig)
    ensures
        has_line(spec_description_yml(c), "  github: "@, c.github_repo@),
{
    reveal_strlit("\n\nrepo:\n  github: ");
    reveal_strlit("\n\nrepo:\n");
    reveal_strlit("  github: ");
    reveal_strlit("\n  # Must be a commit hash, not a branch.\n  ref: ");
    reveal_strlit("  # Must be a commit hash, not a branch.\n  ref: ");
    lemma_tail_parts(c);
    let nl = seq!['\n'];
    let r_key = "\n\nrepo:\n"@;
    assert("\n\nrepo:\n  github: "@ =~= r_key + "  github: "@);
    assert("\n  # Must be a commit hash, not a branch.\n  ref: "@ =~= nl
        + "  # Must be a commit hash, not a branch.\n  ref: "@);
    let pg = spec_description_yml_head(c) + platforms_line(c) + "  maintainers:\n    - "@
        + spec_yaml_quoted(c.maintainer@) + r_key;
    let rest = "  # Must be a commit hash, not a branch.\n  ref: "@ + c.git_ref@ + yml_ending(c);
    assert(pg.last() == '\n');
    assert(spec_description_yml(c) =~= pg + "  github: "@ + c.github_repo@ + nl + rest);
    lemma_line_at(pg, "  github: "@, c.github_repo@, rest);
}

proof fn lemma_ref_line(c: ScaffoldConfig)
    ensures
        has_line(spec_description_yml(c), "  ref: "@, c.git_ref@),
{
    reveal_strlit("\n  # Must be a commit hash, not a branch.\n  ref: ");
    reveal_strlit("\n  # Must be a commit hash, not a branch.\n");
    reveal_strlit("  ref: ");
    reveal_strlit("\n  # ref_next: <hash>   # optional: a revision compatible with DuckDB main,\n  #                    # used while a new DuckDB release is being prepared.\n\ndocs:\n  hello_world: |\n    SELECT ");
    lemma_tail_parts(c);
    let nl = seq!['\n'];
    let c_key = "\n  # Must be a commit hash, not a branch.\n"@;
    assert("\n  # Must be a commit hash, not a branch.\n  ref: "@ =~= c_key + "  ref: "@);
    let tail = YML_REF_TAIL@;
    assert(tail =~= nl + tail.drop_first());
    let pr = spec_description_yml_head(c) + platforms_line(c) + "  maintainers:\n    - "@
        + spec_yaml_quoted(c.maintainer@) + "\n\nrepo:\n  github: "@ + c.github_repo@ + c_key;
    let rest = tail.drop_first() + c.name@ + "_hello('world');\n  extended_description: "@
        + spec_yaml_quoted(c.description@) + "\n"@;
    assert(pr.last() == '\n');
    assert(yml_ending(c) =~= nl + rest);
    assert(spec_description_yml(c) =~= pr + "  ref: "@ + c.git_ref@ + nl + rest);
    lemma_line_at(pr, "  ref: "@, c.git_ref@, rest);
}

proof fn lemma_extended_description_line(c: ScaffoldConfig)
    ensures
        has_line(spec_description_yml(c), "  extended_description: "@, spec_yaml_quoted(c.description@)),
{
    reveal_strlit("_hello('world');\n  extended_description: ");
    reveal_strlit("_hello('world');\n");
    reveal_strlit("  extended_description: ");
    reveal_strlit("\n");
    let nl = seq!['\n'];
    let f = spec_description_yml(c);
    let qd = spec_yaml_quoted(c.description@);
    let h = "_hello('world');\n"@;
    assert("_hello('world');\n  extended_description: "@ =~= h + "  extended_description: "@);
    assert("\n"@ =~= nl);
    let before = spec_description_yml_head(c) + (if c.excluded_platforms@.len() == 0 {
        Seq::empty()
    } else {
        "  excluded_platforms: \""@ + spec_platform_list(c) + "\"\n"@
    }) + "  maintainers:\n    - "@ + spec_yaml_quoted(c.maintainer@) + "\n\nrepo:\n  github: "@
        + c.github_repo@ + "\n  # Must be a commit hash, not a branch.\n  ref: "@ + c.git_ref@
        + YML_REF_TAIL@ + c.name@ + h;
    assert(before.last() == '\n');
    assert(f =~= before + "  extended_description: "@ + qd + nl + Seq::<char>::empty());
    lemma_line_at(before, "  extended_description: "@, qd, Seq::<char>::empty());
}

/// What a reader finds in the `description.yml` of a configuration the
/// scaffold accepts: the description (also as the extended description),
/// the version and the maintainer each on a line of its own after their
/// keys, YAML-quoted, on one line, and decoding back to the configured text;
/// the repository and its `ref` on lines of their own as configured, the
/// repository on one line. (The `ref` is not validated; a `ref` holding a
/// line break would not stay on its line.)
pub proof fn lemma_description_yml_reads_back(c: ScaffoldConfig)
    requires
        scaffold_error(c) is None,
    ensures
        has_line(spec_description_yml(c), "  description: "@, spec_yaml_quoted(c.description@)),
        has_line(spec_description_yml(c), "  extended_description: "@, spec_yaml_quoted(c.description@)),
        has_line(spec_description_yml(c), "  version: "@, spec_yaml_quoted(c.version@)),
        has_line(spec_description_yml(c), "    - "@, spec_yaml_quoted(c.maintainer@)),
        has_line(spec_description_yml(c), "  github: "@, c.github_repo@),
        has_line(spec_description_yml(c), "  ref: "@, c.git_ref@),
        single_line(spec_yaml_quoted(c.description@)),
        single_line(spec_yaml_quoted(c.version@)),
        single_line(spec_yaml_quoted(c.maintainer@)),
        single_line(c.github_repo@),
        yaml_unescape(yaml_escape(c.description@)) == Some(c.description@),
        yaml_unescape(yaml_escape(c.version@)) == Some(c.version@),
        yaml_unescape(yaml_escape(c.maintainer@)) == Some(c.maintainer@),
{
    lemma_quoted_reads_back(c.description@);
    lemma_quoted_reads_back(c.version@);
    lemma_quoted_reads_back(c.maintainer@);
    lemma_repo_single_line(c.github_repo@);
    lemma_description_line(c);
    lemma_version_line(c);
    lemma_maintainer_line(c);
    lemma_github_line(c);
    lemma_ref_line(c);
    lemma_extended_description_line(c);
}

// ─── reading the file back, line by line ─────────────────────────────────────

/// `t` up to its first line feed (all of it if it has none).
pub open spec fn line_of(t: Seq<char>) -> Seq<char>
    decreases t.len(),
{
    if t.len() == 0 {
        t
    } else if t[0] == '\n' {
        Seq::empty()
    } else {
        seq![t[0]] + line_of(t.drop_first())
    }
}

/// `t` after its first line feed (nothing if it has none).
pub open spec fn after_line(t: Seq<char>) -> Seq<char>
    decreases t.len(),
{
    if t.len() == 0 {
        t
    } else if t[0] == '\n' {
        t.drop_first()
    } else {
        after_line(t.drop_first())
    }
}

/// Past a line there is less left.
pub proof fn lemma_after_line_shorter(t: Seq<char>)
    ensures
        after_line(t).len() <= t.len(),
        t.len() > 0 ==> after_line(t).len() < t.len(),
    decreases t.len(),
{
    if t.len() > 0 && t[0] != '\n' {
        lemma_after_line_shorter(t.drop_first());
    }
}

/// What a reader of a file of `key: value` lines finds under `key`: the
/// rest of the first line of `t` that begins with `key`, `None` if no line
/// does.
pub open spec fn field_value(t: Seq<char>, key: Seq<char>) -> Option<Seq<char>>
    decreases t.len(),
{
    if t.len() == 0 {
        None
    } else if key.is_prefix_of(line_of(t)) {
        Some(line_of(t).skip(key.len() as int))
    } else {
        proof {
            lemma_after_line_shorter(t);
        }
        field_value(after_line(t), key)
    }
}

/// The text of the lines `ls`, each ended by a line feed.
pub open spec fn lines_text(ls: Seq<Seq<char>>) -> Seq<char>
    decreases ls.len(),
{
    if ls.len() == 0 {
        Seq::empty()
    } else {
        ls[0] + seq!['\n'] + lines_text(ls.drop_first())
    }
}

/// The rest of the first of the lines `ls` that begins with `key`.
pub open spec fn first_field(ls: Seq<Seq<char>>, key: Seq<char>) -> Option<Seq<char>>
    decreases ls.len(),
{
    if ls.len() == 0 {
        None
    } else if key.is_prefix_of(ls[0]) {
        Some(ls[0].skip(key.len() as int))
    } else {
        first_field(ls.drop_first(), key)
    }
}

proof fn lemma_line_split(l: Seq<char>, rest: Seq<char>)
    requires
        !l.contains('\n'),
    ensures
        line_of(l + seq!['\n'] + rest) == l,
        after_line(l + seq!['\n'] + rest) == rest,
    decreases l.len(),
{
    let t = l + seq!['\n'] + rest;
    if l.len() == 0 {
        assert(t[0] == '\n');
        assert(t.drop_first() =~= rest);
    } else {
        assert(l[0] != '\n');
        assert(!l.drop_first().contains('\n')) by {
            if l.drop_first().contains('\n') {
                let k = choose|k: int| 0 <= k < l.drop_first().len() && l.drop_first()[k] == '\n';
                assert(l[k + 1] == '\n');
            }
        }
        lemma_line_split(l.drop_first(), rest);
        assert(t.drop_first() =~= l.drop_first() + seq!['\n'] + rest);
        assert(seq![l[0]] + l.drop_first() =~= l);
    }
}

/// Reading a file made of lines without line feeds finds what reading the
/// lines one by one finds.
pub proof fn lemma_field_value_of_lines(ls: Seq<Seq<char>>, key: Seq<char>)
    requires
        forall|i: int| 0 <= i < ls.len() ==> !(#[trigger] ls[i]).contains('\n'),
    ensures
        field_value(lines_text(ls), key) == first_field(ls, key),
    decreases ls.len(),
{
    if ls.len() > 0 {
        let rest = ls.drop_first();
        assert(forall|i: int| 0 <= i < rest.len() ==> rest[i] == ls[i + 1]);
        lemma_field_value_of_lines(rest, key);
        lemma_line_split(ls[0], lines_text(rest));
        assert(lines_text(ls).len() > 0);
    }
}

proof fn lemma_lines_text_append(a: Seq<Seq<char>>, b: Seq<Seq<char>>)
    ensures
        lines_text(a + b) == lines_text(a) + lines_text(b),
    decreases a.len(),
{
    if a.len() == 0 {
        assert(a + b =~= b);
        assert(lines_text(a) + lines_text(b) =~= lines_text(b));
    } else {
        assert((a + b).drop_first() =~= a.drop_first() + b);
        lemma_lines_text_append(a.drop_first(), b);
        assert((a + b)[0] == a[0]);
        assert(lines_text(a + b) =~= lines_text(a) + lines_text(b));
    }
}

proof fn lemma_first_field_append(a: Seq<Seq<char>>, b: Seq<Seq<char>>, key: Seq<char>)
    ensures
        first_field(a + b, key) == (if first_field(a, key) is Some {
            first_field(a, key)
        } else {
            first_field(b, key)
        }),
    decreases a.len(),
{
    if a.len() == 0 {
        assert(a + b =~= b);
    } else {
        assert((a + b).drop_first() =~= a.drop_first() + b);
        assert((a + b)[0] == a[0]);
        lemma_first_field_append(a.drop_first(), b, key);
    }
}

/// `key` does not begin `line`: they differ at `k`, or `line` is shorter.
proof fn lemma_not_prefix(key: Seq<char>, line: Seq<char>, k: int)
    requires
        line.len() < key.len() || (0 <= k < key.len() && k < line.len() && key[k] != line[k]),
    ensures
        !key.is_prefix_of(line),
{
    if key.is_prefix_of(line) {
        assert(key[k] == line.subrange(0, key.len() as int)[k]);
    }
}

proof fn lemma_prefix(key: Seq<char>, value: Seq<char>)
    ensures
        key.is_prefix_of(key + value),
        (key + value).skip(key.len() as int) == value,
{
    assert((key + value).subrange(0, key.len() as int) =~= key);
    assert((key + value).skip(key.len() as int) =~= value);
}

proof fn lemma_concat_lacks(a: Seq<char>, b: Seq<char>, x: char)
    requires
        !a.contains(x),
        !b.contains(x),
    ensures
        !(a + b).contains(x),
{
    if (a + b).contains(x) {
        let k = choose|k: int| 0 <= k < (a + b).len() && (a + b)[k] == x;
        if k < a.len() {
            assert(a[k] == x);
        } else {
            assert(b[k - a.len()] == x);
        }
    }
}


// ─── the whole file, as a list of lines ──────────────────────────────────────

/// The lines of the `extension:` block of `description.yml`.
pub open spec fn head_lines(c: ScaffoldConfig) -> Seq<Seq<char>> {
    seq![
        "extension:"@,
        "  name: "@ + c.name@,
        "  description: "@ + spec_yaml_quoted(c.description@),
        "  version: "@ + spec_yaml_quoted(c.version@),
        "  language: Rust"@,
        "  build: cargo"@,
        "  license: "@ + c.license@,
        "  requires_toolchains: rust;python3"@,
    ]
}

/// The `excluded_platforms` line, where there are platforms to exclude.
pub open spec fn platform_lines(c: ScaffoldConfig) -> Seq<Seq<char>> {
    if c.excluded_platforms@.len() == 0 {
        Seq::empty()
    } else {
        seq!["  excluded_platforms: \""@ + spec_platform_list(c) + "\""@]
    }
}

/// The maintainer and `repo:` lines.
pub open spec fn repo_lines(c: ScaffoldConfig) -> Seq<Seq<char>> {
    seq![
        "  maintainers:"@,
        "    - "@ + spec_yaml_quoted(c.maintainer@),
        Seq::empty(),
        "repo:"@,
        "  github: "@ + c.github_repo@,
        "  # Must be a commit hash, not a branch."@,
        "  ref: "@ + c.git_ref@,
    ]
}

/// The lines after the `ref:` line.
pub open spec fn docs_lines(c: ScaffoldConfig) -> Seq<Seq<char>> {
    seq![
        "  # ref_next: <hash>   # optional: a revision compatible with DuckDB main,"@,
        "  #                    # used while a new DuckDB release is being prepared."@,
        Seq::empty(),
        "docs:"@,
        "  hello_world: |"@,
        "    SELECT "@ + c.name@ + "_hello('world');"@,
        "  extended_description: "@ + spec_yaml_quoted(c.description@),
    ]
}

/// The lines of the generated `description.yml`, in order.
pub open spec fn description_yml_lines(c: ScaffoldConfig) -> Seq<Seq<char>> {
    head_lines(c) + platform_lines(c) + repo_lines(c) + docs_lines(c)
}

proof fn lemma_head_text(c: ScaffoldConfig)
    ensures
        lines_text(head_lines(c)) == spec_description_yml_head(c),
{
    reveal_with_fuel(lines_text, 9);
    reveal_strlit("extension:\n  name: ");
    reveal_strlit("extension:");
    reveal_strlit("  name: ");
    reveal_strlit("\n  description: ");
    reveal_strlit("  description: ");
    reveal_strlit("\n  version: ");
    reveal_strlit("  version: ");
    reveal_strlit("\n  language: Rust\n  build: cargo\n  license: ");
    reveal_strlit("  language: Rust");
    reveal_strlit("  build: cargo");
    reveal_strlit("  license: ");
    reveal_strlit("\n  requires_toolchains: rust;python3\n");
    reveal_strlit("  requires_toolchains: rust;python3");
    let nl = seq!['\n'];
    assert(DESCRIPTION_YML_1@ =~= "extension:"@ + nl + "  name: "@);
    assert(DESCRIPTION_YML_2@ =~= nl + "  description: "@);
    assert(DESCRIPTION_YML_3@ =~= nl + "  version: "@);
    assert(DESCRIPTION_YML_4@ =~= nl + "  language: Rust"@ + nl + "  build: cargo"@ + nl
        + "  license: "@);
    assert(DESCRIPTION_YML_5@ =~= nl + "  requires_toolchains: rust;python3"@ + nl);
    let ls = head_lines(c);
    assert(lines_text(ls) =~= ls[0] + nl + (ls[1] + nl + (ls[2] + nl + (ls[3] + nl + (ls[4] + nl
        + (ls[5] + nl + (ls[6] + nl + (ls[7] + nl + Seq::empty())))))))) by {
        assert(ls.drop_first()[0] == ls[1]);
    }
    assert(lines_text(ls) =~= spec_description_yml_head(c));
}


proof fn lemma_platform_text(c: ScaffoldConfig)
    ensures
        lines_text(platform_lines(c)) == platforms_line(c),
{
    reveal_with_fuel(lines_text, 2);
    reveal_strlit("\"\n");
    reveal_strlit("\"");
    if c.excluded_platforms@.len() > 0 {
        let ls = platform_lines(c);
        assert("\"\n"@ =~= "\""@ + seq!['\n']);
        assert(lines_text(ls) =~= ls[0] + seq!['\n']);
        assert(lines_text(ls) =~= platforms_line(c));
    } else {
        assert(lines_text(platform_lines(c)) =~= platforms_line(c));
    }
}

proof fn lemma_repo_text(c: ScaffoldConfig)
    ensures
        lines_text(repo_lines(c)) == "  maintainers:\n    - "@ + spec_yaml_quoted(c.maintainer@)
            + "\n\nrepo:\n  github: "@ + c.github_repo@
            + "\n  # Must be a commit hash, not a branch.\n  ref: "@ + c.git_ref@ + seq!['\n'],
{
    reveal_with_fuel(lines_text, 8);
    reveal_strlit("  maintainers:\n    - ");
    reveal_strlit("  maintainers:");
    reveal_strlit("    - ");
    reveal_strlit("\n\nrepo:\n  github: ");
    reveal_strlit("repo:");
    reveal_strlit("  github: ");
    reveal_strlit("\n  # Must be a commit hash, not a branch.\n  ref: ");
    reveal_strlit("  # Must be a commit hash, not a branch.");
    reveal_strlit("  ref: ");
    let nl = seq!['\n'];
    let e = Seq::<char>::empty();
    assert("  maintainers:\n    - "@ =~= "  maintainers:"@ + nl + "    - "@);
    assert("\n\nrepo:\n  github: "@ =~= nl + e + nl + "repo:"@ + nl + "  github: "@);
    assert("\n  # Must be a commit hash, not a branch.\n  ref: "@ =~= nl
        + "  # Must be a commit hash, not a branch."@ + nl + "  ref: "@);
    let ls = repo_lines(c);
    assert(lines_text(ls) =~= ls[0] + nl + (ls[1] + nl + (ls[2] + nl + (ls[3] + nl + (ls[4] + nl
        + (ls[5] + nl + (ls[6] + nl + Seq::empty())))))));
}

proof fn lemma_docs_text(c: ScaffoldConfig)
    ensures
        seq!['\n'] + lines_text(docs_lines(c)) == yml_ending(c),
{
    reveal_with_fuel(lines_text, 8);
    reveal_strlit("\n  # ref_next: <hash>   # optional: a revision compatible with DuckDB main,\n  #                    # used while a new DuckDB release is being prepared.\n\ndocs:\n  hello_world: |\n    SELECT ");
    reveal_strlit("  # ref_next: <hash>   # optional: a revision compatible with DuckDB main,");
    reveal_strlit("  #                    # used while a new DuckDB release is being prepared.");
    reveal_strlit("docs:");
    reveal_strlit("  hello_world: |");
    reveal_strlit("    SELECT ");
    reveal_strlit("_hello('world');\n  extended_description: ");
    reveal_strlit("_hello('world');");
    reveal_strlit("  extended_description: ");
    reveal_strlit("\n");
    let nl = seq!['\n'];
    let e = Seq::<char>::empty();
    assert(YML_REF_TAIL@ =~= nl
        + "  # ref_next: <hash>   # optional: a revision compatible with DuckDB main,"@ + nl
        + "  #                    # used while a new DuckDB release is being prepared."@ + nl + e
        + nl + "docs:"@ + nl + "  hello_world: |"@ + nl + "    SELECT "@);
    assert("_hello('world');\n  extended_description: "@ =~= "_hello('world');"@ + nl
        + "  extended_description: "@);
    assert("\n"@ =~= nl);
    let ls = docs_lines(c);
    assert(lines_text(ls) =~= ls[0] + nl + (ls[1] + nl + (ls[2] + nl + (ls[3] + nl + (ls[4] + nl
        + (ls[5] + nl + (ls[6] + nl + Seq::empty())))))));
    assert(nl + lines_text(ls) =~= yml_ending(c));
}

/// The generated `description.yml` is the text of its lines.
proof fn lemma_yml_is_lines(c: ScaffoldConfig)
    ensures
        spec_description_yml(c) == lines_text(description_yml_lines(c)),
{
    lemma_head_text(c);
    lemma_platform_text(c);
    lemma_repo_text(c);
    lemma_docs_text(c);
    lemma_tail_parts(c);
    let h = head_lines(c);
    let p = platform_lines(c);
    let r = repo_lines(c);
    let d = docs_lines(c);
    lemma_lines_text_append(h, p);
    lemma_lines_text_append(h + p, r);
    lemma_lines_text_append(h + p + r, d);
    let nl = seq!['\n'];
    let rd = "  maintainers:\n    - "@ + spec_yaml_quoted(c.maintainer@) + "\n\nrepo:\n  github: "@
        + c.github_repo@ + "\n  # Must be a commit hash, not a branch.\n  ref: "@ + c.git_ref@;
    assert(lines_text(r) + lines_text(d) =~= rd + (nl + lines_text(d)));
    assert(spec_description_yml(c) =~= lines_text(h) + lines_text(p) + lines_text(r)
        + lines_text(d));
}


/// No line of `ls` holds a line feed.
pub open spec fn no_line_feed(ls: Seq<Seq<char>>) -> bool {
    forall|i: int| 0 <= i < ls.len() ==> !(#[trigger] ls[i]).contains('\n')
}

proof fn lemma_no_line_feed_append(a: Seq<Seq<char>>, b: Seq<Seq<char>>)
    requires
        no_line_feed(a),
        no_line_feed(b),
    ensures
        no_line_feed(a + b),
{
    assert forall|i: int| 0 <= i < (a + b).len() implies !(#[trigger] (a + b)[i]).contains('\n') by {
        if i < a.len() {
            assert((a + b)[i] == a[i]);
        } else {
            assert((a + b)[i] == b[i - a.len()]);
        }
    }
}

proof fn lemma_single_line_no_lf(v: Seq<char>)
    requires
        single_line(v),
    ensures
        !v.contains('\n'),
{
    if v.contains('\n') {
        let k = choose|k: int| 0 <= k < v.len() && v[k] == '\n';
        assert(!is_yaml_line_break(v[k]));
    }
}

proof fn lemma_name_no_lf(name: Seq<char>)
    requires
        name_error(name) is None,
    ensures
        !name.contains('\n'),
{
    if name.contains('\n') {
        let k = choose|k: int| 0 <= k < name.len() && name[k] == '\n';
        assert(name_char_ok(name[k]));
    }
}

proof fn lemma_license_no_lf(license: Seq<char>)
    requires
        license_error(license) is None,
    ensures
        !license.contains('\n'),
{
    reveal_strlit("MIT");
    reveal_strlit("MIT-0");
    reveal_strlit("Apache-2.0");
    reveal_strlit("BSD-2-Clause");
    reveal_strlit("BSD-3-Clause");
    reveal_strlit("ISC");
    reveal_strlit("MPL-2.0");
    reveal_strlit("LGPL-2.1-only");
    reveal_strlit("LGPL-2.1-or-later");
    reveal_strlit("LGPL-3.0-only");
    reveal_strlit("LGPL-3.0-or-later");
    reveal_strlit("GPL-2.0-only");
    reveal_strlit("GPL-2.0-or-later");
    reveal_strlit("GPL-3.0-only");
    reveal_strlit("GPL-3.0-or-later");
    reveal_strlit("AGPL-3.0-only");
    reveal_strlit("AGPL-3.0-or-later");
    reveal_strlit("Unlicense");
    reveal_strlit("0BSD");
    reveal_strlit("BSL-1.0");
    reveal_strlit("Zlib");
    reveal_strlit("CC0-1.0");
    reveal_strlit("EPL-2.0");
    reveal_strlit("PostgreSQL");
    let ks = known_licenses();
    let j = choose|j: int| 0 <= j < ks.len() && ks[j] == license;
    assert(ks[j] == license);
    assert(!license.contains('\n'));
}

proof fn lemma_platform_no_lf(p: Seq<char>)
    requires
        known_platforms().contains(p),
    ensures
        !p.contains('\n'),
{
    reveal_strlit("linux_amd64");
    reveal_strlit("linux_arm64");
    reveal_strlit("linux_amd64_musl");
    reveal_strlit("linux_arm64_musl");
    reveal_strlit("osx_amd64");
    reveal_strlit("osx_arm64");
    reveal_strlit("windows_amd64");
    reveal_strlit("windows_amd64_mingw");
    reveal_strlit("windows_arm64");
    reveal_strlit("wasm_mvp");
    reveal_strlit("wasm_eh");
    reveal_strlit("wasm_threads");
    let ks = known_platforms();
    let j = choose|j: int| 0 <= j < ks.len() && ks[j] == p;
    assert(ks[j] == p);
}

proof fn lemma_platforms_known(ps: Seq<Seq<char>>)
    requires
        platforms_error(ps) is None,
    ensures
        forall|i: int| 0 <= i < ps.len() ==> !(#[trigger] ps[i]).contains('\n'),
    decreases ps.len(),
{
    if ps.len() > 0 {
        lemma_platform_no_lf(ps[0]);
        lemma_platforms_known(ps.drop_first());
        assert forall|i: int| 0 <= i < ps.len() implies !(#[trigger] ps[i]).contains('\n') by {
            if i > 0 {
                assert(ps[i] == ps.drop_first()[i - 1]);
            }
        }
    }
}

proof fn lemma_join_no_lf(parts: Seq<Seq<char>>, sep: Seq<char>)
    requires
        forall|i: int| 0 <= i < parts.len() ==> !(#[trigger] parts[i]).contains('\n'),
        !sep.contains('\n'),
    ensures
        !join_with(parts, sep).contains('\n'),
    decreases parts.len(),
{
    if parts.len() > 1 {
        let init = parts.drop_last();
        assert forall|i: int| 0 <= i < init.len() implies !(#[trigger] init[i]).contains('\n') by {
            assert(init[i] == parts[i]);
        }
        lemma_join_no_lf(init, sep);
        lemma_concat_lacks(join_with(init, sep), sep, '\n');
        assert(!parts.last().contains('\n')) by {
            assert(parts.last() == parts[parts.len() - 1]);
        }
        lemma_concat_lacks(join_with(init, sep) + sep, parts.last(), '\n');
    } else if parts.len() == 1 {
        assert(!parts[0].contains('\n'));
    }
}


proof fn lemma_yml_lines_no_lf(c: ScaffoldConfig)
    requires
        scaffold_error(c) is None,
        !c.git_ref@.contains('\n'),
    ensures
        no_line_feed(description_yml_lines(c)),
{
    let qd = spec_yaml_quoted(c.description@);
    let qv = spec_yaml_quoted(c.version@);
    let qm = spec_yaml_quoted(c.maintainer@);
    lemma_quoted_reads_back(c.description@);
    lemma_quoted_reads_back(c.version@);
    lemma_quoted_reads_back(c.maintainer@);
    lemma_single_line_no_lf(qd);
    lemma_single_line_no_lf(qv);
    lemma_single_line_no_lf(qm);
    lemma_repo_single_line(c.github_repo@);
    lemma_single_line_no_lf(c.github_repo@);
    lemma_name_no_lf(c.name@);
    lemma_license_no_lf(c.license@);
    reveal_strlit("extension:");
    reveal_strlit("  name: ");
    reveal_strlit("  description: ");
    reveal_strlit("  version: ");
    reveal_strlit("  language: Rust");
    reveal_strlit("  build: cargo");
    reveal_strlit("  license: ");
    reveal_strlit("  requires_toolchains: rust;python3");
    reveal_strlit("  excluded_platforms: \"");
    reveal_strlit("\"");
    reveal_strlit("  maintainers:");
    reveal_strlit("    - ");
    reveal_strlit("repo:");
    reveal_strlit("  github: ");
    reveal_strlit("  # Must be a commit hash, not a branch.");
    reveal_strlit("  ref: ");
    reveal_strlit("  # ref_next: <hash>   # optional: a revision compatible with DuckDB main,");
    reveal_strlit("  #                    # used while a new DuckDB release is being prepared.");
    reveal_strlit("docs:");
    reveal_strlit("  hello_world: |");
    reveal_strlit("    SELECT ");
    reveal_strlit("_hello('world');");
    reveal_strlit("  extended_description: ");
    let lf = '\n';
    let h = head_lines(c);
    lemma_concat_lacks("  name: "@, c.name@, lf);
    lemma_concat_lacks("  description: "@, qd, lf);
    lemma_concat_lacks("  version: "@, qv, lf);
    lemma_concat_lacks("  license: "@, c.license@, lf);
    assert(!"extension:"@.contains(lf));
    assert(!"  language: Rust"@.contains(lf));
    assert(!"  build: cargo"@.contains(lf));
    assert(!"  requires_toolchains: rust;python3"@.contains(lf));
    assert(no_line_feed(h));
    let p = platform_lines(c);
    if c.excluded_platforms@.len() > 0 {
        let views = c.excluded_platforms@.map_values(|x: String| x@);
        lemma_platforms_known(views);
        assert(!seq![';'].contains(lf)) by {
            if seq![';'].contains(lf) {
                let k = choose|k: int| 0 <= k < 1 && seq![';'][k] == lf;
            }
        }
        lemma_join_no_lf(views, seq![';']);
        assert(!"  excluded_platforms: \""@.contains(lf));
        assert(!"\""@.contains(lf));
        lemma_concat_lacks("  excluded_platforms: \""@, spec_platform_list(c), lf);
        lemma_concat_lacks("  excluded_platforms: \""@ + spec_platform_list(c), "\""@, lf);
        assert(p[0] == "  excluded_platforms: \""@ + spec_platform_list(c) + "\""@);
    }
    assert(no_line_feed(p));
    let r = repo_lines(c);
    lemma_concat_lacks("    - "@, qm, lf);
    lemma_concat_lacks("  github: "@, c.github_repo@, lf);
    lemma_concat_lacks("  ref: "@, c.git_ref@, lf);
    assert(!"  maintainers:"@.contains(lf));
    assert(!Seq::<char>::empty().contains(lf));
    assert(!"repo:"@.contains(lf));
    assert(!"  # Must be a commit hash, not a branch."@.contains(lf));
    assert(no_line_feed(r));
    let d = docs_lines(c);
    lemma_concat_lacks("    SELECT "@, c.name@, lf);
    lemma_concat_lacks("    SELECT "@ + c.name@, "_hello('world');"@, lf);
    lemma_concat_lacks("  extended_description: "@, qd, lf);
    assert(!"  # ref_next: <hash>   # optional: a revision compatible with DuckDB main,"@.contains(lf));
    assert(!"  #                    # used while a new DuckDB release is being prepared."@.contains(lf));
    assert(!"docs:"@.contains(lf));
    assert(!"  hello_world: |"@.contains(lf));
    assert(!"_hello('world');"@.contains(lf));
    assert(no_line_feed(d));
    lemma_no_line_feed_append(h, p);
    lemma_no_line_feed_append(h + p, r);
    lemma_no_line_feed_append(h + p + r, d);
}


proof fn lemma_first_field_at(ls: Seq<Seq<char>>, key: Seq<char>, j: int)
    requires
        0 <= j < ls.len(),
        forall|i: int| 0 <= i < j ==> !key.is_prefix_of(#[trigger] ls[i]),
        key.is_prefix_of(ls[j]),
    ensures
        first_field(ls, key) == Some(ls[j].skip(key.len() as int)),
    decreases j,
{
    if j > 0 {
        let rest = ls.drop_first();
        assert(!key.is_prefix_of(ls[0]));
        assert forall|i: int| 0 <= i < j - 1 implies !key.is_prefix_of(#[trigger] rest[i]) by {
            assert(rest[i] == ls[i + 1]);
        }
        lemma_first_field_at(rest, key, j - 1);
        assert(rest[j - 1] == ls[j]);
    }
}

proof fn lemma_first_field_none(ls: Seq<Seq<char>>, key: Seq<char>)
    requires
        forall|i: int| 0 <= i < ls.len() ==> !key.is_prefix_of(#[trigger] ls[i]),
    ensures
        first_field(ls, key) is None,
    decreases ls.len(),
{
    if ls.len() > 0 {
        let rest = ls.drop_first();
        assert(!key.is_prefix_of(ls[0]));
        assert forall|i: int| 0 <= i < rest.len() implies !key.is_prefix_of(#[trigger] rest[i]) by {
            assert(rest[i] == ls[i + 1]);
        }
        lemma_first_field_none(rest, key);
    }
}

proof fn lemma_first_field_of_lines(c: ScaffoldConfig, key: Seq<char>)
    ensures
        first_field(description_yml_lines(c), key) == (if first_field(head_lines(c), key) is Some {
            first_field(head_lines(c), key)
        } else if first_field(platform_lines(c), key) is Some {
            first_field(platform_lines(c), key)
        } else if first_field(repo_lines(c), key) is Some {
            first_field(repo_lines(c), key)
        } else {
            first_field(docs_lines(c), key)
        }),
{
    let h = head_lines(c);
    let p = platform_lines(c);
    let r = repo_lines(c);
    let d = docs_lines(c);
    lemma_first_field_append(h + p + r, d, key);
    lemma_first_field_append(h + p, r, key);
    lemma_first_field_append(h, p, key);
}

proof fn lemma_head_fields(c: ScaffoldConfig)
    ensures
        first_field(head_lines(c), "  name: "@) == Some(c.name@),
        first_field(head_lines(c), "  description: "@) == Some(spec_yaml_quoted(c.description@)),
        first_field(head_lines(c), "  version: "@) == Some(spec_yaml_quoted(c.version@)),
        first_field(head_lines(c), "  license: "@) == Some(c.license@),
        first_field(head_lines(c), "    - "@) is None,
        first_field(head_lines(c), "  github: "@) is None,
        first_field(head_lines(c), "  ref: "@) is None,
        first_field(head_lines(c), "  extended_description: "@) is None,
{
    reveal_strlit("extension:");
    reveal_strlit("  name: ");
    reveal_strlit("  description: ");
    reveal_strlit("  version: ");
    reveal_strlit("  language: Rust");
    reveal_strlit("  build: cargo");
    reveal_strlit("  license: ");
    reveal_strlit("  requires_toolchains: rust;python3");
    reveal_strlit("    - ");
    reveal_strlit("  github: ");
    reveal_strlit("  ref: ");
    reveal_strlit("  extended_description: ");
    let h = head_lines(c);
    let name = "  name: "@;
    lemma_not_prefix(name, h[0], 0);
    lemma_prefix(name, c.name@);
    lemma_first_field_at(h, name, 1);
    let desc = "  description: "@;
    lemma_not_prefix(desc, h[0], 0);
    lemma_not_prefix(desc, h[1], 2);
    lemma_prefix(desc, spec_yaml_quoted(c.description@));
    lemma_first_field_at(h, desc, 2);
    let ver = "  version: "@;
    lemma_not_prefix(ver, h[0], 0);
    lemma_not_prefix(ver, h[1], 2);
    lemma_not_prefix(ver, h[2], 2);
    lemma_prefix(ver, spec_yaml_quoted(c.version@));
    lemma_first_field_at(h, ver, 3);
    let lic = "  license: "@;
    lemma_not_prefix(lic, h[0], 0);
    lemma_not_prefix(lic, h[1], 2);
    lemma_not_prefix(lic, h[2], 2);
    lemma_not_prefix(lic, h[3], 2);
    lemma_not_prefix(lic, h[4], 3);
    lemma_not_prefix(lic, h[5], 2);
    lemma_prefix(lic, c.license@);
    lemma_first_field_at(h, lic, 6);
    let m = "    - "@;
    let g = "  github: "@;
    let r = "  ref: "@;
    let e = "  extended_description: "@;
    lemma_not_prefix(m, h[0], 0);
    lemma_not_prefix(g, h[0], 0);
    lemma_not_prefix(r, h[0], 0);
    lemma_not_prefix(e, h[0], 0);
    assert forall|i: int| 1 <= i < 8 implies !m.is_prefix_of(#[trigger] h[i]) && !g.is_prefix_of(h[i])
        && !e.is_prefix_of(h[i]) by {
        lemma_not_prefix(m, h[i], 2);
        lemma_not_prefix(g, h[i], 2);
        lemma_not_prefix(e, h[i], 2);
    }
    assert forall|i: int| 1 <= i < 7 implies !r.is_prefix_of(#[trigger] h[i]) by {
        lemma_not_prefix(r, h[i], 2);
    }
    lemma_not_prefix(r, h[7], 4);
    lemma_first_field_none(h, m);
    lemma_first_field_none(h, g);
    lemma_first_field_none(h, r);
    lemma_first_field_none(h, e);
}


proof fn lemma_platform_fields(c: ScaffoldConfig)
    ensures
        first_field(platform_lines(c), "    - "@) is None,
        first_field(platform_lines(c), "  github: "@) is None,
        first_field(platform_lines(c), "  ref: "@) is None,
        first_field(platform_lines(c), "  extended_description: "@) is None,
{
    reveal_strlit("  excluded_platforms: \"");
    reveal_strlit("    - ");
    reveal_strlit("  github: ");
    reveal_strlit("  ref: ");
    reveal_strlit("  extended_description: ");
    let p = platform_lines(c);
    if p.len() > 0 {
        lemma_not_prefix("    - "@, p[0], 2);
        lemma_not_prefix("  github: "@, p[0], 2);
        lemma_not_prefix("  ref: "@, p[0], 2);
        lemma_not_prefix("  extended_description: "@, p[0], 4);
    }
    lemma_first_field_none(p, "    - "@);
    lemma_first_field_none(p, "  github: "@);
    lemma_first_field_none(p, "  ref: "@);
    lemma_first_field_none(p, "  extended_description: "@);
}

proof fn lemma_repo_fields(c: ScaffoldConfig)
    ensures
        first_field(repo_lines(c), "    - "@) == Some(spec_yaml_quoted(c.maintainer@)),
        first_field(repo_lines(c), "  github: "@) == Some(c.github_repo@),
        first_field(repo_lines(c), "  ref: "@) == Some(c.git_ref@),
        first_field(repo_lines(c), "  extended_description: "@) is None,
{
    reveal_strlit("  maintainers:");
    reveal_strlit("    - ");
    reveal_strlit("repo:");
    reveal_strlit("  github: ");
    reveal_strlit("  # Must be a commit hash, not a branch.");
    reveal_strlit("  ref: ");
    reveal_strlit("  extended_description: ");
    let r = repo_lines(c);
    let m = "    - "@;
    let g = "  github: "@;
    let rf = "  ref: "@;
    let e = "  extended_description: "@;
    lemma_not_prefix(m, r[0], 2);
    lemma_prefix(m, spec_yaml_quoted(c.maintainer@));
    lemma_first_field_at(r, m, 1);
    lemma_not_prefix(g, r[0], 2);
    lemma_not_prefix(g, r[1], 2);
    lemma_not_prefix(g, r[2], 0);
    lemma_not_prefix(g, r[3], 0);
    lemma_prefix(g, c.github_repo@);
    lemma_first_field_at(r, g, 4);
    lemma_not_prefix(rf, r[0], 2);
    lemma_not_prefix(rf, r[1], 2);
    lemma_not_prefix(rf, r[2], 0);
    lemma_not_prefix(rf, r[3], 0);
    lemma_not_prefix(rf, r[4], 2);
    lemma_not_prefix(rf, r[5], 2);
    lemma_prefix(rf, c.git_ref@);
    lemma_first_field_at(r, rf, 6);
    lemma_not_prefix(e, r[0], 2);
    lemma_not_prefix(e, r[1], 2);
    lemma_not_prefix(e, r[2], 0);
    lemma_not_prefix(e, r[3], 0);
    lemma_not_prefix(e, r[4], 2);
    lemma_not_prefix(e, r[5], 2);
    lemma_not_prefix(e, r[6], 2);
    lemma_first_field_none(r, e);
}

proof fn lemma_docs_fields(c: ScaffoldConfig)
    ensures
        first_field(docs_lines(c), "  extended_description: "@) == Some(
            spec_yaml_quoted(c.description@),
        ),
{
    reveal_strlit("  # ref_next: <hash>   # optional: a revision compatible with DuckDB main,");
    reveal_strlit("  #                    # used while a new DuckDB release is being prepared.");
    reveal_strlit("docs:");
    reveal_strlit("  hello_world: |");
    reveal_strlit("    SELECT ");
    reveal_strlit("  extended_description: ");
    let d = docs_lines(c);
    let e = "  extended_description: "@;
    lemma_not_prefix(e, d[0], 2);
    lemma_not_prefix(e, d[1], 2);
    lemma_not_prefix(e, d[2], 0);
    lemma_not_prefix(e, d[3], 0);
    lemma_not_prefix(e, d[4], 2);
    lemma_not_prefix(e, d[5], 2);
    lemma_prefix(e, spec_yaml_quoted(c.description@));
    lemma_first_field_at(d, e, 6);
}

/// The text of a double-quoted YAML scalar `v`: what its escapes read as,
/// `None` unless `v` is wrapped in double quotes and they all read.
pub open spec fn unquoted(v: Seq<char>) -> Option<Seq<char>> {
    if v.len() >= 2 && v[0] == '"' && v.last() == '"' {
        yaml_unescape(v.subrange(1, v.len() - 1))
    } else {
        None
    }
}

/// The text of the double-quoted value a reader of `file` finds under
/// `key`.
pub open spec fn quoted_field(file: Seq<char>, key: Seq<char>) -> Option<Seq<char>> {
    match field_value(file, key) {
        Some(v) => unquoted(v),
        None => None,
    }
}

proof fn lemma_unquoted(s: Seq<char>)
    ensures
        unquoted(spec_yaml_quoted(s)) == Some(s),
{
    lemma_yaml_round_trip(s);
    let q = spec_yaml_quoted(s);
    assert(q.subrange(1, q.len() - 1) =~= yaml_escape(s));
}

/// Reading the `description.yml` of a configuration the scaffold accepts
/// line by line, the first line under each key gives back what was
/// configured: the name, the license, the repository and its `ref` as
/// written, and the description (also as the extended description), the
/// version and the maintainer through their double quotes. A `ref` holding a
/// line feed is left out: it is not validated, and it would split its line.
pub proof fn lemma_description_yml_parses_back(c: ScaffoldConfig)
    requires
        scaffold_error(c) is None,
        !c.git_ref@.contains('\n'),
    ensures
        field_value(spec_description_yml(c), "  name: "@) == Some(c.name@),
        field_value(spec_description_yml(c), "  license: "@) == Some(c.license@),
        quoted_field(spec_description_yml(c), "  description: "@) == Some(c.description@),
        quoted_field(spec_description_yml(c), "  version: "@) == Some(c.version@),
        quoted_field(spec_description_yml(c), "    - "@) == Some(c.maintainer@),
        field_value(spec_description_yml(c), "  github: "@) == Some(c.github_repo@),
        field_value(spec_description_yml(c), "  ref: "@) == Some(c.git_ref@),
        quoted_field(spec_description_yml(c), "  extended_description: "@) == Some(c.description@),
{
    lemma_yml_is_lines(c);
    lemma_yml_lines_no_lf(c);
    let ls = description_yml_lines(c);
    let f = spec_description_yml(c);
    lemma_head_fields(c);
    lemma_platform_fields(c);
    lemma_repo_fields(c);
    lemma_docs_fields(c);
    lemma_unquoted(c.description@);
    lemma_unquoted(c.version@);
    lemma_unquoted(c.maintainer@);
    lemma_field_value_of_lines(ls, "  name: "@);
    lemma_first_field_of_lines(c, "  name: "@);
    lemma_field_value_of_lines(ls, "  license: "@);
    lemma_first_field_of_lines(c, "  license: "@);
    lemma_field_value_of_lines(ls, "  description: "@);
    lemma_first_field_of_lines(c, "  description: "@);
    lemma_field_value_of_lines(ls, "  version: "@);
    lemma_first_field_of_lines(c, "  version: "@);
    lemma_field_value_of_lines(ls, "    - "@);
    lemma_first_field_of_lines(c, "    - "@);
    lemma_field_value_of_lines(ls, "  github: "@);
    lemma_first_field_of_lines(c, "  github: "@);
    lemma_field_value_of_lines(ls, "  ref: "@);
    lemma_first_field_of_lines(c, "  ref: "@);
    lemma_field_value_of_lines(ls, "  extended_description: "@);
    lemma_first_field_of_lines(c, "  extended_description: "@);
}

} // verus!
