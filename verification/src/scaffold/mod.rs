//! Project scaffolding for `DuckDB` Rust extensions.
//!
//! Generates the complete file set needed to build and submit a `DuckDB`
//! extension to the community extensions repository, without any C++ glue:
//! `Cargo.toml`, a `Makefile` that drives `extension-ci-tools`, `src/lib.rs`
//! with the entry point, `description.yml` and the rest. [`generate_scaffold`]
//! validates a [`ScaffoldConfig`] and returns the files; it writes nothing.

pub mod escape;
pub mod layout;
pub mod templates;

use vstd::prelude::*;

use crate::error::ExtensionError;
use crate::text::{debug_quoted, quoted, decimal, join_with, lemma_join_split, lemma_split_join, is_digit, lemma_decimal_injective, lemma_decimal_len, push_char, push_str, split_chars, split_on, str_chars, str_eq, u64_decimal};
use crate::validate::check_result;
use crate::validate::{
    name_error, platforms_error, repo_error, text_error, validate_excluded_platforms,
    validate_extension_name, validate_extension_version, validate_free_text, validate_github_repo,
    validate_spdx_license, version_error, license_error,
};
use crate::DUCKDB_API_VERSION;
use self::templates::{
    generate_cargo_config, generate_cargo_toml, generate_description_yml, generate_extension_ci,
    generate_extension_config_cmake, generate_gitignore, generate_gitmodules, generate_lib_rs,
    generate_makefile, generate_sqllogictest, generate_wasm_lib, spec_cargo_toml,
    spec_description_yml, spec_extension_ci, spec_extension_config_cmake, spec_lib_rs,
    spec_makefile, spec_sqllogictest, CARGO_CONFIG, GITIGNORE, GITMODULES, WASM_LIB,
};

verus! {

/// Placeholder written as `repo.ref` when [`ScaffoldConfig::git_ref`] is left
/// at its default. Deliberately not a valid git revision, so that it cannot be
/// submitted by accident: `ref` must be pinned to a commit hash.
pub const REF_PLACEHOLDER: &'static str = "REPLACE_WITH_COMMIT_HASH";

/// Configuration for generating a new extension project.
#[derive(Debug, Clone)]
pub struct ScaffoldConfig {
    /// Extension name: a lower-case ASCII letter followed by lower-case
    /// letters, digits and `_`.
    pub name: String,
    /// One-line description of the extension (it may span several lines).
    pub description: String,
    /// Initial version (e.g. `"0.1.0"`).
    pub version: String,
    /// SPDX license identifier.
    pub license: String,
    /// Primary maintainer name.
    pub maintainer: String,
    /// GitHub repository path (e.g. `"myorg/duckdb-my-ext"`).
    pub github_repo: String,
    /// Platforms to exclude from CI builds (e.g. `["wasm_mvp", "wasm_eh"]`).
    pub excluded_platforms: Vec<String>,
    /// Value written as `TARGET_DUCKDB_VERSION` in the generated `Makefile`:
    /// the C extension API version (`"v1.2.0"`) for a stable-ABI build, an
    /// exact `DuckDB` release (e.g. `"v1.5.5"`) for an unstable-ABI one.
    pub target_duckdb_version: String,
    /// Whether the generated `Makefile` sets `USE_UNSTABLE_C_API=1`, pinning
    /// the binary to one `DuckDB` release.
    pub use_unstable_c_api: bool,
    /// Value written as `repo.ref` in the generated `description.yml`; must
    /// be a commit hash, not a branch.
    pub git_ref: String,
}

impl Default for ScaffoldConfig {
    fn default() -> (c: Self)
        ensures
            c.name@ == Seq::<char>::empty(),
            c.description@ == Seq::<char>::empty(),
            c.version@ == "0.1.0"@,
            c.license@ == "MIT"@,
            c.maintainer@ == Seq::<char>::empty(),
            c.github_repo@ == Seq::<char>::empty(),
            c.excluded_platforms@.len() == 0,
            c.target_duckdb_version@ == DUCKDB_API_VERSION@,
            !c.use_unstable_c_api,
            c.git_ref@ == REF_PLACEHOLDER@,
    {
        ScaffoldConfig {
            name: String::new(),
            description: String::new(),
            version: "0.1.0".to_owned(),
            license: "MIT".to_owned(),
            maintainer: String::new(),
            github_repo: String::new(),
            excluded_platforms: Vec::new(),
            target_duckdb_version: DUCKDB_API_VERSION.to_owned(),
            use_unstable_c_api: false,
            git_ref: REF_PLACEHOLDER.to_owned(),
        }
    }
}

/// A generated file with its relative path and content.
#[derive(Debug, Clone)]
pub struct GeneratedFile {
    /// Relative path from the project root (e.g. `"src/lib.rs"`).
    pub path: String,
    /// File content.
    pub content: String,
}

// ─── quoting values in messages ──────────────────────────────────────────────

/// Appends `value` to `m`, quoted as `{:?}` writes it.
fn push_quoted(m: &mut String, value: &str)
    ensures
        final(m)@ == old(m)@ + quoted(value@),
{
    let q = debug_quoted(value);
    push_str(m, q.as_str());
}

// ─── libduckdb-sys pins ──────────────────────────────────────────────────────

/// `s` without its leading `v`s (`str::trim_start_matches('v')`).
pub open spec fn strip_leading_v(s: Seq<char>) -> Seq<char>
    decreases s.len(),
{
    if s.len() > 0 && s[0] == 'v' {
        strip_leading_v(s.drop_first())
    } else {
        s
    }
}

/// Every character of `s` is an ASCII digit.
pub open spec fn all_digits(s: Seq<char>) -> bool {
    forall|i: int| 0 <= i < s.len() ==> is_digit(#[trigger] s[i])
}

/// The number the decimal digits `s` spell.
pub open spec fn digits_value(s: Seq<char>) -> int
    decreases s.len(),
{
    if s.len() == 0 {
        0
    } else {
        digits_value(s.drop_last()) * 10 + (s.last() as int - '0' as int)
    }
}

/// `str::parse::<u32>`: an optional `+`, then one or more ASCII digits
/// whose value fits a `u32`.
pub open spec fn spec_parse_u32(s: Seq<char>) -> Option<int> {
    let d = if s.len() > 0 && s[0] == '+' { s.drop_first() } else { s };
    if d.len() == 0 || !all_digits(d) || digits_value(d) > u32::MAX {
        None
    } else {
        Some(digits_value(d))
    }
}

/// The message for a version with a part that is not a number.
pub open spec fn malformed_version_message(target: Seq<char>) -> Seq<char> {
    "malformed DuckDB version "@ + quoted(target)
}

/// The message for a release no `libduckdb-sys` version is known to match.
pub open spec fn unpinnable_message(target: Seq<char>) -> Seq<char> {
    "cannot pin libduckdb-sys to DuckDB "@ + target
        + ": libduckdb-sys encodes DuckDB 1.Y.Z (Y >= 5) as 1.(10000 + 100*Y + Z) and ships 1.4.x as-is, and quack-rs needs at least 1.4.4; no libduckdb-sys release is known to match "@
        + target
}

/// The `libduckdb-sys` requirement that compiles against exactly the
/// `DuckDB` release `target` (`vX.Y.Z`): `~1.(10000 + 100·Y + Z).0` for
/// 1.5.0–1.99.99, `=1.4.Z` for 1.4.4 and later 1.4 releases. `Err` with the
/// message for a malformed release or one neither scheme can express.
pub open spec fn spec_libduckdb_sys_requirement(target: Seq<char>) -> Result<Seq<char>, Seq<char>> {
    let parts = split_on(strip_leading_v(target), '.');
    if exists|i: int| 0 <= i < parts.len() && spec_parse_u32(#[trigger] parts[i]) is None {
        Err(malformed_version_message(target))
    } else if parts.len() == 3 && spec_parse_u32(parts[0]) == Some(1int) && 5 <= spec_parse_u32(
        parts[1],
    )->0 <= 99 && spec_parse_u32(parts[2])->0 <= 99 {
        Ok(
            "~1."@ + decimal(
                (10_000 + spec_parse_u32(parts[1])->0 * 100 + spec_parse_u32(parts[2])->0) as nat,
            ) + ".0"@,
        )
    } else if parts.len() == 3 && spec_parse_u32(parts[0]) == Some(1int) && spec_parse_u32(parts[1])
        == Some(4int) && spec_parse_u32(parts[2])->0 >= 4 {
        Ok("=1.4."@ + decimal(spec_parse_u32(parts[2])->0 as nat))
    } else {
        Err(unpinnable_message(target))
    }
}

/// The value of a prefix of a digit string is at most the value of the
/// whole.
pub proof fn lemma_digits_value_prefix(s: Seq<char>, k: int)
    requires
        0 <= k <= s.len(),
        all_digits(s),
    ensures
        0 <= digits_value(s.take(k)) <= digits_value(s),
    decreases s.len(),
{
    if s.len() > 0 {
        assert(all_digits(s.drop_last())) by {
            assert forall|i: int| 0 <= i < s.drop_last().len() implies is_digit(#[trigger] s.drop_last()[i]) by {
                assert(s.drop_last()[i] == s[i]);
            }
        }
        assert(is_digit(s[s.len() - 1]));
        if k == s.len() {
            assert(s.take(k) =~= s);
            lemma_digits_value_prefix(s.drop_last(), k - 1);
        } else {
            lemma_digits_value_prefix(s.drop_last(), k);
            assert(s.drop_last().take(k) =~= s.take(k));
        }
        lemma_digits_value_prefix(s.drop_last(), 0);
    }
}

/// What `str::parse::<u32>` reads is a `u32`.
pub proof fn lemma_parse_u32_range(s: Seq<char>)
    ensures
        spec_parse_u32(s) matches Some(v) ==> 0 <= v <= u32::MAX,
{
    let d = if s.len() > 0 && s[0] == '+' { s.drop_first() } else { s };
    if spec_parse_u32(s) is Some {
        lemma_digits_value_prefix(d, 0);
    }
}

/// The numbers of the release `target` names, each as `str::parse::<u32>`
/// reads it (`None` for a part that is not a number).
pub open spec fn release_numbers(target: Seq<char>) -> Seq<Option<int>> {
    split_on(strip_leading_v(target), '.').map_values(|p: Seq<char>| spec_parse_u32(p))
}

/// A pin names one `DuckDB` release: two targets that get the same
/// `libduckdb-sys` requirement name the same release, so a pinned build never
/// admits another release.
pub proof fn lemma_requirement_names_one_release(t1: Seq<char>, t2: Seq<char>)
    requires
        spec_libduckdb_sys_requirement(t1) is Ok,
        spec_libduckdb_sys_requirement(t1) == spec_libduckdb_sys_requirement(t2),
    ensures
        release_numbers(t1) == release_numbers(t2),
{
    reveal_strlit("~1.");
    reveal_strlit(".0");
    reveal_strlit("=1.4.");
    let p1 = split_on(strip_leading_v(t1), '.');
    let p2 = split_on(strip_leading_v(t2), '.');
    let r = spec_libduckdb_sys_requirement(t1)->Ok_0;
    let tilde1 = p1.len() == 3 && spec_parse_u32(p1[0]) == Some(1int) && 5 <= spec_parse_u32(p1[1])->0
        <= 99 && spec_parse_u32(p1[2])->0 <= 99;
    let tilde2 = p2.len() == 3 && spec_parse_u32(p2[0]) == Some(1int) && 5 <= spec_parse_u32(p2[1])->0
        <= 99 && spec_parse_u32(p2[2])->0 <= 99;
    let x1 = (10_000 + spec_parse_u32(p1[1])->0 * 100 + spec_parse_u32(p1[2])->0) as nat;
    let x2 = (10_000 + spec_parse_u32(p2[1])->0 * 100 + spec_parse_u32(p2[2])->0) as nat;
    let z1 = spec_parse_u32(p1[2])->0 as nat;
    let z2 = spec_parse_u32(p2[2])->0 as nat;
    if tilde1 {
        assert(r == "~1."@ + decimal(x1) + ".0"@);
        if tilde2 {
            assert(r == "~1."@ + decimal(x2) + ".0"@);
            lemma_decimal_len(x1);
            lemma_decimal_len(x2);
            assert(decimal(x1) =~= r.subrange(3, r.len() - 2));
            assert(decimal(x2) =~= r.subrange(3, r.len() - 2));
            lemma_decimal_injective(x1, x2);
            lemma_parse_u32_range(p1[1]);
            lemma_parse_u32_range(p1[2]);
            lemma_parse_u32_range(p2[1]);
            lemma_parse_u32_range(p2[2]);
            let a1 = spec_parse_u32(p1[1])->0;
            let b1 = spec_parse_u32(p1[2])->0;
            let a2 = spec_parse_u32(p2[1])->0;
            let b2 = spec_parse_u32(p2[2])->0;
            assert(a1 == a2 && b1 == b2) by (nonlinear_arith)
                requires
                    10_000 + a1 * 100 + b1 == 10_000 + a2 * 100 + b2,
                    0 <= b1 <= 99,
                    0 <= b2 <= 99,
            ;
            assert(spec_parse_u32(p1[1]) is Some && spec_parse_u32(p2[1]) is Some);
            assert(spec_parse_u32(p1[2]) is Some && spec_parse_u32(p2[2]) is Some);
            assert(spec_parse_u32(p1[1]) == spec_parse_u32(p2[1]));
            assert(spec_parse_u32(p1[2]) == spec_parse_u32(p2[2]));
        } else {
            assert(r == "=1.4."@ + decimal(z2));
            assert(r[0] == '~');
        }
    } else {
        assert(r == "=1.4."@ + decimal(z1));
        if tilde2 {
            assert(r == "~1."@ + decimal(x2) + ".0"@);
            assert(r[0] == '=');
        } else {
            assert(r == "=1.4."@ + decimal(z2));
            assert(decimal(z1) =~= r.skip(5));
            assert(decimal(z2) =~= r.skip(5));
            lemma_decimal_injective(z1, z2);
            assert(spec_parse_u32(p1[2]) is Some && spec_parse_u32(p2[2]) is Some);
            assert(spec_parse_u32(p1[2]) == spec_parse_u32(p2[2]));
        }
    }
    assert(release_numbers(t1) =~= release_numbers(t2));
}

/// `str::parse::<u32>` on a character sequence.
pub fn parse_u32(s: &[char]) -> (r: Option<u32>)
    ensures
        r matches Some(v) ==> spec_parse_u32(s@) == Some(v as int),
        r is None ==> spec_parse_u32(s@) is None,
{
    let start: usize = if s.len() > 0 && s[0] == '+' { 1 } else { 0 };
    let ghost d = if s@.len() > 0 && s@[0] == '+' { s@.drop_first() } else { s@ };
    assert(d =~= s@.skip(start as int));
    if start >= s.len() {
        return None;
    }
    let mut acc: u64 = 0;
    let mut k: usize = start;
    while k < s.len()
        invariant
            start <= k <= s@.len(),
            d =~= s@.skip(start as int),
            d == (if s@.len() > 0 && s@[0] == '+' { s@.drop_first() } else { s@ }),
            d.len() > 0,
            all_digits(d.take(k - start)),
            acc == digits_value(d.take(k - start)),
            acc <= u32::MAX,
        decreases s@.len() - k,
    {
        let c = s[k];
        assert(d[k - start] == c);
        assert(d.take(k - start + 1).drop_last() =~= d.take(k - start));
        assert(d.take(k - start + 1).last() == c);
        if !('0' <= c && c <= '9') {
            proof {
                assert(!all_digits(d)) by {
                    assert(!is_digit(d[k - start]));
                }
            }
            return None;
        }
        let next: u64 = acc * 10 + ((c as u64) - ('0' as u64));
        assert(all_digits(d.take(k - start + 1))) by {
            assert forall|i: int| 0 <= i < d.take(k - start + 1).len() implies is_digit(#[trigger] d.take(k - start + 1)[i]) by {
                if i < k - start {
                    assert(d.take(k - start + 1)[i] == d.take(k - start)[i]);
                }
            }
        }
        assert(next == digits_value(d.take(k - start + 1)));
        if next > 0xFFFF_FFFF {
            proof {
                if all_digits(d) {
                    lemma_digits_value_prefix(d, k - start + 1);
                }
            }
            return None;
        }
        acc = next;
        k = k + 1;
    }
    assert(d.take(k - start) =~= d);
    Some(acc as u32)
}

/// The `libduckdb-sys` version requirement that compiles against exactly the
/// `DuckDB` release `target` (`vX.Y.Z`), for a `C_STRUCT_UNSTABLE` build.
///
/// `libduckdb-sys` numbers its releases after the `DuckDB` release whose
/// headers it ships: from 1.5.0 as `1.(10000 + 100·minor + patch).N`, so
/// `~1.10505.0` admits binding fixes but never another `DuckDB` release; on
/// the 1.4 line the crate version is the `DuckDB` version, so the pin is
/// exact.
///
/// # Errors
///
/// A release neither scheme can express, or one older than 1.4.4.
pub fn libduckdb_sys_requirement(target: &str) -> (r: Result<String, ExtensionError>)
    ensures
        spec_libduckdb_sys_requirement(target@) matches Ok(s) ==> (r matches Ok(x) && x@ == s),
        spec_libduckdb_sys_requirement(target@) matches Err(m) ==> (r matches Err(e) && e@ == m),
{
    let chars = str_chars(target);
    let mut start: usize = 0;
    assert(chars@.skip(0) =~= chars@);
    while start < chars.len() && chars[start] == 'v'
        invariant
            start <= chars@.len(),
            strip_leading_v(target@) == strip_leading_v(chars@.skip(start as int)),
            chars@ == target@,
        decreases chars@.len() - start,
    {
        assert(chars@.skip(start as int).drop_first() =~= chars@.skip(start + 1));
        start = start + 1;
    }
    let mut rest: Vec<char> = Vec::new();
    let mut k: usize = start;
    while k < chars.len()
        invariant
            start <= k <= chars@.len(),
            rest@ == chars@.subrange(start as int, k as int),
        decreases chars@.len() - k,
    {
        rest.push(chars[k]);
        assert(chars@.subrange(start as int, k as int).push(chars@[k as int]) =~= chars@.subrange(
            start as int,
            k + 1,
        ));
        k = k + 1;
    }
    assert(rest@ =~= chars@.skip(start as int));
    assert(strip_leading_v(rest@) == rest@);
    let parts = split_chars(rest.as_slice(), '.');
    let ghost sp = split_on(strip_leading_v(target@), '.');
    let mut numbers: Vec<u32> = Vec::new();
    let mut i: usize = 0;
    while i < parts.len()
        invariant
            i <= parts@.len(),
            sp == split_on(strip_leading_v(target@), '.'),
            parts@.len() == sp.len(),
            forall|j: int| 0 <= j < parts@.len() ==> #[trigger] parts@[j]@ == sp[j],
            numbers@.len() == i,
            forall|j: int| 0 <= j < i ==> spec_parse_u32(sp[j]) == Some(#[trigger] numbers@[j] as int),
        decreases parts@.len() - i,
    {
        match parse_u32(parts[i].as_slice()) {
            Some(n) => {
                numbers.push(n);
            },
            None => {
                assert(spec_parse_u32(sp[i as int]) is None);
                let mut m = String::new();
                push_str(&mut m, "malformed DuckDB version ");
                push_quoted(&mut m, target);
                return Err(ExtensionError::from_string(m));
            },
        }
        i = i + 1;
    }
    assert(!exists|j: int| 0 <= j < sp.len() && spec_parse_u32(#[trigger] sp[j]) is None) by {
        assert forall|j: int| 0 <= j < sp.len() implies spec_parse_u32(#[trigger] sp[j]) is Some by {
            assert(spec_parse_u32(sp[j]) == Some(numbers@[j] as int));
        }
    }
    if numbers.len() == 3 && numbers[0] == 1 && 5 <= numbers[1] && numbers[1] <= 99 && numbers[2] <= 99 {
        let mut s = String::new();
        push_str(&mut s, "~1.");
        let n = u64_decimal((10_000 + numbers[1] * 100 + numbers[2]) as u64);
        push_str(&mut s, n.as_str());
        push_str(&mut s, ".0");
        return Ok(s);
    }
    if numbers.len() == 3 && numbers[0] == 1 && numbers[1] == 4 && numbers[2] >= 4 {
        let mut s = String::new();
        push_str(&mut s, "=1.4.");
        let n = u64_decimal(numbers[2] as u64);
        push_str(&mut s, n.as_str());
        return Ok(s);
    }
    let mut m = String::new();
    push_str(&mut m, "cannot pin libduckdb-sys to DuckDB ");
    push_str(&mut m, target);
    push_str(&mut m, ": libduckdb-sys encodes DuckDB 1.Y.Z (Y >= 5) as 1.(10000 + 100*Y + Z) and ships 1.4.x as-is, and quack-rs needs at least 1.4.4; no libduckdb-sys release is known to match ");
    push_str(&mut m, target);
    Err(ExtensionError::from_string(m))
}


// ─── target DuckDB version ───────────────────────────────────────────────────


/// `v` is `vMAJOR.MINOR.PATCH`: a `v`, then three non-empty runs of ASCII
/// digits separated by dots.
pub open spec fn is_release_tag(v: Seq<char>) -> bool {
    let parts = split_on(v.drop_first(), '.');
    &&& v.len() > 0
    &&& v[0] == 'v'
    &&& parts.len() == 3
    &&& forall|i: int| 0 <= i < 3 ==> #[trigger] parts[i].len() > 0 && all_digits(parts[i])
}

/// `v{a}.{b}.{c}`.
pub open spec fn tag_of(a: Seq<char>, b: Seq<char>, c: Seq<char>) -> Seq<char> {
    seq!['v'] + a + seq!['.'] + b + seq!['.'] + c
}

/// `s` is a non-empty run of ASCII digits.
pub open spec fn digit_run(s: Seq<char>) -> bool {
    s.len() > 0 && all_digits(s)
}

/// `v` is `v{a}.{b}.{c}` for non-empty runs of ASCII digits `a`, `b`, `c`.
pub open spec fn release_tag_form(v: Seq<char>) -> bool {
    exists|a: Seq<char>, b: Seq<char>, c: Seq<char>|
        digit_run(a) && digit_run(b) && digit_run(c) && #[trigger] tag_of(a, b, c) == v
}

proof fn lemma_digit_run_lacks_dot(s: Seq<char>)
    requires
        digit_run(s),
    ensures
        !s.contains('.'),
{
    if s.contains('.') {
        let k = choose|k: int| 0 <= k < s.len() && s[k] == '.';
        assert(is_digit(s[k]));
    }
}

/// The split the validation makes is the `v{a}.{b}.{c}` form: a target is a
/// release tag exactly when it is `v` and three non-empty runs of ASCII
/// digits separated by dots.
pub proof fn lemma_release_tag_form(v: Seq<char>)
    ensures
        is_release_tag(v) <==> release_tag_form(v),
{
    if is_release_tag(v) {
        let parts = split_on(v.drop_first(), '.');
        lemma_join_split(v.drop_first(), '.');
        assert(parts.drop_last().drop_last() =~= seq![parts[0]]);
        assert(parts.drop_last().len() == 2);
        assert(join_with(parts.drop_last().drop_last(), seq!['.']) == parts[0]);
        assert(join_with(parts.drop_last(), seq!['.']) == parts[0] + seq!['.'] + parts[1]);
        assert(digit_run(parts[0]) && digit_run(parts[1]) && digit_run(parts[2]));
        assert(join_with(parts, seq!['.']) == join_with(parts.drop_last(), seq!['.']) + seq!['.']
            + parts[2]);
        assert(v =~= seq!['v'] + v.drop_first());
        assert(tag_of(parts[0], parts[1], parts[2]) =~= v);
    }
    if release_tag_form(v) {
        let (a, b, c) = choose|a: Seq<char>, b: Seq<char>, c: Seq<char>|
            digit_run(a) && digit_run(b) && digit_run(c) && #[trigger] tag_of(a, b, c) == v;
        let parts = seq![a, b, c];
        lemma_digit_run_lacks_dot(a);
        lemma_digit_run_lacks_dot(b);
        lemma_digit_run_lacks_dot(c);
        let pb = parts.drop_last();
        assert(pb =~= seq![a, b]);
        assert(pb.drop_last() =~= seq![a]);
        assert(join_with(pb.drop_last(), seq!['.']) == a);
        assert(pb.last() == b);
        assert(join_with(pb, seq!['.']) == a + seq!['.'] + b);
        assert(join_with(parts, seq!['.']) =~= v.drop_first());
        assert forall|i: int| 0 <= i < parts.len() implies !(#[trigger] parts[i]).contains('.') by {
            if i == 0 {
                assert(parts[i] == a);
            } else if i == 1 {
                assert(parts[i] == b);
            } else {
                assert(parts[i] == c);
            }
        }
        lemma_split_join(parts, '.');
        assert(split_on(v.drop_first(), '.') == parts);
        assert(v[0] == 'v');
    }
}

/// Which targets validation accepts: exactly the `v{a}.{b}.{c}` tags of
/// digit runs that fit the ABI — the C API version for a stable-ABI build,
/// for an unstable-ABI one a release other than it that a `libduckdb-sys`
/// version can pin.
pub proof fn lemma_accepted_targets(c: ScaffoldConfig)
    ensures
        target_error(c) is None <==> release_tag_form(c.target_duckdb_version@) && (if c.use_unstable_c_api {
            c.target_duckdb_version@ != DUCKDB_API_VERSION@ && spec_libduckdb_sys_requirement(
                c.target_duckdb_version@,
            ) is Ok
        } else {
            c.target_duckdb_version@ == DUCKDB_API_VERSION@
        }),
{
    lemma_release_tag_form(c.target_duckdb_version@);
}

/// The message for a `use_unstable_c_api = false` build that names a
/// `DuckDB` release other than the C API version.
pub open spec fn stable_mismatch_message(v: Seq<char>) -> Seq<char> {
    "with use_unstable_c_api = false the extension is stamped C_STRUCT, so target_duckdb_version is the C extension API version and must be "@
        + quoted(DUCKDB_API_VERSION@) + "; got "@ + quoted(v)
        + ". Set use_unstable_c_api = true to pin the binary to DuckDB "@ + v + " instead."@
}

/// The message for a `use_unstable_c_api = true` build that names the C API
/// version instead of a `DuckDB` release.
pub open spec fn unstable_mismatch_message() -> Seq<char> {
    "with use_unstable_c_api = true the extension is stamped C_STRUCT_UNSTABLE and DuckDB requires target_duckdb_version to be the exact DuckDB release it will be loaded into (e.g. \"v1.5.5\"); "@
        + quoted(DUCKDB_API_VERSION@)
        + " is the C extension API version, not a DuckDB release to pin to."@
}

/// Why `c.target_duckdb_version` does not fit `c.use_unstable_c_api`, if it
/// does not: it must be `vMAJOR.MINOR.PATCH`; a stable-ABI build names the C
/// API version, an unstable-ABI one a `DuckDB` release that a
/// `libduckdb-sys` version can pin.
pub open spec fn target_error(c: ScaffoldConfig) -> Option<Seq<char>> {
    let v = c.target_duckdb_version@;
    if v.len() == 0 || v[0] != 'v' {
        Some(
            "target_duckdb_version must start with 'v' (e.g. \"v1.5.5\"), got "@ + quoted(v),
        )
    } else if !is_release_tag(v) {
        Some(
            "target_duckdb_version must be 'vMAJOR.MINOR.PATCH' (e.g. \"v1.5.5\"), got "@
                + quoted(v),
        )
    } else if !c.use_unstable_c_api && v != DUCKDB_API_VERSION@ {
        Some(stable_mismatch_message(v))
    } else if c.use_unstable_c_api && v == DUCKDB_API_VERSION@ {
        Some(unstable_mismatch_message())
    } else if c.use_unstable_c_api && spec_libduckdb_sys_requirement(v) is Err {
        Some(spec_libduckdb_sys_requirement(v)->Err_0)
    } else {
        None
    }
}

fn all_ascii_digits(s: &Vec<char>) -> (r: bool)
    ensures
        r == all_digits(s@),
{
    let mut k: usize = 0;
    while k < s.len()
        invariant
            k <= s@.len(),
            forall|j: int| 0 <= j < k ==> is_digit(#[trigger] s@[j]),
        decreases s@.len() - k,
    {
        let c = s[k];
        if !('0' <= c && c <= '9') {
            assert(!is_digit(s@[k as int]));
            return false;
        }
        k = k + 1;
    }
    true
}

fn quoted_error(prefix: &str, value: &str, suffix: &str) -> (e: ExtensionError)
    ensures
        e@ == prefix@ + quoted(value@) + suffix@,
{
    let mut m = String::new();
    push_str(&mut m, prefix);
    push_quoted(&mut m, value);
    push_str(&mut m, suffix);
    ExtensionError::from_string(m)
}

/// Checks that `target_duckdb_version` is a `vX.Y.Z` string consistent with
/// `use_unstable_c_api`.
///
/// `extension-ci-tools` feeds `TARGET_DUCKDB_VERSION` to the metadata
/// stamper, where it means the C API version for a `C_STRUCT` build and an
/// exact `DuckDB` release for a `C_STRUCT_UNSTABLE` one; a mismatch yields a
/// binary `DuckDB` refuses to load.
pub fn validate_target_duckdb_version(config: &ScaffoldConfig) -> (r: Result<(), ExtensionError>)
    ensures
        check_result(r, target_error(*config)),
{
    proof {
        reveal_strlit("");
    }
    let version = config.target_duckdb_version.as_str();
    let chars = str_chars(version);
    if chars.len() == 0 || chars[0] != 'v' {
        return Err(
            quoted_error(
                "target_duckdb_version must start with 'v' (e.g. \"v1.5.5\"), got ",
                version,
                "",
            ),
        );
    }
    let mut numeric: Vec<char> = Vec::new();
    let mut k: usize = 1;
    while k < chars.len()
        invariant
            1 <= k <= chars@.len(),
            numeric@ == chars@.subrange(1, k as int),
        decreases chars@.len() - k,
    {
        numeric.push(chars[k]);
        assert(chars@.subrange(1, k as int).push(chars@[k as int]) =~= chars@.subrange(1, k + 1));
        k = k + 1;
    }
    assert(numeric@ =~= version@.drop_first());
    let parts = split_chars(numeric.as_slice(), '.');
    let well_formed = parts.len() == 3 && parts[0].len() > 0 && all_ascii_digits(&parts[0])
        && parts[1].len() > 0 && all_ascii_digits(&parts[1]) && parts[2].len() > 0
        && all_ascii_digits(&parts[2]);
    assert(well_formed == is_release_tag(version@)) by {
        if parts@.len() == 3 {
            assert(parts@[0]@ == split_on(version@.drop_first(), '.')[0]);
            assert(parts@[1]@ == split_on(version@.drop_first(), '.')[1]);
            assert(parts@[2]@ == split_on(version@.drop_first(), '.')[2]);
        }
    }
    if !well_formed {
        return Err(
            quoted_error(
                "target_duckdb_version must be 'vMAJOR.MINOR.PATCH' (e.g. \"v1.5.5\"), got ",
                version,
                "",
            ),
        );
    }
    let is_api_version = str_eq(version, DUCKDB_API_VERSION);
    if !config.use_unstable_c_api && !is_api_version {
        let mut m = String::new();
        push_str(
            &mut m,
            "with use_unstable_c_api = false the extension is stamped C_STRUCT, so target_duckdb_version is the C extension API version and must be ",
        );
        push_quoted(&mut m, DUCKDB_API_VERSION);
        push_str(&mut m, "; got ");
        push_quoted(&mut m, version);
        push_str(&mut m, ". Set use_unstable_c_api = true to pin the binary to DuckDB ");
        push_str(&mut m, version);
        push_str(&mut m, " instead.");
        return Err(ExtensionError::from_string(m));
    }
    if config.use_unstable_c_api && is_api_version {
        let mut m = String::new();
        push_str(
            &mut m,
            "with use_unstable_c_api = true the extension is stamped C_STRUCT_UNSTABLE and DuckDB requires target_duckdb_version to be the exact DuckDB release it will be loaded into (e.g. \"v1.5.5\"); ",
        );
        push_quoted(&mut m, DUCKDB_API_VERSION);
        push_str(&mut m, " is the C extension API version, not a DuckDB release to pin to.");
        return Err(ExtensionError::from_string(m));
    }
    if config.use_unstable_c_api {
        match libduckdb_sys_requirement(version) {
            Ok(_) => {},
            Err(e) => {
                return Err(e);
            },
        }
    }
    Ok(())
}


// ─── the scaffold ────────────────────────────────────────────────────────────

/// Why `c` cannot be scaffolded, or `None` if it can: the first of the name,
/// version, license, excluded platforms, description (which may span lines),
/// maintainer, GitHub repository and target `DuckDB` version that is invalid.
pub open spec fn scaffold_error(c: ScaffoldConfig) -> Option<Seq<char>> {
    if name_error(c.name@) is Some {
        name_error(c.name@)
    } else if version_error(c.version@) is Some {
        version_error(c.version@)
    } else if license_error(c.license@) is Some {
        license_error(c.license@)
    } else if platforms_error(c.excluded_platforms@.map_values(|p: String| p@)) is Some {
        platforms_error(c.excluded_platforms@.map_values(|p: String| p@))
    } else if text_error("description"@, c.description@, true) is Some {
        text_error("description"@, c.description@, true)
    } else if text_error("maintainer"@, c.maintainer@, false) is Some {
        text_error("maintainer"@, c.maintainer@, false)
    } else if repo_error(c.github_repo@) is Some {
        repo_error(c.github_repo@)
    } else {
        target_error(c)
    }
}

/// The files of a valid configuration, as (path, content) pairs, in order.
pub open spec fn scaffold_files(c: ScaffoldConfig) -> Seq<(Seq<char>, Seq<char>)> {
    seq![
        ("Cargo.toml"@, spec_cargo_toml(c)),
        ("Makefile"@, spec_makefile(c)),
        ("extension_config.cmake"@, spec_extension_config_cmake(c)),
        ("src/lib.rs"@, spec_lib_rs(c)),
        ("src/wasm_lib.rs"@, WASM_LIB@),
        ("description.yml"@, spec_description_yml(c)),
        ("test/sql/"@ + c.name@ + ".test"@, spec_sqllogictest(c)),
        (".github/workflows/extension-ci.yml"@, spec_extension_ci(c)),
        (".gitmodules"@, GITMODULES@),
        (".gitignore"@, GITIGNORE@),
        (".cargo/config.toml"@, CARGO_CONFIG@),
    ]
}

/// A generated file as a (path, content) pair.
pub open spec fn file_view(f: GeneratedFile) -> (Seq<char>, Seq<char>) {
    (f.path@, f.content@)
}

fn file(path: &str, content: String) -> (f: GeneratedFile)
    ensures
        f.path@ == path@,
        f.content@ == content@,
{
    GeneratedFile { path: path.to_owned(), content }
}

/// Generates the complete set of project files for a new `DuckDB` Rust
/// extension: validates the configuration and returns the files, which the
/// caller decides how to persist.
///
/// # Errors
///
/// The name, version, license, excluded platforms, description, maintainer,
/// GitHub repository or target `DuckDB` version is invalid — including a
/// hyphenated name, which `DuckDB` could never load.
pub fn generate_scaffold(config: &ScaffoldConfig) -> (r: Result<Vec<GeneratedFile>, ExtensionError>)
    ensures
        r is Ok <==> scaffold_error(*config) is None,
        r matches Err(e) ==> scaffold_error(*config) == Some(e@),
        r matches Ok(files) ==> files@.map_values(|f: GeneratedFile| file_view(f)) == scaffold_files(*config),
{
    match validate_extension_name(config.name.as_str()) {
        Ok(()) => {},
        Err(e) => {
            return Err(e);
        },
    }
    match validate_extension_version(config.version.as_str()) {
        Ok(()) => {},
        Err(e) => {
            return Err(e);
        },
    }
    match validate_spdx_license(config.license.as_str()) {
        Ok(()) => {},
        Err(e) => {
            return Err(e);
        },
    }
    match validate_excluded_platforms(config.excluded_platforms.as_slice()) {
        Ok(()) => {},
        Err(e) => {
            return Err(e);
        },
    }
    match validate_free_text("description", config.description.as_str(), true) {
        Ok(()) => {},
        Err(e) => {
            proof {
                reveal_strlit("description");
            }
            return Err(e);
        },
    }
    match validate_free_text("maintainer", config.maintainer.as_str(), false) {
        Ok(()) => {},
        Err(e) => {
            proof {
                reveal_strlit("maintainer");
            }
            return Err(e);
        },
    }
    match validate_github_repo(config.github_repo.as_str()) {
        Ok(()) => {},
        Err(e) => {
            return Err(e);
        },
    }
    match validate_target_duckdb_version(config) {
        Ok(()) => {},
        Err(e) => {
            return Err(e);
        },
    }
    let mut test_path = String::new();
    push_str(&mut test_path, "test/sql/");
    push_str(&mut test_path, config.name.as_str());
    push_str(&mut test_path, ".test");
    let mut files: Vec<GeneratedFile> = Vec::new();
    files.push(file("Cargo.toml", generate_cargo_toml(config)));
    files.push(file("Makefile", generate_makefile(config)));
    files.push(file("extension_config.cmake", generate_extension_config_cmake(config)));
    files.push(file("src/lib.rs", generate_lib_rs(config)));
    files.push(file("src/wasm_lib.rs", generate_wasm_lib()));
    files.push(file("description.yml", generate_description_yml(config)));
    files.push(file(test_path.as_str(), generate_sqllogictest(config)));
    files.push(file(".github/workflows/extension-ci.yml", generate_extension_ci(config)));
    files.push(file(".gitmodules", generate_gitmodules()));
    files.push(file(".gitignore", generate_gitignore()));
    files.push(file(".cargo/config.toml", generate_cargo_config()));
    proof {
        reveal_strlit("description");
        reveal_strlit("maintainer");
    }
    assert(files@.map_values(|f: GeneratedFile| file_view(f)) =~= scaffold_files(*config));
    Ok(files)
}

} // verus!
