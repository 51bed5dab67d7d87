//! Checks on the metadata of a community extension: its name, version,
//! license, excluded platforms, free-text fields and GitHub repository.

use vstd::prelude::*;

use crate::error::ExtensionError;
use crate::expression::{trim, trim_chars};
use crate::text::{chars_eq, is_digit, push_str, split_chars, split_on, str_chars, str_in_list};

verus! {

/// `c` is an ASCII lower-case letter.
pub open spec fn is_lower(c: char) -> bool {
    'a' <= c <= 'z'
}

/// `c` is an ASCII letter or digit.
pub open spec fn is_alnum(c: char) -> bool {
    ('a' <= c <= 'z') || ('A' <= c <= 'Z') || is_digit(c)
}

/// A character an extension name may hold: a lower-case letter, a digit or
/// `_`.
pub open spec fn name_char_ok(c: char) -> bool {
    is_lower(c) || is_digit(c) || c == '_'
}

/// Why `name` cannot be an extension name, or `None` if it can. `DuckDB`
/// derives the entry point symbol `{name}_init_c_api` and the library file
/// name from it, so it must be a lower-case identifier.
pub open spec fn name_error(name: Seq<char>) -> Option<Seq<char>> {
    if name.len() == 0 {
        Some("extension name must not be empty"@)
    } else if name.contains('-') {
        Some("extension name '"@ + name
            + "' contains '-': DuckDB derives the entry point symbol {name}_init_c_api from the name, where '-' is not allowed; use '_' instead"@)
    } else if !is_lower(name[0]) {
        Some("extension name '"@ + name + "' must start with a lower-case ASCII letter"@)
    } else if exists|i: int| 0 <= i < name.len() && !name_char_ok(#[trigger] name[i]) {
        Some("extension name '"@ + name
            + "' may hold only lower-case ASCII letters, digits and '_'"@)
    } else {
        None
    }
}

/// A character a version may hold: an ASCII letter or digit, `.`, `-`, `_`
/// or `+`.
pub open spec fn version_char_ok(c: char) -> bool {
    is_alnum(c) || c == '.' || c == '-' || c == '_' || c == '+'
}

/// Why `version` cannot be an extension version, or `None` if it can.
/// `DuckDB` specifies no version format (date-based build ids and commit
/// hashes are in use), so any non-empty run of version characters is
/// accepted; whitespace and path separators are not.
pub open spec fn version_error(version: Seq<char>) -> Option<Seq<char>> {
    if version.len() == 0 {
        Some("extension version must not be empty"@)
    } else if exists|i: int| 0 <= i < version.len() && !version_char_ok(#[trigger] version[i]) {
        Some("extension version '"@ + version
            + "' may hold only ASCII letters, digits, '.', '-', '_' and '+'"@)
    } else {
        None
    }
}

/// The SPDX license identifiers accepted for a community extension.
pub open spec fn known_licenses() -> Seq<Seq<char>> {
    seq![
        "MIT"@, "MIT-0"@, "Apache-2.0"@, "BSD-2-Clause"@, "BSD-3-Clause"@, "ISC"@, "MPL-2.0"@,
        "LGPL-2.1-only"@, "LGPL-2.1-or-later"@, "LGPL-3.0-only"@, "LGPL-3.0-or-later"@,
        "GPL-2.0-only"@, "GPL-2.0-or-later"@, "GPL-3.0-only"@, "GPL-3.0-or-later"@,
        "AGPL-3.0-only"@, "AGPL-3.0-or-later"@, "Unlicense"@, "0BSD"@, "BSL-1.0"@, "Zlib"@,
        "CC0-1.0"@, "EPL-2.0"@, "PostgreSQL"@,
    ]
}

/// The platforms `DuckDB`'s community extension CI builds for.
pub open spec fn known_platforms() -> Seq<Seq<char>> {
    seq![
        "linux_amd64"@, "linux_arm64"@, "linux_amd64_musl"@, "linux_arm64_musl"@,
        "osx_amd64"@, "osx_arm64"@, "windows_amd64"@, "windows_amd64_mingw"@,
        "windows_arm64"@, "wasm_mvp"@, "wasm_eh"@, "wasm_threads"@,
    ]
}

/// Why `license` cannot be the license of a community extension, or `None`.
pub open spec fn license_error(license: Seq<char>) -> Option<Seq<char>> {
    if known_licenses().contains(license) {
        None
    } else {
        Some("license '"@ + license + "' is not a recognised SPDX license identifier"@)
    }
}

/// Why a list of platforms cannot be excluded, or `None`: the first one that
/// is not a platform the community CI builds for.
pub open spec fn platforms_error(platforms: Seq<Seq<char>>) -> Option<Seq<char>>
    decreases platforms.len(),
{
    if platforms.len() == 0 {
        None
    } else if !known_platforms().contains(platforms[0]) {
        Some("excluded platform '"@ + platforms[0]
            + "' is not a platform DuckDB's community extension CI builds for"@)
    } else {
        platforms_error(platforms.drop_first())
    }
}

/// A character that may not appear in configured free text: a control
/// character other than tab (and line feed where several lines are allowed),
/// a bidirectional-formatting character, and — in single-line text — the
/// Unicode line and paragraph separators.
pub open spec fn forbidden_text_char(c: char, multiline: bool) -> bool {
    let v = c as u32;
    (v < 0x20 && v != 0x09 && !(multiline && v == 0x0a)) || (0x7f <= v <= 0x9f) || v == 0x61c
        || v == 0x200e || v == 0x200f || (0x202a <= v <= 0x202e) || (0x2066 <= v <= 0x2069) || (
    !multiline && (v == 0x2028 || v == 0x2029))
}

/// Why `text` cannot be the free-text field `field`, or `None`: it must not
/// be empty or padded with whitespace, and must hold no forbidden character.
pub open spec fn text_error(field: Seq<char>, text: Seq<char>, multiline: bool) -> Option<Seq<char>> {
    if trim(text).len() == 0 {
        Some(field + " must not be empty"@)
    } else if trim(text) != text {
        Some(field + " must not start or end with whitespace"@)
    } else if exists|i: int| 0 <= i < text.len() && forbidden_text_char(#[trigger] text[i], multiline) {
        Some(field + " contains a control or bidirectional-formatting character"@)
    } else {
        None
    }
}

/// A character a GitHub owner or repository name may hold.
pub open spec fn repo_char_ok(c: char) -> bool {
    is_alnum(c) || c == '-' || c == '_' || c == '.'
}

/// `s` is a non-empty run of GitHub name characters.
pub open spec fn repo_part_ok(s: Seq<char>) -> bool {
    s.len() > 0 && forall|i: int| 0 <= i < s.len() ==> repo_char_ok(#[trigger] s[i])
}

/// Why `repo` is not a GitHub `owner/repo` path, or `None`.
pub open spec fn repo_error(repo: Seq<char>) -> Option<Seq<char>> {
    let parts = split_on(repo, '/');
    if parts.len() == 2 && repo_part_ok(parts[0]) && repo_part_ok(parts[1]) {
        None
    } else {
        Some("github_repo '"@ + repo
            + "' must be 'owner/repo', each part made of ASCII letters, digits, '-', '_' and '.'"@)
    }
}

/// The result a check with `error` as its spec gives.
pub open spec fn check_result(r: Result<(), ExtensionError>, error: Option<Seq<char>>) -> bool {
    &&& r is Ok <==> error is None
    &&& r matches Err(e) ==> error == Some(e@)
}

fn error_with(prefix: &str, value: &str, suffix: &str) -> (e: ExtensionError)
    ensures
        e@ == prefix@ + value@ + suffix@,
{
    let mut m = String::new();
    push_str(&mut m, prefix);
    push_str(&mut m, value);
    push_str(&mut m, suffix);
    ExtensionError::from_string(m)
}

/// Checks that `name` can be a `DuckDB` extension name: a lower-case ASCII
/// letter followed by lower-case letters, digits and `_`. A hyphen is refused
/// with its own message, since it is the most common mistake.
pub fn validate_extension_name(name: &str) -> (r: Result<(), ExtensionError>)
    ensures
        check_result(r, name_error(name@)),
{
    let chars = str_chars(name);
    if chars.len() == 0 {
        return Err(ExtensionError::new("extension name must not be empty"));
    }
    let mut i: usize = 0;
    while i < chars.len()
        invariant
            i <= chars@.len(),
            chars@ == name@,
            forall|j: int| 0 <= j < i ==> chars@[j] != '-',
        decreases chars@.len() - i,
    {
        if chars[i] == '-' {
            assert(name@.contains('-')) by {
                assert(name@[i as int] == '-');
            }
            return Err(
                error_with(
                    "extension name '",
                    name,
                    "' contains '-': DuckDB derives the entry point symbol {name}_init_c_api from the name, where '-' is not allowed; use '_' instead",
                ),
            );
        }
        i = i + 1;
    }
    assert(!name@.contains('-'));
    if !('a' <= chars[0] && chars[0] <= 'z') {
        return Err(
            error_with("extension name '", name, "' must start with a lower-case ASCII letter"),
        );
    }
    let mut k: usize = 0;
    while k < chars.len()
        invariant
            k <= chars@.len(),
            chars@ == name@,
            name@.len() > 0,
            !name@.contains('-'),
            is_lower(name@[0]),
            forall|j: int| 0 <= j < k ==> name_char_ok(chars@[j]),
        decreases chars@.len() - k,
    {
        let c = chars[k];
        if !(('a' <= c && c <= 'z') || ('0' <= c && c <= '9') || c == '_') {
            assert(!name_char_ok(name@[k as int]));
            return Err(
                error_with(
                    "extension name '",
                    name,
                    "' may hold only lower-case ASCII letters, digits and '_'",
                ),
            );
        }
        k = k + 1;
    }
    Ok(())
}

/// Checks an extension version: a non-empty run of ASCII letters, digits,
/// `.`, `-`, `_` and `+`. Whitespace and path separators are refused.
pub fn validate_extension_version(version: &str) -> (r: Result<(), ExtensionError>)
    ensures
        check_result(r, version_error(version@)),
{
    let chars = str_chars(version);
    if chars.len() == 0 {
        return Err(ExtensionError::new("extension version must not be empty"));
    }
    let mut k: usize = 0;
    while k < chars.len()
        invariant
            k <= chars@.len(),
            chars@ == version@,
            forall|j: int| 0 <= j < k ==> version_char_ok(chars@[j]),
        decreases chars@.len() - k,
    {
        let c = chars[k];
        if !(('a' <= c && c <= 'z') || ('A' <= c && c <= 'Z') || ('0' <= c && c <= '9') || c == '.'
            || c == '-' || c == '_' || c == '+') {
            assert(!version_char_ok(version@[k as int]));
            return Err(
                error_with(
                    "extension version '",
                    version,
                    "' may hold only ASCII letters, digits, '.', '-', '_' and '+'",
                ),
            );
        }
        k = k + 1;
    }
    Ok(())
}

fn known_license_list() -> (v: Vec<&'static str>)
    ensures
        v@.len() == known_licenses().len(),
        forall|i: int| 0 <= i < v@.len() ==> #[trigger] v@[i]@ == known_licenses()[i],
{
    vec![
        "MIT", "MIT-0", "Apache-2.0", "BSD-2-Clause", "BSD-3-Clause", "ISC", "MPL-2.0",
        "LGPL-2.1-only", "LGPL-2.1-or-later", "LGPL-3.0-only", "LGPL-3.0-or-later",
        "GPL-2.0-only", "GPL-2.0-or-later", "GPL-3.0-only", "GPL-3.0-or-later", "AGPL-3.0-only",
        "AGPL-3.0-or-later", "Unlicense", "0BSD", "BSL-1.0", "Zlib", "CC0-1.0", "EPL-2.0",
        "PostgreSQL",
    ]
}

fn known_platform_list() -> (v: Vec<&'static str>)
    ensures
        v@.len() == known_platforms().len(),
        forall|i: int| 0 <= i < v@.len() ==> #[trigger] v@[i]@ == known_platforms()[i],
{
    vec![
        "linux_amd64", "linux_arm64", "linux_amd64_musl", "linux_arm64_musl", "osx_amd64",
        "osx_arm64", "windows_amd64", "windows_amd64_mingw", "windows_arm64", "wasm_mvp",
        "wasm_eh", "wasm_threads",
    ]
}

fn in_list(s: &str, list: &Vec<&'static str>, Ghost(spec_list): Ghost<Seq<Seq<char>>>) -> (r: bool)
    requires
        list@.len() == spec_list.len(),
        forall|i: int| 0 <= i < list@.len() ==> #[trigger] list@[i]@ == spec_list[i],
    ensures
        r == spec_list.contains(s@),
{
    let found = str_in_list(s, list.as_slice());
    proof {
        if found {
            let i = choose|i: int| 0 <= i < list@.len() && list@[i]@ == s@;
            assert(spec_list[i] == s@);
        } else {
            assert forall|i: int| 0 <= i < spec_list.len() implies spec_list[i] != s@ by {
                assert(list@[i]@ == spec_list[i]);
            }
        }
    }
    found
}

/// Checks that `license` is a recognised SPDX license identifier.
pub fn validate_spdx_license(license: &str) -> (r: Result<(), ExtensionError>)
    ensures
        check_result(r, license_error(license@)),
{
    let list = known_license_list();
    if in_list(license, &list, Ghost(known_licenses())) {
        Ok(())
    } else {
        Err(error_with("license '", license, "' is not a recognised SPDX license identifier"))
    }
}

/// Checks that every excluded platform is one the community extension CI
/// builds for.
pub fn validate_excluded_platforms(platforms: &[String]) -> (r: Result<(), ExtensionError>)
    ensures
        check_result(r, platforms_error(platforms@.map_values(|p: String| p@))),
{
    let list = known_platform_list();
    let ghost views = platforms@.map_values(|p: String| p@);
    let mut i: usize = 0;
    assert(views.skip(0) =~= views);
    while i < platforms.len()
        invariant
            i <= platforms@.len(),
            views == platforms@.map_values(|p: String| p@),
            list@.len() == known_platforms().len(),
            forall|k: int| 0 <= k < list@.len() ==> #[trigger] list@[k]@ == known_platforms()[k],
            platforms_error(views) == platforms_error(views.skip(i as int)),
        decreases platforms@.len() - i,
    {
        let p = platforms[i].as_str();
        assert(views.skip(i as int)[0] == p@);
        assert(views.skip(i as int).drop_first() =~= views.skip(i + 1));
        if !in_list(p, &list, Ghost(known_platforms())) {
            return Err(
                error_with(
                    "excluded platform '",
                    p,
                    "' is not a platform DuckDB's community extension CI builds for",
                ),
            );
        }
        i = i + 1;
    }
    assert(views.skip(i as int).len() == 0);
    Ok(())
}

/// Checks a free-text field (`field` names it in the error): it must not be
/// empty or padded with whitespace, and must hold no control or
/// bidirectional-formatting character (line feeds and the Unicode line and
/// paragraph separators are allowed only when `multiline`).
pub fn validate_free_text(field: &str, text: &str, multiline: bool) -> (r: Result<(), ExtensionError>)
    ensures
        check_result(r, text_error(field@, text@, multiline)),
{
    proof {
        reveal_strlit("");
    }
    let chars = str_chars(text);
    let trimmed = trim_chars(chars.as_slice());
    if trimmed.len() == 0 {
        assert(""@ + field@ =~= field@);
        return Err(error_with("", field, " must not be empty"));
    }
    if !chars_eq(trimmed.as_slice(), chars.as_slice()) {
        assert(""@ + field@ =~= field@);
        return Err(error_with("", field, " must not start or end with whitespace"));
    }
    let mut k: usize = 0;
    while k < chars.len()
        invariant
            k <= chars@.len(),
            chars@ == text@,
            trim(text@) == text@,
            trim(text@).len() != 0,
            forall|j: int| 0 <= j < k ==> !forbidden_text_char(chars@[j], multiline),
        decreases chars@.len() - k,
    {
        let v = chars[k] as u32;
        if (v < 0x20 && v != 0x09 && !(multiline && v == 0x0a)) || (0x7f <= v && v <= 0x9f) || v
            == 0x61c || v == 0x200e || v == 0x200f || (0x202a <= v && v <= 0x202e) || (0x2066 <= v
            && v <= 0x2069) || (!multiline && (v == 0x2028 || v == 0x2029)) {
            assert(forbidden_text_char(text@[k as int], multiline));
            proof {
                reveal_strlit("");
            }
            assert(""@ + field@ =~= field@);
            return Err(
                error_with("", field, " contains a control or bidirectional-formatting character"),
            );
        }
        k = k + 1;
    }
    Ok(())
}

/// Checks that `repo` is a GitHub `owner/repo` path: exactly one `/`, both
/// parts non-empty and made of ASCII letters, digits, `-`, `_` and `.`.
pub fn validate_github_repo(repo: &str) -> (r: Result<(), ExtensionError>)
    ensures
        check_result(r, repo_error(repo@)),
{
    let chars = str_chars(repo);
    let parts = split_chars(chars.as_slice(), '/');
    let ok = parts.len() == 2 && repo_part_is_ok(&parts[0]) && repo_part_is_ok(&parts[1]);
    if ok {
        Ok(())
    } else {
        Err(
            error_with(
                "github_repo '",
                repo,
                "' must be 'owner/repo', each part made of ASCII letters, digits, '-', '_' and '.'",
            ),
        )
    }
}

fn repo_part_is_ok(s: &Vec<char>) -> (r: bool)
    ensures
        r == repo_part_ok(s@),
{
    if s.len() == 0 {
        return false;
    }
    let mut k: usize = 0;
    while k < s.len()
        invariant
            k <= s@.len(),
            forall|j: int| 0 <= j < k ==> repo_char_ok(s@[j]),
        decreases s@.len() - k,
    {
        let c = s[k];
        if !(('a' <= c && c <= 'z') || ('A' <= c && c <= 'Z') || ('0' <= c && c <= '9') || c == '-'
            || c == '_' || c == '.') {
            assert(!repo_char_ok(s@[k as int]));
            return false;
        }
        k = k + 1;
    }
    true
}

} // verus!
