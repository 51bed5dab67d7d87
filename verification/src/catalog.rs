//! Catalog entry types and the lookups that must be refused before they
//! reach `DuckDB`.
//!
//! `duckdb_catalog_get_entry` has no `try`/`catch`. A lookup of a kind of
//! entry that is not schema-level throws inside the C API, and a missed
//! `TYPE` or `COLLATION` lookup makes `DuckDB` try to autoload the extension
//! that owns the name (`json` and `inet` for types, `icu` for 130 collation
//! names), which throws on failure. Either exception would abort the process,
//! so such lookups are refused with an error instead.

use vstd::prelude::*;

use crate::error::ExtensionError;
use crate::text::{push_str, str_in_list};

verus! {

/// `str::to_lowercase`: the Unicode lower-case mapping of a string.
pub uninterp spec fn spec_to_lowercase(s: Seq<char>) -> Seq<char>;

/// Lower-cases `s` with `str::to_lowercase`.
#[verifier::external_body]
fn to_lowercase(s: &str) -> (r: String)
    ensures
        r@ == spec_to_lowercase(s@),
{
    s.to_lowercase()
}

/// Type names a miss on which makes `DuckDB` autoload an extension
/// (`EXTENSION_TYPES` in `extension_entries.hpp`).
pub open spec fn autoloading_type_names() -> Seq<Seq<char>> {
    seq!["json"@, "inet"@]
}

/// Collation names a miss on which makes `DuckDB` autoload `icu`
/// (`EXTENSION_COLLATIONS` in `extension_entries.hpp`).
pub open spec fn autoloading_collation_names() -> Seq<Seq<char>> {
    seq![
        "af"@, "am"@, "ar"@, "ar_sa"@, "as"@, "az"@, "be"@, "bg"@, "bn"@, "bo"@, "br"@, "bs"@, "ca"@, "ceb"@, "chr"@, "cs"@, "cy"@, "da"@, "de"@, "de_at"@, "dsb"@, "dz"@, "ee"@, "el"@, "en"@, "en_us"@, "eo"@, "es"@, "et"@, "fa"@, "fa_af"@, "ff"@, "fi"@, "fil"@, "fo"@, "fr"@, "fr_ca"@, "fy"@, "ga"@, "gl"@, "gu"@, "ha"@, "haw"@, "he"@, "he_il"@, "hi"@, "hr"@, "hsb"@, "hu"@, "hy"@, "id"@, "id_id"@, "ig"@, "is"@, "it"@, "ja"@, "ka"@, "kk"@, "kl"@, "km"@, "kn"@, "ko"@, "kok"@, "ku"@, "ky"@, "lb"@, "lkt"@, "ln"@, "lo"@, "lt"@, "lv"@, "mk"@, "ml"@, "mn"@, "mr"@, "ms"@, "mt"@, "my"@, "nb"@, "nb_no"@, "ne"@, "nl"@, "nn"@, "om"@, "or"@, "pa"@, "pa_in"@, "pl"@, "ps"@, "pt"@, "ro"@, "ru"@, "sa"@, "se"@, "si"@, "sk"@, "sl"@, "smn"@, "sq"@, "sr"@, "sr_ba"@, "sr_me"@, "sr_rs"@, "sv"@, "sw"@, "ta"@, "te"@, "th"@, "tk"@, "to"@, "tr"@, "ug"@, "uk"@, "ur"@, "uz"@, "vi"@, "wae"@, "wo"@, "xh"@, "yi"@, "yo"@, "yue"@, "yue_cn"@, "zh"@, "zh_cn"@, "zh_hk"@, "zh_mo"@, "zh_sg"@, "zh_tw"@, "zu"@,
    ]
}

/// The type names a miss on which makes `DuckDB` autoload an extension.
pub fn autoloading_type_name_list() -> (v: Vec<&'static str>)
    ensures
        v@.len() == autoloading_type_names().len(),
        forall|i: int| 0 <= i < v@.len() ==> #[trigger] v@[i]@ == autoloading_type_names()[i],
{
    let v: Vec<&'static str> = vec!["json", "inet"];
    assert(v@.len() == 2);
    v
}

/// The collation names a miss on which makes `DuckDB` autoload `icu`.
pub fn autoloading_collation_name_list() -> (v: Vec<&'static str>)
    ensures
        v@.len() == autoloading_collation_names().len(),
        forall|i: int| 0 <= i < v@.len() ==> #[trigger] v@[i]@ == autoloading_collation_names()[i],
{
    let v: Vec<&'static str> = vec![
        "af", "am", "ar", "ar_sa", "as", "az", "be", "bg", "bn", "bo", "br", "bs", "ca", "ceb", "chr", "cs", "cy", "da", "de", "de_at", "dsb", "dz", "ee", "el", "en", "en_us", "eo", "es", "et", "fa", "fa_af", "ff", "fi", "fil", "fo", "fr", "fr_ca", "fy", "ga", "gl", "gu", "ha", "haw", "he", "he_il", "hi", "hr", "hsb", "hu", "hy", "id", "id_id", "ig", "is", "it", "ja", "ka", "kk", "kl", "km", "kn", "ko", "kok", "ku", "ky", "lb", "lkt", "ln", "lo", "lt", "lv", "mk", "ml", "mn", "mr", "ms", "mt", "my", "nb", "nb_no", "ne", "nl", "nn", "om", "or", "pa", "pa_in", "pl", "ps", "pt", "ro", "ru", "sa", "se", "si", "sk", "sl", "smn", "sq", "sr", "sr_ba", "sr_me", "sr_rs", "sv", "sw", "ta", "te", "th", "tk", "to", "tr", "ug", "uk", "ur", "uz", "vi", "wae", "wo", "xh", "yi", "yo", "yue", "yue_cn", "zh", "zh_cn", "zh_hk", "zh_mo", "zh_sg", "zh_tw", "zu",
    ];
    v
}

/// Types of entries in the `DuckDB` catalog.
#[derive(Debug, Clone, Copy, PartialEq, Eq, Structural, Hash)]
#[non_exhaustive]
pub enum CatalogEntryType {
    /// Invalid catalog entry.
    Invalid,
    /// A table.
    Table,
    /// A view.
    View,
    /// An index.
    Index,
    /// A schema.
    Schema,
    /// A prepared statement.
    PreparedStatement,
    /// A sequence.
    Sequence,
    /// A collation.
    Collation,
    /// A user-defined type.
    Type,
    /// A database.
    Database,
}

/// The `duckdb_catalog_entry_type` code of each entry type.
pub open spec fn catalog_code(t: CatalogEntryType) -> u32 {
    match t {
        CatalogEntryType::Invalid => 0,
        CatalogEntryType::Table => 1,
        CatalogEntryType::View => 3,
        CatalogEntryType::Index => 4,
        CatalogEntryType::Schema => 2,
        CatalogEntryType::PreparedStatement => 5,
        CatalogEntryType::Sequence => 6,
        CatalogEntryType::Collation => 7,
        CatalogEntryType::Type => 8,
        CatalogEntryType::Database => 9,
    }
}

/// Each entry type carries its `DUCKDB_CATALOG_ENTRY_TYPE_*` constant of
/// the C API: invalid 0, table 1, schema 2, view 3, index 4, prepared
/// statement 5, sequence 6, collation 7, type 8, database 9. A lookup thus
/// asks `DuckDB` for the kind of entry meant.
pub proof fn lemma_catalog_codes_are_the_c_api_constants()
    ensures
        catalog_code(CatalogEntryType::Invalid) == 0,
        catalog_code(CatalogEntryType::Table) == 1,
        catalog_code(CatalogEntryType::Schema) == 2,
        catalog_code(CatalogEntryType::View) == 3,
        catalog_code(CatalogEntryType::Index) == 4,
        catalog_code(CatalogEntryType::PreparedStatement) == 5,
        catalog_code(CatalogEntryType::Sequence) == 6,
        catalog_code(CatalogEntryType::Collation) == 7,
        catalog_code(CatalogEntryType::Type) == 8,
        catalog_code(CatalogEntryType::Database) == 9,
{
}

/// The name `Debug` prints for each entry type.
pub open spec fn catalog_type_name(t: CatalogEntryType) -> Seq<char> {
    match t {
        CatalogEntryType::Invalid => "Invalid"@,
        CatalogEntryType::Table => "Table"@,
        CatalogEntryType::View => "View"@,
        CatalogEntryType::Index => "Index"@,
        CatalogEntryType::Schema => "Schema"@,
        CatalogEntryType::PreparedStatement => "PreparedStatement"@,
        CatalogEntryType::Sequence => "Sequence"@,
        CatalogEntryType::Collation => "Collation"@,
        CatalogEntryType::Type => "Type"@,
        CatalogEntryType::Database => "Database"@,
    }
}

/// Whether a lookup of `name` as an entry of type `t` can make `DuckDB`
/// autoload an extension: `t` is `Type` or `Collation` and the lower-cased
/// name is on the matching list.
pub open spec fn spec_may_autoload(t: CatalogEntryType, name: Seq<char>) -> bool {
    spec_autoloading_name(t, spec_to_lowercase(name))
}

/// Whether the already lower-cased `lower` is on the autoloading list of
/// entry type `t`: the type names for `Type`, the collation names for
/// `Collation`, no list for the others.
pub open spec fn spec_autoloading_name(t: CatalogEntryType, lower: Seq<char>) -> bool {
    match t {
        CatalogEntryType::Type => autoloading_type_names().contains(lower),
        CatalogEntryType::Collation => autoloading_collation_names().contains(lower),
        _ => false,
    }
}

/// A name and its lower-cased form get the same answer, for every name
/// whose lower-cased form lower-casing leaves as it is.
pub proof fn lemma_autoload_ignores_case(t: CatalogEntryType, name: Seq<char>)
    requires
        spec_to_lowercase(spec_to_lowercase(name)) == spec_to_lowercase(name),
    ensures
        spec_may_autoload(t, name) == spec_may_autoload(t, spec_to_lowercase(name)),
{
}

/// Whether `duckdb_catalog_get_entry` can look up this kind of entry: only
/// the schema-level ones.
pub open spec fn spec_lookup_supported(t: CatalogEntryType) -> bool {
    t == CatalogEntryType::Table || t == CatalogEntryType::View || t == CatalogEntryType::Index
        || t == CatalogEntryType::Sequence || t == CatalogEntryType::Collation || t
        == CatalogEntryType::Type
}

impl CatalogEntryType {
    /// Converts to the `DuckDB` C API constant.
    pub fn to_raw(self) -> (r: u32)
        ensures
            r == catalog_code(self),
    {
        match self {
            CatalogEntryType::Invalid => 0,
            CatalogEntryType::Table => 1,
            CatalogEntryType::View => 3,
            CatalogEntryType::Index => 4,
            CatalogEntryType::Schema => 2,
            CatalogEntryType::PreparedStatement => 5,
            CatalogEntryType::Sequence => 6,
            CatalogEntryType::Collation => 7,
            CatalogEntryType::Type => 8,
            CatalogEntryType::Database => 9,
        }
    }

    /// Converts from the `DuckDB` C API constant; unknown values map to
    /// [`Invalid`][CatalogEntryType::Invalid].
    pub fn from_raw(raw: u32) -> (r: Self)
        ensures
            raw <= 9 ==> catalog_code(r) == raw,
            raw > 9 ==> r == CatalogEntryType::Invalid,
    {
        match raw {
            1 => CatalogEntryType::Table,
            2 => CatalogEntryType::Schema,
            3 => CatalogEntryType::View,
            4 => CatalogEntryType::Index,
            5 => CatalogEntryType::PreparedStatement,
            6 => CatalogEntryType::Sequence,
            7 => CatalogEntryType::Collation,
            8 => CatalogEntryType::Type,
            9 => CatalogEntryType::Database,
            _ => CatalogEntryType::Invalid,
        }
    }

    /// The variant's name, as `Debug` prints it.
    pub fn name(self) -> (s: &'static str)
        ensures
            s@ == catalog_type_name(self),
    {
        match self {
            CatalogEntryType::Invalid => "Invalid",
            CatalogEntryType::Table => "Table",
            CatalogEntryType::View => "View",
            CatalogEntryType::Index => "Index",
            CatalogEntryType::Schema => "Schema",
            CatalogEntryType::PreparedStatement => "PreparedStatement",
            CatalogEntryType::Sequence => "Sequence",
            CatalogEntryType::Collation => "Collation",
            CatalogEntryType::Type => "Type",
            CatalogEntryType::Database => "Database",
        }
    }

    /// Whether a lookup of `name` as this kind of entry can make `DuckDB`
    /// autoload an extension. `DuckDB` lower-cases the name before matching
    /// it against its lists, so this does too.
    pub fn may_autoload_extension(self, name: &str) -> (r: bool)
        ensures
            r == spec_may_autoload(self, name@),
    {
        match self {
            CatalogEntryType::Type | CatalogEntryType::Collation => {},
            _ => {
                return false;
            },
        }
        let lower = to_lowercase(name);
        self.is_autoloading_name(lower.as_str())
    }

    /// Whether the lower-cased name `lower` is on this entry type's
    /// autoloading list: the type names for `Type`, the 130 collation names
    /// for `Collation`, none for the others.
    pub fn is_autoloading_name(self, lower: &str) -> (r: bool)
        ensures
            r == spec_autoloading_name(self, lower@),
    {
        let list = match self {
            CatalogEntryType::Type => autoloading_type_name_list(),
            CatalogEntryType::Collation => autoloading_collation_name_list(),
            _ => {
                return false;
            },
        };
        let found = str_in_list(lower, list.as_slice());
        proof {
            let names = if self == CatalogEntryType::Type {
                autoloading_type_names()
            } else {
                autoloading_collation_names()
            };
            if found {
                let i = choose|i: int| 0 <= i < list@.len() && list@[i]@ == lower@;
                assert(names[i] == lower@);
            } else {
                assert forall|i: int| 0 <= i < names.len() implies names[i] != lower@ by {
                    assert(list@[i]@ == names[i]);
                }
            }
        }
        found
    }

    /// Whether `duckdb_catalog_get_entry` can look this kind of entry up:
    /// tables, views, indexes, sequences, collations and types. For the
    /// others `DuckDB` throws from inside the C API, which aborts the process.
    pub fn is_lookup_supported(self) -> (r: bool)
        ensures
            r == spec_lookup_supported(self),
    {
        match self {
            CatalogEntryType::Table | CatalogEntryType::View | CatalogEntryType::Index
            | CatalogEntryType::Sequence | CatalogEntryType::Collation | CatalogEntryType::Type => true,
            _ => false,
        }
    }
}

/// The message a lookup of an unsupported kind of entry is refused with.
pub open spec fn unsupported_lookup_message(t: CatalogEntryType) -> Seq<char> {
    "catalog lookup of a "@ + catalog_type_name(t) + " entry is not supported: DuckDB throws \"Unsupported catalog type in schema\" through the C API, which would abort the process"@
}

/// The message a lookup that could autoload an extension is refused with.
pub open spec fn autoload_lookup_message(t: CatalogEntryType, name: Seq<char>) -> Seq<char> {
    "catalog lookup of "@ + catalog_type_name(t) + " '"@ + name + "' refused: on a miss DuckDB autoloads the extension that owns this name, and a failed autoload throws through the C API and aborts the process. Run `SET autoload_known_extensions = false` first to look it up safely."@
}

/// Decides, before any `DuckDB` call, whether a catalog lookup of `name` as
/// an entry of type `entry_type` must be refused: `Err` for a kind of entry
/// `duckdb_catalog_get_entry` cannot look up, and for a name whose miss would
/// autoload an extension while `autoload_enabled` (the
/// `autoload_known_extensions` setting) is on. `Ok(())` means the lookup may
/// go ahead.
pub fn check_lookup(entry_type: CatalogEntryType, name: &str, autoload_enabled: bool) -> (r: Result<(), ExtensionError>)
    ensures
        !spec_lookup_supported(entry_type) ==> (r matches Err(e) && e@ == unsupported_lookup_message(entry_type)),
        spec_lookup_supported(entry_type) && spec_may_autoload(entry_type, name@) && autoload_enabled
            ==> (r matches Err(e) && e@ == autoload_lookup_message(entry_type, name@)),
        r is Ok <==> spec_lookup_supported(entry_type) && !(spec_may_autoload(entry_type, name@) && autoload_enabled),
{
    if !entry_type.is_lookup_supported() {
        let mut m = String::new();
        push_str(&mut m, "catalog lookup of a ");
        push_str(&mut m, entry_type.name());
        push_str(&mut m, " entry is not supported: DuckDB throws \"Unsupported catalog type in schema\" through the C API, which would abort the process");
        return Err(ExtensionError::from_string(m));
    }
    if autoload_enabled && entry_type.may_autoload_extension(name) {
        let mut m = String::new();
        push_str(&mut m, "catalog lookup of ");
        push_str(&mut m, entry_type.name());
        push_str(&mut m, " '");
        push_str(&mut m, name);
        push_str(&mut m, "' refused: on a miss DuckDB autoloads the extension that owns this name, and a failed autoload throws through the C API and aborts the process. Run `SET autoload_known_extensions = false` first to look it up safely.");
        return Err(ExtensionError::from_string(m));
    }
    Ok(())
}

/// Converting an entry type to its code and back gives the type again, and
/// no two entry types share a code.
pub proof fn lemma_catalog_round_trip(t: CatalogEntryType)
    ensures
        catalog_code(t) <= 9,
        forall|u: CatalogEntryType| catalog_code(u) == catalog_code(t) ==> u == t,
{
}

} // verus!
