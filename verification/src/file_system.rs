//! File-open flags for `DuckDB`'s virtual file system.

use vstd::prelude::*;

verus! {

/// A file-open mode flag, mirroring `duckdb_file_flag`.
#[derive(Debug, Clone, Copy, PartialEq, Eq, Structural, Hash)]
#[non_exhaustive]
pub enum FileFlag {
    /// Open for reading.
    Read,
    /// Open for writing.
    Write,
    /// Create the file if it does not exist.
    Create,
    /// Create the file, failing if it already exists.
    CreateNew,
    /// Open in append mode.
    Append,
}

/// The `duckdb_file_flag` constant of each flag.
pub open spec fn flag_code(flag: FileFlag) -> u32 {
    match flag {
        FileFlag::Read => 1,
        FileFlag::Write => 2,
        FileFlag::Create => 3,
        FileFlag::CreateNew => 4,
        FileFlag::Append => 5,
    }
}

impl FileFlag {
    /// Converts to the `DuckDB` C API constant.
    pub fn to_raw(self) -> (r: u32)
        ensures
            r == flag_code(self),
    {
        match self {
            FileFlag::Read => 1,
            FileFlag::Write => 2,
            FileFlag::Create => 3,
            FileFlag::CreateNew => 4,
            FileFlag::Append => 5,
        }
    }
}

/// Distinct flags have distinct C API constants.
pub proof fn lemma_flag_codes_distinct(a: FileFlag, b: FileFlag)
    ensures
        flag_code(a) == flag_code(b) <==> a == b,
{
}

/// Each flag carries its `DUCKDB_FILE_FLAG_*` constant of the C API: read
/// 1, write 2, create 3, create-new 4, append 5.
pub proof fn lemma_flag_codes_are_the_c_api_constants()
    ensures
        flag_code(FileFlag::Read) == 1,
        flag_code(FileFlag::Write) == 2,
        flag_code(FileFlag::Create) == 3,
        flag_code(FileFlag::CreateNew) == 4,
        flag_code(FileFlag::Append) == 5,
{
}

} // verus!
