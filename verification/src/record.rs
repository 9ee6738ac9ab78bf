//! The in-memory record for one directory entry, and how its two table
//! cells are formatted.

use crate::grouping::separated_string;
use crate::grouping::spec_separated;
use vstd::prelude::*;
use vstd::string::StringExecFns;

verus! {

/// One directory entry: its path, its size in bytes, and whether it is a
/// directory.  Records are built by the caller from filesystem metadata
/// and never mutated afterwards.
pub struct FileRecord {
    pub path: String,
    pub size_in_bytes: u64,
    pub is_directory: bool,
}

/// `path` with a trailing `/` appended exactly when `is_directory` holds.
pub open spec fn spec_formatted_path(path: Seq<char>, is_directory: bool) -> Seq<char> {
    if is_directory {
        path + seq!['/']
    } else {
        path
    }
}

impl FileRecord {
    /// The filename as it appears in the table: the path, with a trailing
    /// `/` when the entry is a directory.
    pub open spec fn spec_formatted_filepath(&self) -> Seq<char> {
        spec_formatted_path(self.path@, self.is_directory)
    }

    /// The filesize as it appears in the table: decimal with thousands
    /// separators.
    pub open spec fn spec_formatted_filesize(&self) -> Seq<char> {
        spec_separated(self.size_in_bytes as nat)
    }

    pub fn formatted_filepath(&self) -> (r: String)
        ensures
            r@ == self.spec_formatted_filepath(),
    {
        let mut basename = self.path.clone();
        if self.is_directory {
            basename.append("/");
            proof {
                reveal_strlit("/");
                assert(basename@ =~= self.spec_formatted_filepath());
            }
        }
        basename
    }

    pub fn filesize(&self) -> (r: u64)
        ensures
            r == self.size_in_bytes,
    {
        self.size_in_bytes
    }

    pub fn formatted_filesize(&self) -> (r: String)
        ensures
            r@ == self.spec_formatted_filesize(),
    {
        separated_string(self.size_in_bytes)
    }
}

} // verus!
