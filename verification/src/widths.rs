//! Column-width computation: the longest formatted filename and filesize
//! over all records, and the fixed floors that keep the header readable.

use crate::record::FileRecord;
use vstd::prelude::*;
use vstd::string::StrSliceExecFns;

verus! {

/// The widths, in characters, of the two table columns.
pub struct TableWidth {
    pub filename: usize,
    pub filesize: usize,
}

/// A column's content width: the raw width floored at 8, the common
/// length of the header labels `Filename` and `Filesize`.
pub open spec fn spec_content_width(raw: int) -> int {
    if raw < 8 {
        8
    } else {
        raw
    }
}

/// A column's border width: the raw width plus one padding space on each
/// side, floored at 10 so the border still spans the padded header label.
pub open spec fn spec_border_width(raw: int) -> int {
    if raw + 2 < 10 {
        10
    } else {
        raw + 2
    }
}

impl TableWidth {
    /// The content width for a raw column width: floored at 8, the length
    /// of both header labels.
    pub fn attribute_without_padding(attr: usize) -> (r: usize)
        ensures
            r == spec_content_width(attr as int),
    {
        if attr < 8 {
            8
        } else {
            attr
        }
    }
}

/// The border widths for the two columns, given their raw content widths.
pub fn inner_computed_table_width(filename_width: usize, filesize_width: usize) -> (r: TableWidth)
    requires
        filename_width + 2 <= usize::MAX,
        filesize_width + 2 <= usize::MAX,
    ensures
        r.filename == spec_border_width(filename_width as int),
        r.filesize == spec_border_width(filesize_width as int),
{
    let min_filename_width: usize = 10;
    let min_filesize_width: usize = 10;
    let actual_filename_width = if filename_width + 2 < min_filename_width {
        min_filename_width
    } else {
        filename_width + 2
    };
    let actual_filesize_width = if filesize_width + 2 < min_filesize_width {
        min_filesize_width
    } else {
        filesize_width + 2
    };
    TableWidth { filename: actual_filename_width, filesize: actual_filesize_width }
}

/// The length of the longest formatted filename over `s`, or 0 if `s` is
/// empty.
pub open spec fn spec_max_filename_len(s: Seq<FileRecord>) -> int
    decreases s.len(),
{
    if s.len() == 0 {
        0
    } else {
        let rest = spec_max_filename_len(s.drop_last());
        let last = s.last().spec_formatted_filepath().len() as int;
        if last > rest {
            last
        } else {
            rest
        }
    }
}

/// The length of the longest formatted filesize over `s`, or 0 if `s` is
/// empty.
pub open spec fn spec_max_filesize_len(s: Seq<FileRecord>) -> int
    decreases s.len(),
{
    if s.len() == 0 {
        0
    } else {
        let rest = spec_max_filesize_len(s.drop_last());
        let last = s.last().spec_formatted_filesize().len() as int;
        if last > rest {
            last
        } else {
            rest
        }
    }
}

/// The raw filename column width: the length of the longest formatted
/// filename, or 0 for an empty list.
pub fn string_table_width(fileinfo: &Vec<FileRecord>) -> (r: usize)
    ensures
        r == spec_max_filename_len(fileinfo@),
{
    let mut result: usize = 0;
    let mut i: usize = 0;
    while i < fileinfo.len()
        invariant
            i <= fileinfo@.len(),
            result == spec_max_filename_len(fileinfo@.subrange(0, i as int)),
        decreases fileinfo@.len() - i,
    {
        let formatted = fileinfo[i].formatted_filepath();
        let width = formatted.as_str().unicode_len();
        if width > result {
            result = width;
        }
        proof {
            assert(fileinfo@.subrange(0, i + 1 as int).drop_last() =~= fileinfo@.subrange(
                0,
                i as int,
            ));
            assert(fileinfo@.subrange(0, i + 1 as int).last() == fileinfo@[i as int]);
        }
        i = i + 1;
    }
    proof {
        assert(fileinfo@.subrange(0, fileinfo@.len() as int) =~= fileinfo@);
    }
    result
}

/// The raw filesize column width: the length of the longest formatted
/// filesize, or 0 for an empty list.
pub fn numeric_table_width(fileinfo: &Vec<FileRecord>) -> (r: usize)
    ensures
        r == spec_max_filesize_len(fileinfo@),
{
    let mut result: usize = 0;
    let mut i: usize = 0;
    while i < fileinfo.len()
        invariant
            i <= fileinfo@.len(),
            result == spec_max_filesize_len(fileinfo@.subrange(0, i as int)),
        decreases fileinfo@.len() - i,
    {
        let formatted = fileinfo[i].formatted_filesize();
        let width = formatted.as_str().unicode_len();
        if width > result {
            result = width;
        }
        proof {
            assert(fileinfo@.subrange(0, i + 1 as int).drop_last() =~= fileinfo@.subrange(
                0,
                i as int,
            ));
            assert(fileinfo@.subrange(0, i + 1 as int).last() == fileinfo@[i as int]);
        }
        i = i + 1;
    }
    proof {
        assert(fileinfo@.subrange(0, fileinfo@.len() as int) =~= fileinfo@);
    }
    result
}

} // verus!
