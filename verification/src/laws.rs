//! Properties of the table rendering, stated and proved once for all
//! record lists.

use crate::record::FileRecord;
use crate::render::spec_data_row;
use crate::render::spec_data_rows;
use crate::render::spec_pad_left;
use crate::render::spec_pad_right;
use crate::render::spec_table;
use crate::widths::spec_border_width;
use crate::widths::spec_content_width;
use crate::widths::spec_max_filename_len;
use crate::widths::spec_max_filesize_len;
use vstd::prelude::*;

verus! {

/// No formatted filename in `recs` is longer than the filename column's
/// raw width.
pub proof fn lemma_filename_len_le_max(recs: Seq<FileRecord>, i: int)
    requires
        0 <= i < recs.len(),
    ensures
        recs[i].spec_formatted_filepath().len() <= spec_max_filename_len(recs),
    decreases recs.len(),
{
    if i < recs.len() - 1 {
        lemma_filename_len_le_max(recs.drop_last(), i);
        assert(recs.drop_last()[i] == recs[i]);
    }
}

/// No formatted filesize in `recs` is longer than the filesize column's
/// raw width.
pub proof fn lemma_filesize_len_le_max(recs: Seq<FileRecord>, i: int)
    requires
        0 <= i < recs.len(),
    ensures
        recs[i].spec_formatted_filesize().len() <= spec_max_filesize_len(recs),
    decreases recs.len(),
{
    if i < recs.len() - 1 {
        lemma_filesize_len_le_max(recs.drop_last(), i);
        assert(recs.drop_last()[i] == recs[i]);
    }
}

/// Law: for a non-empty record list, every data row's filename cell is
/// exactly the filename content width — the longest formatted filename,
/// floored at 8 — and every filesize cell is exactly the filesize content
/// width; and each column's border width is its content width plus the
/// two padding spaces, which also puts it at no less than 10.
pub proof fn lemma_row_cell_widths(recs: Seq<FileRecord>, i: int)
    requires
        recs.len() > 0,
        0 <= i < recs.len(),
    ensures
        spec_pad_right(
            recs[i].spec_formatted_filepath(),
            spec_content_width(spec_max_filename_len(recs)),
        ).len() == spec_content_width(spec_max_filename_len(recs)),
        spec_pad_left(
            recs[i].spec_formatted_filesize(),
            spec_content_width(spec_max_filesize_len(recs)),
        ).len() == spec_content_width(spec_max_filesize_len(recs)),
        spec_border_width(spec_max_filename_len(recs)) == spec_content_width(
            spec_max_filename_len(recs),
        ) + 2,
        spec_border_width(spec_max_filesize_len(recs)) == spec_content_width(
            spec_max_filesize_len(recs),
        ) + 2,
        spec_border_width(spec_max_filename_len(recs)) >= 10,
        spec_border_width(spec_max_filesize_len(recs)) >= 10,
{
    lemma_filename_len_le_max(recs, i);
    lemma_filesize_len_le_max(recs, i);
}

/// Law: when every cell fits its column — as it does for the widths the
/// renderer derives — each data row has the same length, so the block of
/// data rows is exactly one fixed-width row per record.
pub proof fn lemma_data_rows_len(recs: Seq<FileRecord>, cn: int, cs: int)
    requires
        cn >= 0,
        cs >= 0,
        forall|i: int|
            0 <= i < recs.len() ==> recs[i].spec_formatted_filepath().len() <= cn
                && recs[i].spec_formatted_filesize().len() <= cs,
    ensures
        spec_data_rows(recs, cn, cs).len() == recs.len() * (cn + cs + 8),
    decreases recs.len(),
{
    if recs.len() == 0 {
    } else {
        let rest = recs.drop_last();
        assert(forall|i: int|
            0 <= i < rest.len() ==> rest[i].spec_formatted_filepath().len() <= cn
                && rest[i].spec_formatted_filesize().len() <= cs) by {
            assert(forall|i: int| 0 <= i < rest.len() ==> rest[i] == recs[i]);
        }
        lemma_data_rows_len(rest, cn, cs);
        assert(spec_data_row(recs.last(), cn, cs).len() == cn + cs + 8);
        assert((recs.len() - 1) * (cn + cs + 8) + (cn + cs + 8) == recs.len() * (cn + cs + 8))
            by (nonlinear_arith);
    }
}

/// Law: an empty record list renders with the default widths — content
/// width 8 and border width 10 in both columns — and with no data rows at
/// all.
pub proof fn lemma_empty_table(recs: Seq<FileRecord>)
    requires
        recs.len() == 0,
    ensures
        spec_max_filename_len(recs) == 0,
        spec_max_filesize_len(recs) == 0,
        spec_content_width(spec_max_filename_len(recs)) == 8,
        spec_content_width(spec_max_filesize_len(recs)) == 8,
        spec_border_width(spec_max_filename_len(recs)) == 10,
        spec_border_width(spec_max_filesize_len(recs)) == 10,
        spec_data_rows(recs, 8, 8) == Seq::<char>::empty(),
{
}

/// Law: a directory's formatted filename is its path with exactly one
/// trailing `/` appended, and a file's is its path unchanged, with no
/// trailing `/`.  Stated for paths that do not themselves end in `/`.
pub proof fn lemma_trailing_slash(rec: FileRecord)
    requires
        rec.path@.len() == 0 || rec.path@.last() != '/',
    ensures
        rec.is_directory ==> rec.spec_formatted_filepath() == rec.path@ + seq!['/'],
        rec.is_directory ==> rec.spec_formatted_filepath().last() == '/',
        rec.is_directory ==> rec.spec_formatted_filepath().drop_last() == rec.path@,
        rec.is_directory && rec.path@.len() > 0 ==> rec.spec_formatted_filepath()[rec.spec_formatted_filepath().len() - 2] != '/',
        !rec.is_directory ==> rec.spec_formatted_filepath() == rec.path@,
        !rec.is_directory && rec.path@.len() > 0 ==> rec.spec_formatted_filepath().last() != '/',
{
    if rec.is_directory {
        assert(rec.spec_formatted_filepath().drop_last() =~= rec.path@);
    }
}

/// Law: rendering is a pure function of the record list — two runs over
/// equal records produce equal output, so running twice against an
/// unchanged directory yields byte-identical tables.
pub proof fn lemma_render_deterministic(a: Seq<FileRecord>, b: Seq<FileRecord>)
    requires
        a == b,
    ensures
        spec_table(a) == spec_table(b),
{
}

} // verus!
