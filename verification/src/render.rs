//! Rendering of a record list as a bordered table.
//!
//! The table is, in order: a top border, a header row with the labels
//! `Filename` and `Filesize`, a separator border, one data row per record
//! (filename left-justified, filesize right-justified), and a bottom
//! border.  Borders are drawn with Unicode box-drawing characters.

use crate::record::FileRecord;
use crate::widths::TableWidth;
use crate::widths::inner_computed_table_width;
use crate::widths::numeric_table_width;
use crate::widths::spec_border_width;
use crate::widths::spec_content_width;
use crate::widths::spec_max_filename_len;
use crate::widths::spec_max_filesize_len;
use crate::widths::string_table_width;
use vstd::prelude::*;
use vstd::string::StrSliceExecFns;
use vstd::string::StringExecFns;

verus! {

/// `n` copies of the character `c` (none if `n` is negative).
pub open spec fn spec_repeat_char(c: char, n: int) -> Seq<char> {
    Seq::new(if n <= 0 { 0 } else { n as nat }, |i: int| c)
}

/// `s` left-justified in a field of `w` characters: padded on the right
/// with spaces, and left as it is when it already fills the field.
pub open spec fn spec_pad_right(s: Seq<char>, w: int) -> Seq<char> {
    if s.len() >= w {
        s
    } else {
        s + spec_repeat_char(' ', w - s.len())
    }
}

/// `s` right-justified in a field of `w` characters: padded on the left
/// with spaces, and left as it is when it already fills the field.
pub open spec fn spec_pad_left(s: Seq<char>, w: int) -> Seq<char> {
    if s.len() >= w {
        s
    } else {
        spec_repeat_char(' ', w - s.len()) + s
    }
}

/// One border line: corner or junction characters around two horizontal
/// runs of `─`, one per column, followed by a newline.
pub open spec fn spec_border_line(left: char, mid: char, right: char, wn: int, ws: int) -> Seq<
    char,
> {
    seq![left] + spec_repeat_char('─', wn) + seq![mid] + spec_repeat_char('─', ws) + seq![right]
        + seq!['\n']
}

/// The header label of the filename column.
pub open spec fn spec_filename_label() -> Seq<char> {
    seq!['F', 'i', 'l', 'e', 'n', 'a', 'm', 'e']
}

/// The header label of the filesize column.
pub open spec fn spec_filesize_label() -> Seq<char> {
    seq!['F', 'i', 'l', 'e', 's', 'i', 'z', 'e']
}

/// The header row: both labels left-justified to the raw column widths,
/// with one padding space on each side of each cell.
pub open spec fn spec_header_row(rawn: int, raws: int) -> Seq<char> {
    seq!['│', ' '] + spec_pad_right(spec_filename_label(), rawn) + seq![' ', '│', ' ']
        + spec_pad_right(spec_filesize_label(), raws) + seq![' ', '│', '\n']
}

/// One data row: the formatted filename left-justified and the formatted
/// filesize right-justified, each to its column's content width, with one
/// padding space on each side of each cell.
pub open spec fn spec_data_row(rec: FileRecord, cn: int, cs: int) -> Seq<char> {
    seq!['│', ' '] + spec_pad_right(rec.spec_formatted_filepath(), cn) + seq![' ', '│', ' ']
        + spec_pad_left(rec.spec_formatted_filesize(), cs) + seq![' ', '│', '\n']
}

/// The data rows for `recs`, in order, one per record.
pub open spec fn spec_data_rows(recs: Seq<FileRecord>, cn: int, cs: int) -> Seq<char>
    decreases recs.len(),
{
    if recs.len() == 0 {
        Seq::<char>::empty()
    } else {
        spec_data_rows(recs.drop_last(), cn, cs) + spec_data_row(recs.last(), cn, cs)
    }
}

/// The whole table for `recs`: top border, header row, separator border,
/// one data row per record, bottom border.  All widths are derived from
/// the records themselves.
pub open spec fn spec_table(recs: Seq<FileRecord>) -> Seq<char> {
    let rawn = spec_max_filename_len(recs);
    let raws = spec_max_filesize_len(recs);
    let bn = spec_border_width(rawn);
    let bs = spec_border_width(raws);
    let cn = spec_content_width(rawn);
    let cs = spec_content_width(raws);
    spec_border_line('┌', '┬', '┐', bn, bs) + spec_header_row(rawn, raws) + spec_border_line(
        '├',
        '┼',
        '┤',
        bn,
        bs,
    ) + spec_data_rows(recs, cn, cs) + spec_border_line('└', '┴', '┘', bn, bs)
}

/// Appends `n` copies of the one-character string `piece` to `out`.
fn push_repeat(out: &mut String, piece: &str, n: usize)
    requires
        piece@.len() == 1,
    ensures
        final(out)@ == old(out)@ + spec_repeat_char(piece@[0], n as int),
{
    proof {
        assert(out@ =~= old(out)@ + spec_repeat_char(piece@[0], 0));
    }
    let mut i: usize = 0;
    while i < n
        invariant
            piece@.len() == 1,
            i <= n,
            out@ == old(out)@ + spec_repeat_char(piece@[0], i as int),
        decreases n - i,
    {
        out.append(piece);
        proof {
            assert(out@ =~= old(out)@ + spec_repeat_char(piece@[0], i + 1));
        }
        i = i + 1;
    }
}

/// Appends `s` left-justified in a `w`-character field.
fn push_padded_right(out: &mut String, s: &str, w: usize)
    ensures
        final(out)@ == old(out)@ + spec_pad_right(s@, w as int),
{
    out.append(s);
    let len = s.unicode_len();
    if len < w {
        proof {
            reveal_strlit(" ");
        }
        push_repeat(out, " ", w - len);
    }
    proof {
        assert(out@ =~= old(out)@ + spec_pad_right(s@, w as int));
    }
}

/// Appends `s` right-justified in a `w`-character field.
fn push_padded_left(out: &mut String, s: &str, w: usize)
    ensures
        final(out)@ == old(out)@ + spec_pad_left(s@, w as int),
{
    let len = s.unicode_len();
    if len < w {
        proof {
            reveal_strlit(" ");
        }
        push_repeat(out, " ", w - len);
    }
    out.append(s);
    proof {
        assert(out@ =~= old(out)@ + spec_pad_left(s@, w as int));
    }
}

/// Appends one border line built from the given one-character corner and
/// junction strings and the two border widths.
fn push_border_line(out: &mut String, left: &str, mid: &str, right: &str, wn: usize, ws: usize)
    requires
        left@.len() == 1,
        mid@.len() == 1,
        right@.len() == 1,
    ensures
        final(out)@ == old(out)@ + spec_border_line(
            left@[0],
            mid@[0],
            right@[0],
            wn as int,
            ws as int,
        ),
{
    proof {
        reveal_strlit("─");
        reveal_strlit("\n");
    }
    out.append(left);
    push_repeat(out, "─", wn);
    out.append(mid);
    push_repeat(out, "─", ws);
    out.append(right);
    out.append("\n");
    proof {
        assert(out@ =~= old(out)@ + spec_border_line(
            left@[0],
            mid@[0],
            right@[0],
            wn as int,
            ws as int,
        ));
    }
}

/// Appends the header row, with the labels padded to the raw widths.
fn push_header_row(out: &mut String, rawn: usize, raws: usize)
    ensures
        final(out)@ == old(out)@ + spec_header_row(rawn as int, raws as int),
{
    proof {
        reveal_strlit("│ ");
        reveal_strlit(" │ ");
        reveal_strlit(" │\n");
        reveal_strlit("Filename");
        reveal_strlit("Filesize");
        assert("Filename"@ =~= spec_filename_label());
        assert("Filesize"@ =~= spec_filesize_label());
    }
    out.append("│ ");
    push_padded_right(out, "Filename", rawn);
    out.append(" │ ");
    push_padded_right(out, "Filesize", raws);
    out.append(" │\n");
    proof {
        assert(out@ =~= old(out)@ + spec_header_row(rawn as int, raws as int));
    }
}

/// Appends one data row for `rec`, with cells padded to the two content
/// widths.
fn push_data_row(out: &mut String, rec: &FileRecord, cn: usize, cs: usize)
    ensures
        final(out)@ == old(out)@ + spec_data_row(*rec, cn as int, cs as int),
{
    proof {
        reveal_strlit("│ ");
        reveal_strlit(" │ ");
        reveal_strlit(" │\n");
    }
    out.append("│ ");
    let name = rec.formatted_filepath();
    push_padded_right(out, name.as_str(), cn);
    out.append(" │ ");
    let size = rec.formatted_filesize();
    push_padded_left(out, size.as_str(), cs);
    out.append(" │\n");
    proof {
        assert(out@ =~= old(out)@ + spec_data_row(*rec, cn as int, cs as int));
    }
}

/// Renders the whole table for `fileinfo`.
///
/// The preconditions only rule out column widths that could not be
/// addressed in memory anyway: each raw width must leave room for the two
/// padding spaces of the border width.
pub fn render_table(fileinfo: &Vec<FileRecord>) -> (r: String)
    requires
        spec_max_filename_len(fileinfo@) + 2 <= usize::MAX,
        spec_max_filesize_len(fileinfo@) + 2 <= usize::MAX,
    ensures
        r@ == spec_table(fileinfo@),
{
    let rawn = string_table_width(fileinfo);
    let raws = numeric_table_width(fileinfo);
    let widths = inner_computed_table_width(rawn, raws);
    let cn = TableWidth::attribute_without_padding(rawn);
    let cs = TableWidth::attribute_without_padding(raws);
    let mut out = String::new();
    proof {
        reveal_strlit("┌");
        reveal_strlit("┬");
        reveal_strlit("┐");
        reveal_strlit("├");
        reveal_strlit("┼");
        reveal_strlit("┤");
        reveal_strlit("└");
        reveal_strlit("┴");
        reveal_strlit("┘");
    }
    push_border_line(&mut out, "┌", "┬", "┐", widths.filename, widths.filesize);
    push_header_row(&mut out, rawn, raws);
    push_border_line(&mut out, "├", "┼", "┤", widths.filename, widths.filesize);
    let ghost prefix = out@;
    proof {
        assert(out@ =~= prefix + spec_data_rows(fileinfo@.subrange(0, 0), cn as int, cs as int));
    }
    let mut i: usize = 0;
    while i < fileinfo.len()
        invariant
            i <= fileinfo@.len(),
            out@ == prefix + spec_data_rows(fileinfo@.subrange(0, i as int), cn as int, cs as int),
        decreases fileinfo@.len() - i,
    {
        push_data_row(&mut out, &fileinfo[i], cn, cs);
        proof {
            assert(fileinfo@.subrange(0, i + 1 as int).drop_last() =~= fileinfo@.subrange(
                0,
                i as int,
            ));
            assert(fileinfo@.subrange(0, i + 1 as int).last() == fileinfo@[i as int]);
            assert(out@ =~= prefix + spec_data_rows(
                fileinfo@.subrange(0, i + 1 as int),
                cn as int,
                cs as int,
            ));
        }
        i = i + 1;
    }
    push_border_line(&mut out, "└", "┴", "┘", widths.filename, widths.filesize);
    proof {
        assert(fileinfo@.subrange(0, fileinfo@.len() as int) =~= fileinfo@);
        assert(out@ =~= spec_table(fileinfo@));
    }
    out
}

} // verus!
