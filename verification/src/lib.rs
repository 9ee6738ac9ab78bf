//! A small verified library for rendering a directory listing as a
//! bordered table with two columns: filename and filesize.
//!
//! The library is pure: it takes a list of file records (path, size,
//! directory flag) and produces the table as a `String`.  Enumerating a
//! directory and fetching metadata are left to the caller.

pub mod grouping;
pub mod laws;
pub mod record;
pub mod render;
pub mod widths;

pub use grouping::separated_string;
pub use render::render_table;
pub use record::FileRecord;
pub use widths::TableWidth;
pub use widths::inner_computed_table_width;
pub use widths::numeric_table_width;
pub use widths::string_table_width;
