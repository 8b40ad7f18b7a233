//! Trusted interface to the `comfy-table` crate, which draws the table.
//!
//! The table and cell types are opaque to the verifier; what they hold is
//! tracked through the uninterpreted contents functions below, and every
//! method the library calls is wrapped with a contract over those functions,
//! stated from what `comfy-table`'s source shows.

use std::io::Write;
use vstd::prelude::*;

verus! {

#[verifier::external_type_specification]
#[verifier::external_body]
pub struct ExTable(comfy_table::Table);

#[verifier::external_type_specification]
#[verifier::external_body]
pub struct ExCell(comfy_table::Cell);

/// The text a cell holds: the string it was created from.
pub uninterp spec fn cell_text(c: comfy_table::Cell) -> Seq<char>;

/// The texts of a table's header cells, in order; empty while no header is set.
pub uninterp spec fn table_header(t: comfy_table::Table) -> Seq<Seq<char>>;

/// The texts of the cells of a table's data rows, row by row, in insertion order.
pub uninterp spec fn table_rows(t: comfy_table::Table) -> Seq<Seq<Seq<char>>>;

/// Relies on comfy_table::Cell::new: the cell's content is the given string.
#[verifier::external_body]
pub(crate) fn cell_of(s: &str) -> (c: comfy_table::Cell)
    ensures
        cell_text(c) == s@,
{
    comfy_table::Cell::new(s)
}

/// Relies on comfy_table::Cell::add_attribute: styling leaves the content as it is.
#[verifier::external_body]
pub(crate) fn cell_bold(c: comfy_table::Cell) -> (r: comfy_table::Cell)
    ensures
        cell_text(r) == cell_text(c),
{
    c.add_attribute(comfy_table::Attribute::Bold)
}

/// Relies on comfy_table::Cell::fg: coloring leaves the content as it is.
#[verifier::external_body]
pub(crate) fn cell_magenta(c: comfy_table::Cell) -> (r: comfy_table::Cell)
    ensures
        cell_text(r) == cell_text(c),
{
    c.fg(comfy_table::Color::Magenta)
}

/// Relies on comfy_table::Table::new: a fresh table has no header and no rows.
#[verifier::external_body]
pub(crate) fn table_new() -> (t: comfy_table::Table)
    ensures
        table_header(t) == Seq::<Seq<char>>::empty(),
        table_rows(t) == Seq::<Seq<Seq<char>>>::empty(),
{
    comfy_table::Table::new()
}

/// Relies on comfy_table::Table::load_style: the style preset does not touch
/// the header or the rows.
#[verifier::external_body]
pub(crate) fn table_style_utf8_full(t: &mut comfy_table::Table)
    ensures
        table_header(*final(t)) == table_header(*old(t)),
        table_rows(*final(t)) == table_rows(*old(t)),
{
    t.load_style(comfy_table::presets::UTF8_FULL);
}

/// Relies on comfy_table::Table::set_content_arrangement: the arrangement does
/// not touch the header or the rows.
#[verifier::external_body]
pub(crate) fn table_arrange_dynamic(t: &mut comfy_table::Table)
    ensures
        table_header(*final(t)) == table_header(*old(t)),
        table_rows(*final(t)) == table_rows(*old(t)),
{
    t.set_content_arrangement(comfy_table::ContentArrangement::Dynamic);
}

/// Relies on comfy_table::Table::set_header: the given cells become the header
/// row; the data rows stay as they are.
#[verifier::external_body]
pub(crate) fn table_set_header(t: &mut comfy_table::Table, cells: Vec<comfy_table::Cell>)
    ensures
        table_header(*final(t)) == cells@.map_values(|c: comfy_table::Cell| cell_text(c)),
        table_rows(*final(t)) == table_rows(*old(t)),
{
    t.set_header(cells);
}

/// Relies on comfy_table::Table::add_row: the given cells are appended as one
/// data row; the header and the earlier rows stay as they are.
#[verifier::external_body]
pub(crate) fn table_add_row(t: &mut comfy_table::Table, cells: Vec<comfy_table::Cell>)
    ensures
        table_header(*final(t)) == table_header(*old(t)),
        table_rows(*final(t)) == table_rows(*old(t)).push(
            cells@.map_values(|c: comfy_table::Cell| cell_text(c)),
        ),
{
    t.add_row(cells);
}

/// Relies on comfy_table's Display impl for Table. The drawn text depends on
/// the machine (the terminal's width, under dynamic arrangement), so nothing
/// is promised of it.
#[verifier::external_body]
pub(crate) fn table_render(t: &comfy_table::Table) -> (s: String) {
    format!("{t}")
}

/// Relies on std::io::Write::write_fmt, through writeln: writes the line and
/// a newline to standard output. A failing write is not handled here.
#[verifier::external_body]
pub(crate) fn emit_line(s: &str) {
    let _ = writeln!(std::io::stdout(), "{s}");
}

} // verus!
