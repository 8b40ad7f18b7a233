//! The printer: the verbosity mode, the table construction, and the status
//! lines.

use crate::describe::{compose_description, described, join_tags, joined, opt_text};
use crate::records::Match;
use crate::tabulate::{
    cell_bold, cell_magenta, cell_of, cell_text, emit_line, table_add_row, table_arrange_dynamic,
    table_header, table_new, table_render, table_rows, table_set_header, table_style_utf8_full,
};
use vstd::prelude::*;
use vstd::slice::slice_index_get;

verus! {

/// Modes defining how the output shall be printed.
pub enum PrintMode {
    Normal,
    Verbose,
}

/// Whether a mode asks for the two extra columns.
pub open spec fn is_verbose(mode: PrintMode) -> bool {
    mode is Verbose
}

/// The fixed header titles: three columns, and two more in verbose mode.
pub open spec fn header_titles(verbose: bool) -> Seq<Seq<char>> {
    let base = seq!["Matched text"@, "Identified as"@, "Description"@];
    if verbose {
        base + seq!["Rarity"@, "Tags"@]
    } else {
        base
    }
}

/// The cell texts of the row drawn for one record: the matched text, the
/// name, the composed description, and in verbose mode the rarity and the
/// joined tags.
pub open spec fn row_of(m: Match, verbose: bool) -> Seq<Seq<char>> {
    let base = seq![
        m.text@,
        m.data.name@,
        described(
            opt_text(m.data.description),
            opt_text(m.data.url),
            m.text@,
            opt_text(m.data.exploit),
        ),
    ];
    if verbose {
        base + seq![m.data.rarity@, joined(m.data.tags@.map_values(|t: String| t@))]
    } else {
        base
    }
}

/// The cell texts of all rows, one per record, in input order.
pub open spec fn rows_of(results: Seq<Match>, verbose: bool) -> Seq<Seq<Seq<char>>> {
    results.map_values(|m: Match| row_of(m, verbose))
}

/// The fixed status line printed when no record was given.
pub open spec fn no_results_line() -> Seq<char> {
    "\x1b[0;31mNo Possible Identifications :(\x1b[0m"@
}

/// The fixed status line printed when at least one record was given.
pub open spec fn found_line() -> Seq<char> {
    "\x1b[0;32mFound Possible Identifications :)\x1b[0m"@
}

/// One emphasized header cell.
fn header_cell(s: &str) -> (c: comfy_table::Cell)
    ensures
        cell_text(c) == s@,
{
    cell_magenta(cell_bold(cell_of(s)))
}

/// The header cells of the table, per mode.
fn build_header(verbose: bool) -> (cells: Vec<comfy_table::Cell>)
    ensures
        cells@.map_values(|c: comfy_table::Cell| cell_text(c)) == header_titles(verbose),
{
    let mut cells: Vec<comfy_table::Cell> = Vec::new();
    cells.push(header_cell("Matched text"));
    cells.push(header_cell("Identified as"));
    cells.push(header_cell("Description"));
    if verbose {
        cells.push(header_cell("Rarity"));
        cells.push(header_cell("Tags"));
    }
    proof {
        assert(cells@.map_values(|c: comfy_table::Cell| cell_text(c)) =~= header_titles(
            verbose,
        ));
    }
    cells
}

/// The cells of the row drawn for one record.
fn build_row(m: &Match, verbose: bool) -> (cells: Vec<comfy_table::Cell>)
    ensures
        cells@.map_values(|c: comfy_table::Cell| cell_text(c)) == row_of(*m, verbose),
{
    let mut cells: Vec<comfy_table::Cell> = Vec::new();
    cells.push(cell_of(m.text.as_str()));
    cells.push(cell_of(m.data.name.as_str()));
    let description = compose_description(
        &m.data.description,
        &m.data.url,
        m.text.as_str(),
        &m.data.exploit,
    );
    cells.push(cell_of(description.as_str()));
    if verbose {
        cells.push(cell_of(m.data.rarity.as_str()));
        let tags = join_tags(&m.data.tags);
        cells.push(cell_of(tags.as_str()));
    }
    proof {
        assert(cells@.map_values(|c: comfy_table::Cell| cell_text(c)) =~= row_of(*m, verbose));
    }
    cells
}

/// Build the table for the given records: the emphasized header per mode,
/// then one row per record, in input order.
pub fn build_table(results: &[Match], mode: &PrintMode) -> (t: comfy_table::Table)
    ensures
        table_header(t) == header_titles(is_verbose(*mode)),
        table_rows(t) == rows_of(results@, is_verbose(*mode)),
{
    let verbose = match mode {
        PrintMode::Verbose => true,
        PrintMode::Normal => false,
    };
    let mut t = table_new();
    table_style_utf8_full(&mut t);
    table_arrange_dynamic(&mut t);
    table_set_header(&mut t, build_header(verbose));
    let mut i: usize = 0;
    while i < results.len()
        invariant
            i <= results@.len(),
            verbose == is_verbose(*mode),
            table_header(t) == header_titles(verbose),
            table_rows(t) == rows_of(results@.take(i as int), verbose),
        decreases results@.len() - i,
    {
        let row = build_row(slice_index_get(results, i), verbose);
        table_add_row(&mut t, row);
        proof {
            assert(rows_of(results@.take(i as int + 1), verbose) =~= rows_of(
                results@.take(i as int),
                verbose,
            ).push(row_of(results@[i as int], verbose)));
        }
        i = i + 1;
    }
    proof {
        assert(results@.take(results@.len() as int) =~= results@);
    }
    t
}

/// The exact lines that `print` writes: the red status line alone when there
/// is no record, else the green status line followed by the drawn table.
pub fn rendered_output(results: &[Match], mode: &PrintMode) -> (lines: Vec<String>)
    ensures
        results@.len() == 0 ==> lines@.len() == 1 && lines@[0]@ == no_results_line(),
        results@.len() != 0 ==> lines@.len() == 2 && lines@[0]@ == found_line(),
{
    let mut lines: Vec<String> = Vec::new();
    if results.len() == 0 {
        lines.push("\x1b[0;31mNo Possible Identifications :(\x1b[0m".to_owned());
    } else {
        lines.push("\x1b[0;32mFound Possible Identifications :)\x1b[0m".to_owned());
        let t = build_table(results, mode);
        lines.push(table_render(&t));
    }
    lines
}

impl PrintMode {
    /// Print the results as a table on standard output.
    ///
    /// [`PrintMode::Normal`] prints the "Matched text", "Identified as" and
    /// "Description" columns; [`PrintMode::Verbose`] adds "Rarity" and
    /// "Tags". A colored status line comes first; with no results only the
    /// status line is printed.
    pub fn print(self, result: &[Match]) {
        let lines = rendered_output(result, &self);
        let mut i: usize = 0;
        while i < lines.len()
            invariant
                i <= lines@.len(),
            decreases lines@.len() - i,
        {
            emit_line(lines[i].as_str());
            i = i + 1;
        }
    }
}

/// The header has the three fixed columns in their fixed order, and in
/// verbose mode exactly the two extra ones after them.
pub proof fn lemma_header_columns()
    ensures
        header_titles(false).len() == 3,
        header_titles(true).len() == 5,
        header_titles(false) == seq!["Matched text"@, "Identified as"@, "Description"@],
        header_titles(true) == seq![
            "Matched text"@,
            "Identified as"@,
            "Description"@,
            "Rarity"@,
            "Tags"@,
        ],
{
    assert(header_titles(false) =~= seq!["Matched text"@, "Identified as"@, "Description"@]);
    assert(header_titles(true) =~= seq![
        "Matched text"@,
        "Identified as"@,
        "Description"@,
        "Rarity"@,
        "Tags"@,
    ]);
}

/// Every drawn row has exactly as many cells as the header has columns.
pub proof fn lemma_row_width(m: Match, verbose: bool)
    ensures
        row_of(m, verbose).len() == header_titles(verbose).len(),
{
}

/// The table keeps the input order: there is one row per record, and row `i`
/// is the row of record `i` — no sorting, no grouping.
pub proof fn lemma_row_order(results: Seq<Match>, verbose: bool)
    ensures
        rows_of(results, verbose).len() == results.len(),
        forall|i: int|
            0 <= i < results.len() ==> #[trigger] rows_of(results, verbose)[i] == row_of(
                results[i],
                verbose,
            ),
{
}

} // verus!
