//! The writing half of the tabular store adapter: building workbooks in
//! memory, with their cell contents pinned down.
//!
//! The cell data of a write command is a blob of text: rows separated by
//! `;`, cells by `,`, each cell trimmed of surrounding whitespace and placed
//! at its zero-based (row, column) position. The workbook itself comes from
//! the `rust_xlsxwriter` crate; the library fills it cell by cell and proves
//! which cells it holds, and the surrounding binary saves it to disk.

use vstd::prelude::*;
use vstd::string::StringExecFns;
use rust_xlsxwriter::{Workbook, Worksheet, XlsxError};
use crate::text::{spec_split, spec_trim, split_str, trim_str};

verus! {

#[verifier::external_type_specification]
#[verifier::external_body]
pub struct ExWorkbook(Workbook);

#[verifier::external_type_specification]
#[verifier::external_body]
pub struct ExWorksheet(Worksheet);

#[verifier::external_type_specification]
#[verifier::external_body]
pub struct ExXlsxError(XlsxError);

/// The cells a worksheet holds: (row, column) position to cell text.
pub uninterp spec fn worksheet_cells(ws: Worksheet) -> Map<(u32, u16), Seq<char>>;

/// The cell tables of a workbook's sheets, in the order the sheets were
/// added.
pub uninterp spec fn workbook_sheets(wb: Workbook) -> Seq<
    Map<(u32, u16), Seq<char>>,
>;

/// Relies on rust_xlsxwriter's `Worksheet::new`: a fresh worksheet holds no
/// cells.
#[verifier::external_body]
fn worksheet_new() -> (ws: Worksheet)
    ensures
        (worksheet_cells(ws) == Map::<(u32, u16), Seq<char>>::empty()),
{
    Worksheet::new()
}

/// Relies on rust_xlsxwriter's `Worksheet::write_string`. Its source stores
/// the text at (row, col) and answers `Ok` when row and column are under
/// Excel's limits and the text has at most 32767 characters; it ignores an
/// empty text altogether; otherwise it answers the limit error and stores
/// nothing.
#[verifier::external_body]
fn worksheet_write(
    ws: &mut Worksheet,
    row: u32,
    col: u16,
    text: &str,
) -> (r: Result<(), XlsxError>)
    ensures
        ({
            let cells0 = worksheet_cells(*old(ws));
            let cells1 = worksheet_cells(*final(ws));
            if text@.len() == 0 {
                r is Ok && cells1 == cells0
            } else if row >= 1048576 || col >= 16384 {
                r is Err && cells1 == cells0
            } else if text@.len() > 32767 {
                r is Err && cells1 == cells0
            } else {
                r is Ok && cells1 == cells0.insert((row, col), text@)
            }
        }),
{
    match ws.write_string(row, col, text) {
        Ok(_) => Ok(()),
        Err(e) => Err(e),
    }
}

/// Relies on rust_xlsxwriter's `Workbook::new`: a fresh workbook holds no
/// sheets.
#[verifier::external_body]
fn workbook_new() -> (wb: Workbook)
    ensures
        (workbook_sheets(wb) == Seq::<Map<(u32, u16), Seq<char>>>::empty()),
{
    Workbook::new()
}

/// Relies on rust_xlsxwriter's `Workbook::push_worksheet`: the worksheet is
/// appended after the workbook's sheets (receiving a default name when it
/// has none); its cells are not touched.
#[verifier::external_body]
fn workbook_push(wb: &mut Workbook, ws: Worksheet)
    ensures
        (workbook_sheets(*final(wb)) == workbook_sheets(*old(wb)).push(worksheet_cells(ws))),
{
    wb.push_worksheet(ws);
}

/// A new workbook holding exactly one sheet with no cells — what the
/// create command produces, whatever stood at the path before.
pub fn empty_workbook() -> (wb: Workbook)
    ensures
        workbook_sheets(wb) == seq![Map::<(u32, u16), Seq<char>>::empty()],
{
    let mut wb = workbook_new();
    let ws = worksheet_new();
    workbook_push(&mut wb, ws);
    proof {
        assert(workbook_sheets(wb) =~= seq![Map::<(u32, u16), Seq<char>>::empty()]);
    }
    wb
}

/// The rows of cells a data blob encodes: rows cut at `;`, cells cut at
/// `,`, each cell trimmed of surrounding whitespace.
pub open spec fn spec_cell_rows(raw: Seq<char>) -> Seq<Seq<Seq<char>>> {
    spec_split(raw, ';').map_values(
        |row: Seq<char>| spec_split(row, ',').map_values(|cell: Seq<char>| spec_trim(cell)),
    )
}

/// Splits a data blob into its trimmed cells.
pub fn parse_write_cells(raw: &str) -> (r: Vec<Vec<String>>)
    ensures
        r.deep_view() == spec_cell_rows(raw@),
{
    let rows = split_str(raw, ';');
    let mut r: Vec<Vec<String>> = Vec::new();
    let mut i: usize = 0;
    while i < rows.len()
        invariant
            i <= rows.len(),
            rows.deep_view() == spec_split(raw@, ';'),
            r.deep_view() == spec_cell_rows(raw@).take(i as int),
        decreases rows.len() - i,
    {
        let cells_raw = split_str(rows[i].as_str(), ',');
        let mut row_out: Vec<String> = Vec::new();
        let mut j: usize = 0;
        while j < cells_raw.len()
            invariant
                j <= cells_raw.len(),
                i < rows.len(),
                rows.deep_view() == spec_split(raw@, ';'),
                cells_raw.deep_view() == spec_split(rows.deep_view()[i as int], ','),
                row_out.deep_view() == cells_raw.deep_view().map_values(
                    |cell: Seq<char>| spec_trim(cell),
                ).take(j as int),
            decreases cells_raw.len() - j,
        {
            let cell = String::from_str(trim_str(cells_raw[j].as_str()));
            let ghost cv = cell@;
            let ghost pre = row_out.deep_view();
            row_out.push(cell);
            proof {
                let m = cells_raw.deep_view().map_values(|c: Seq<char>| spec_trim(c));
                assert(cells_raw.deep_view()[j as int] == cells_raw@[j as int]@);
                assert(cv == spec_trim(cells_raw.deep_view()[j as int]));
                assert(m[j as int] == spec_trim(cells_raw.deep_view()[j as int]));
                assert(pre == cells_raw.deep_view().map_values(
                    |cell: Seq<char>| spec_trim(cell),
                ).take(j as int));
                assert(pre.len() == j);
                assert(row_out@.len() == j + 1);
                assert(row_out.deep_view().len() == j + 1);
                assert forall|k: int| 0 <= k < j implies row_out.deep_view()[k] == pre[k] by {
                }
                assert(row_out.deep_view()[j as int] == cv);
                assert(row_out.deep_view() =~~= m.take(j + 1));
            }
            j = j + 1;
        }
        let ghost rowv = row_out.deep_view();
        let ghost rpre = r.deep_view();
        r.push(row_out);
        proof {
            assert(rpre == spec_cell_rows(raw@).take(i as int));
            assert(rpre.len() == i);
            assert(r@.len() == i + 1);
            assert(rows.deep_view()[i as int] == rows@[i as int]@);
            assert(rowv =~~= cells_raw.deep_view().map_values(
                |cell: Seq<char>| spec_trim(cell),
            ));
            assert(cells_raw.deep_view().map_values(|cell: Seq<char>| spec_trim(cell)).take(
                j as int,
            ) =~~= spec_cell_rows(raw@)[i as int]);
            assert(rowv =~~= spec_cell_rows(raw@)[i as int]);
            assert(r.deep_view() =~~= spec_cell_rows(raw@).take(i + 1));
        }
        i = i + 1;
    }
    proof {
        assert(spec_cell_rows(raw@).take(i as int) =~~= spec_cell_rows(raw@));
    }
    r
}

/// Why a data blob cannot be written to a sheet.
#[derive(Debug, PartialEq, Eq)]
pub enum WriteError {
    /// Some cell lies beyond Excel's row or column limits, or its text is
    /// longer than Excel accepts.
    CellLimit,
}

impl WriteError {
    /// A printable account of the error.
    pub fn describe(&self) -> (r: String)
        ensures
            r@ == "una celda excede los límites de la hoja"@,
    {
        String::from_str("una celda excede los límites de la hoja")
    }
}

/// Can this cell be written at (row `i`, column `j`)? An empty cell always
/// can — it is simply left out; any other cell needs its position under
/// Excel's limits and its text at most 32767 characters.
pub open spec fn spec_cell_ok(i: int, j: int, cell: Seq<char>) -> bool {
    cell.len() == 0 || (i < 1048576 && j < 16384 && cell.len() <= 32767)
}

/// Do all the cells of the blob fit a sheet?
pub open spec fn spec_all_cells_ok(rows: Seq<Seq<Seq<char>>>) -> bool {
    forall|a: int, b: int|
        0 <= a < rows.len() && 0 <= b < rows[a].len() ==> spec_cell_ok(a, b, rows[a][b])
}

/// The cell table the blob's rows describe: every nonempty trimmed cell at
/// its zero-based (row, column) position. Empty cells leave no trace, as
/// the workbook writer ignores them.
pub open spec fn spec_grid(rows: Seq<Seq<Seq<char>>>) -> Map<(u32, u16), Seq<char>> {
    spec_grid_upto(rows, rows.len() as int, 0)
}

/// The part of the grid strictly before (row `i`, column `j`), in row-major
/// order.
pub open spec fn spec_grid_upto(rows: Seq<Seq<Seq<char>>>, i: int, j: int) -> Map<
    (u32, u16),
    Seq<char>,
> {
    Map::new(
        |k: (u32, u16)|
            0 <= (k.0 as int) < rows.len() && 0 <= (k.1 as int) < rows[k.0 as int].len()
                && rows[k.0 as int][k.1 as int].len() > 0 && ((k.0 as int) < i || ((k.0 as int)
                == i && (k.1 as int) < j)),
        |k: (u32, u16)| rows[k.0 as int][k.1 as int],
    )
}

/// A new workbook holding exactly one sheet whose cells are the blob's
/// trimmed cells, each at its zero-based (row, column) position — what the
/// write command produces, whatever stood at the path before. It fails, and
/// builds nothing, exactly when some nonempty cell lies beyond Excel's
/// limits.
pub fn data_workbook(raw: &str) -> (r: Result<Workbook, WriteError>)
    ensures
        ({
            let rows = spec_cell_rows(raw@);
            match r {
                Ok(wb) => spec_all_cells_ok(rows) && workbook_sheets(wb) == seq![spec_grid(rows)],
                Err(_) => !spec_all_cells_ok(rows),
            }
        }),
{
    let cells = parse_write_cells(raw);
    let ghost rows = spec_cell_rows(raw@);
    let mut ws = worksheet_new();
    let mut i: usize = 0;
    proof {
        assert(worksheet_cells(ws) =~= spec_grid_upto(rows, 0, 0));
    }
    while i < cells.len()
        invariant
            i <= cells.len(),
            rows == spec_cell_rows(raw@),
            cells.deep_view() == rows,
            worksheet_cells(ws) == spec_grid_upto(rows, i as int, 0),
            forall|a: int, b: int|
                0 <= a < i && 0 <= b < rows[a].len() ==> spec_cell_ok(a, b, rows[a][b]),
        decreases cells.len() - i,
    {
        let row = &cells[i];
        let mut j: usize = 0;
        while j < row.len()
            invariant
                i < cells.len(),
                j <= row.len(),
                rows == spec_cell_rows(raw@),
                cells.deep_view() == rows,
                row.deep_view() == rows[i as int],
                worksheet_cells(ws) == spec_grid_upto(rows, i as int, j as int),
                forall|a: int, b: int|
                    0 <= a < i && 0 <= b < rows[a].len() ==> spec_cell_ok(a, b, rows[a][b]),
                forall|b: int| 0 <= b < j ==> spec_cell_ok(i as int, b, rows[i as int][b]),
            decreases row.len() - j,
        {
            let cell = &row[j];
            let len = cell.as_str().unicode_len();
            if len > 0 {
                if i >= 1048576 || j >= 16384 || len > 32767 {
                    proof {
                        assert(rows[i as int][j as int] == cell@);
                        assert(!spec_cell_ok(i as int, j as int, rows[i as int][j as int]));
                    }
                    return Err(WriteError::CellLimit);
                }
                let res = worksheet_write(&mut ws, i as u32, j as u16, cell.as_str());
                proof {
                    assert(res is Ok);
                    assert(rows[i as int][j as int] == cell@);
                    assert(worksheet_cells(ws) =~= spec_grid_upto(rows, i as int, j + 1));
                }
                match res {
                    Ok(()) => (),
                    Err(_) => {
                        proof {
                            assert(false);
                        }
                    },
                }
            } else {
                proof {
                    assert(rows[i as int][j as int] == cell@);
                    assert(worksheet_cells(ws) =~= spec_grid_upto(rows, i as int, j + 1));
                }
            }
            j = j + 1;
        }
        proof {
            assert(spec_grid_upto(rows, i as int, row.deep_view().len() as int) =~= spec_grid_upto(
                rows,
                i + 1,
                0,
            ));
        }
        i = i + 1;
    }
    proof {
        assert(spec_grid_upto(rows, i as int, 0) =~= spec_grid(rows));
    }
    let mut wb = workbook_new();
    workbook_push(&mut wb, ws);
    proof {
        assert(workbook_sheets(wb) =~= seq![spec_grid(rows)]);
    }
    Ok(wb)
}

} // verus!
