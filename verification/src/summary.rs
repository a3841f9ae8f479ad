//! The digest of spreadsheet data: a bounded textual summary of the sheets
//! read from a workbook, fit for inclusion in the conversation context.
//!
//! For each sheet the digest gives the name and the row count; if the sheet
//! has rows, the first row verbatim as headers; and if it has more than one
//! row, up to the next four rows, one per line.

use vstd::prelude::*;
use crate::text::{spec_decimal, push_decimal, push_str_chars, chars_to_string};

verus! {

/// One named table of rows of text cells, as read from a workbook. Rows may
/// be ragged: no fixed column count is enforced.
pub struct Sheet {
    pub name: String,
    pub rows: Vec<Vec<String>>,
}

/// The parts joined with a comma and a space between consecutive parts.
pub open spec fn spec_join_cs(parts: Seq<Seq<char>>) -> Seq<char>
    decreases parts.len(),
{
    if parts.len() == 0 {
        Seq::empty()
    } else if parts.len() == 1 {
        parts[0]
    } else {
        parts[0] + ", "@ + spec_join_cs(parts.drop_first())
    }
}

/// Appends the cells of `row`, comma-joined, to `acc`.
pub fn push_join_cs(acc: &mut Vec<char>, row: &Vec<String>)
    ensures
        final(acc)@ == old(acc)@ + spec_join_cs(row.deep_view()),
{
    let ghost base = acc@;
    let mut i: usize = 0;
    while i < row.len()
        invariant
            i <= row.len(),
            i == 0 ==> acc@ == base,
            0 < i < row.len() ==> base + spec_join_cs(row.deep_view()) == acc@ + ", "@
                + spec_join_cs(row.deep_view().skip(i as int)),
            0 < i && i == row.len() ==> base + spec_join_cs(row.deep_view()) == acc@,
        decreases row.len() - i,
    {
        let ghost pre = acc@;
        if i > 0 {
            push_str_chars(acc, ", ");
        }
        push_str_chars(acc, row[i].as_str());
        proof {
            let d = row.deep_view();
            assert(d.skip(i as int).drop_first() =~= d.skip(i + 1));
            assert(d.skip(i as int)[0] == d[i as int]);
            assert(d[i as int] == row@[i as int]@);
            if i == 0 {
                assert(d.skip(0) =~= d);
                assert(acc@ =~= base + d[0]);
                if i + 1 < row.len() {
                    assert(base + spec_join_cs(d) =~= acc@ + ", "@ + spec_join_cs(d.skip(1)));
                } else {
                    assert(base + spec_join_cs(d) =~= acc@);
                }
            } else {
                assert(acc@ =~= pre + ", "@ + d[i as int]);
                if i + 1 < row.len() {
                    assert(spec_join_cs(d.skip(i as int)) =~= d[i as int] + ", "@
                        + spec_join_cs(d.skip(i + 1)));
                    assert(base + spec_join_cs(d) =~= acc@ + ", "@ + spec_join_cs(d.skip(i + 1)));
                } else {
                    assert(spec_join_cs(d.skip(i as int)) =~= d[i as int]);
                    assert(base + spec_join_cs(d) =~= acc@);
                }
            }
        }
        i = i + 1;
    }
    proof {
        if row.len() == 0 {
            assert(spec_join_cs(row.deep_view()) =~= Seq::<char>::empty());
            assert(acc@ =~= base + spec_join_cs(row.deep_view()));
        }
    }
}

/// The digest lines for rows `i..m` of a sheet: each row comma-joined,
/// indented by two spaces, one per line.
pub open spec fn spec_data_rows(rows: Seq<Seq<Seq<char>>>, i: int, m: int) -> Seq<char>
    decreases m - i,
{
    if i >= m {
        Seq::empty()
    } else {
        "  "@ + spec_join_cs(rows[i]) + "\n"@ + spec_data_rows(rows, i + 1, m)
    }
}

/// The digest of one sheet: its name and row count; its first row as
/// headers, when it has one; and rows `1..min(5, row count)`, when it has
/// more than one.
pub open spec fn spec_sheet_digest(sheet: Sheet) -> Seq<char> {
    let rows = sheet.rows.deep_view();
    let m = if rows.len() < 5 {
        rows.len() as int
    } else {
        5
    };
    "Hoja: "@ + sheet.name@ + " ("@ + spec_decimal(rows.len()) + " filas)\n"@ + (if rows.len()
        > 0 {
        "Encabezados: "@ + spec_join_cs(rows[0]) + "\n"@
    } else {
        Seq::empty()
    }) + (if m > 1 {
        "Primeras filas de datos:\n"@ + spec_data_rows(rows, 1, m)
    } else {
        Seq::empty()
    })
}

/// The digests of the sheets from position `i` on, concatenated in order.
pub open spec fn spec_summary_from(sheets: Seq<Sheet>, i: int) -> Seq<char>
    decreases sheets.len() - i,
    when 0 <= i <= sheets.len()
{
    if i >= sheets.len() {
        Seq::empty()
    } else {
        spec_sheet_digest(sheets[i]) + spec_summary_from(sheets, i + 1)
    }
}

/// The digest of a whole workbook: the digests of its sheets, in the order
/// given.
pub open spec fn spec_summary(sheets: Seq<Sheet>) -> Seq<char> {
    spec_summary_from(sheets, 0)
}

/// Produces the digest of `data`: for every sheet, in order, its name, row
/// count, headers and first data rows, as `spec_summary` lays them out.
pub fn summarize_excel_data(data: &Vec<Sheet>) -> (r: String)
    ensures
        r@ == spec_summary(data@),
{
    let mut acc: Vec<char> = Vec::new();
    let mut i: usize = 0;
    while i < data.len()
        invariant
            i <= data.len(),
            acc@ + spec_summary_from(data@, i as int) == spec_summary_from(data@, 0),
        decreases data.len() - i,
    {
        let ghost pre = acc@;
        let sheet = &data[i];
        let ghost rows = sheet.rows.deep_view();
        push_str_chars(&mut acc, "Hoja: ");
        push_str_chars(&mut acc, sheet.name.as_str());
        push_str_chars(&mut acc, " (");
        push_decimal(&mut acc, sheet.rows.len());
        push_str_chars(&mut acc, " filas)\n");
        let ghost head_mark = acc@;
        proof {
            assert(head_mark =~= pre + ("Hoja: "@ + sheet.name@ + " ("@ + spec_decimal(
                rows.len(),
            ) + " filas)\n"@));
        }
        if sheet.rows.len() > 0 {
            push_str_chars(&mut acc, "Encabezados: ");
            push_join_cs(&mut acc, &sheet.rows[0]);
            push_str_chars(&mut acc, "\n");
            proof {
                assert(rows[0] == sheet.rows@[0].deep_view());
                assert(acc@ =~= head_mark + ("Encabezados: "@ + spec_join_cs(rows[0]) + "\n"@));
            }
        }
        let ghost enc_mark = acc@;
        let m: usize = if sheet.rows.len() < 5 {
            sheet.rows.len()
        } else {
            5
        };
        if m > 1 {
            push_str_chars(&mut acc, "Primeras filas de datos:\n");
            let ghost data_base = acc@;
            let mut j: usize = 1;
            while j < m
                invariant
                    1 <= j <= m,
                    m <= sheet.rows.len(),
                    m <= 5,
                    rows == sheet.rows.deep_view(),
                    acc@ + spec_data_rows(rows, j as int, m as int) == data_base + spec_data_rows(
                        rows,
                        1,
                        m as int,
                    ),
                decreases m - j,
            {
                let ghost rpre = acc@;
                push_str_chars(&mut acc, "  ");
                push_join_cs(&mut acc, &sheet.rows[j]);
                push_str_chars(&mut acc, "\n");
                proof {
                    assert(rows[j as int] == sheet.rows@[j as int].deep_view());
                    assert(acc@ =~= rpre + ("  "@ + spec_join_cs(rows[j as int]) + "\n"@));
                    assert(acc@ + spec_data_rows(rows, j + 1, m as int) =~= rpre + spec_data_rows(
                        rows,
                        j as int,
                        m as int,
                    ));
                }
                j = j + 1;
            }
            proof {
                assert(acc@ + spec_data_rows(rows, m as int, m as int) =~= acc@);
                assert(acc@ =~= enc_mark + ("Primeras filas de datos:\n"@ + spec_data_rows(
                    rows,
                    1,
                    m as int,
                )));
            }
        }
        proof {
            assert(acc@ =~= pre + spec_sheet_digest(data@[i as int]));
            assert(acc@ + spec_summary_from(data@, i + 1) =~= pre + spec_summary_from(
                data@,
                i as int,
            ));
        }
        i = i + 1;
    }
    proof {
        assert(acc@ + spec_summary_from(data@, i as int) =~= acc@);
    }
    chars_to_string(&acc)
}

/// The system note recorded after a successful read: the file name and the
/// digest of what it holds.
pub open spec fn spec_read_note(filename: Seq<char>, sheets: Seq<Sheet>) -> Seq<char> {
    "Datos del archivo Excel '"@ + filename + "': "@ + spec_summary(sheets)
}

/// Produces the system note for a successful read of `filename`.
pub fn read_note(filename: &str, data: &Vec<Sheet>) -> (r: String)
    ensures
        r@ == spec_read_note(filename@, data@),
{
    let mut acc: Vec<char> = Vec::new();
    push_str_chars(&mut acc, "Datos del archivo Excel '");
    push_str_chars(&mut acc, filename);
    push_str_chars(&mut acc, "': ");
    let summary = summarize_excel_data(data);
    push_str_chars(&mut acc, summary.as_str());
    proof {
        assert(acc@ =~= spec_read_note(filename@, data@));
    }
    chars_to_string(&acc)
}

} // verus!
