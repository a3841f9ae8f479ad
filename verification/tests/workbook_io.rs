use calamine::{open_workbook, Reader, Xlsx};
use excel_agente::grammar::ExcelCommand;
use excel_agente::history::History;
use excel_agente::repl::{repl_step, ReplAction};
use excel_agente::workbook::{data_workbook, empty_workbook, parse_write_cells, WriteError};

fn read_rows(path: &str) -> Vec<Vec<String>> {
    let mut workbook: Xlsx<_> = open_workbook(path).expect("the file should open");
    let names = workbook.sheet_names();
    assert_eq!(names.len(), 1);
    let range = workbook.worksheet_range(&names[0]).expect("the sheet should parse");
    let mut rows: Vec<Vec<String>> = Vec::new();
    for row in range.rows() {
        rows.push(row.iter().map(|cell| cell.to_string()).collect());
    }
    rows
}

#[test]
fn missing_file_fails_and_history_stays() {
    let mut h = History::new();
    let a = repl_step(&mut h, "leer_excel /tmp/excel_agente_no_such_file.xlsx");
    match a {
        ReplAction::Command(ExcelCommand::ReadFile(path)) => {
            let opened: Result<Xlsx<_>, _> = open_workbook(&path);
            assert!(opened.is_err());
        },
        _ => panic!("a read command was expected"),
    }
    assert_eq!(h.len(), 1);
}

#[test]
fn created_file_reads_back_as_one_empty_sheet() {
    let path = "/tmp/excel_agente_create.xlsx";
    let mut wb = empty_workbook();
    wb.save(path).expect("the workbook should save");
    let rows = read_rows(path);
    assert_eq!(rows.len(), 0);
}

#[test]
fn written_cells_read_back_trimmed_and_placed() {
    let path = "/tmp/excel_agente_write.xlsx";
    let mut h = History::new();
    let a = repl_step(&mut h, "escribir_excel out.xlsx 1,2;3,4");
    match a {
        ReplAction::Command(ExcelCommand::WriteData(file, data)) => {
            assert_eq!(file, "out.xlsx");
            assert_eq!(data, "1,2;3,4");
            let mut wb = data_workbook(&data).expect("the cells fit a sheet");
            wb.save(path).expect("the workbook should save");
        },
        _ => panic!("a write command was expected"),
    }
    let rows = read_rows(path);
    assert_eq!(rows, vec![vec!["1".to_string(), "2".to_string()], vec![
        "3".to_string(),
        "4".to_string(),
    ]]);
}

#[test]
fn written_cells_are_trimmed_and_empty_cells_left_blank() {
    let path = "/tmp/excel_agente_write_trim.xlsx";
    let mut wb = data_workbook(" a , ,b ").expect("the cells fit a sheet");
    wb.save(path).expect("the workbook should save");
    let rows = read_rows(path);
    assert_eq!(rows, vec![vec!["a".to_string(), "".to_string(), "b".to_string()]]);
}

#[test]
fn repeated_create_overwrites_prior_content() {
    let path = "/tmp/excel_agente_overwrite.xlsx";
    let mut with_data = data_workbook("1,2;3,4").expect("the cells fit a sheet");
    with_data.save(path).expect("the workbook should save");
    assert_eq!(read_rows(path).len(), 2);
    let mut wb1 = empty_workbook();
    wb1.save(path).expect("the workbook should save");
    let mut wb2 = empty_workbook();
    wb2.save(path).expect("the workbook should save");
    let rows = read_rows(path);
    assert_eq!(rows.len(), 0);
}

#[test]
fn oversized_cell_is_refused() {
    let big = "x".repeat(32768);
    match data_workbook(&big) {
        Err(e) => {
            assert_eq!(e, WriteError::CellLimit);
            assert_eq!(e.describe(), "una celda excede los límites de la hoja");
        },
        Ok(_) => panic!("an oversized cell should be refused"),
    }
    let cells = parse_write_cells(&big);
    assert_eq!(cells.len(), 1);
    assert_eq!(cells[0][0].len(), 32768);
}
