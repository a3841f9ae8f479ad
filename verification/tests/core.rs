use excel_agente::client::{build_request_body, completion_outcome};
use excel_agente::grammar::{parse_excel_command, ExcelCommand};
use excel_agente::history::{History, Role};
use excel_agente::repl::{
    farewell_text, greeting_text, help_text, note_assistant, note_read_success, repl_step,
    ReplAction,
};
use excel_agente::summary::{read_note, summarize_excel_data, Sheet};
use excel_agente::workbook::parse_write_cells;

fn s(x: &str) -> String {
    x.to_string()
}

#[test]
fn parse_read_command() {
    let r = parse_excel_command("leer_excel datos.xlsx");
    assert_eq!(r, Some(ExcelCommand::ReadFile(s("datos.xlsx"))));
}

#[test]
fn parse_create_command() {
    let r = parse_excel_command("crear_excel nuevo.xlsx");
    assert_eq!(r, Some(ExcelCommand::CreateFile(s("nuevo.xlsx"))));
}

#[test]
fn parse_write_command_rejoins_data() {
    let r = parse_excel_command("escribir_excel out.xlsx 1,2;3,4   5,6");
    assert_eq!(r, Some(ExcelCommand::WriteData(s("out.xlsx"), s("1,2;3,4 5,6"))));
}

#[test]
fn parse_handles_extra_whitespace() {
    let r = parse_excel_command("   leer_excel \t datos.xlsx  ");
    assert_eq!(r, Some(ExcelCommand::ReadFile(s("datos.xlsx"))));
}

#[test]
fn parse_requires_enough_tokens() {
    assert_eq!(parse_excel_command("leer_excel"), None);
    assert_eq!(parse_excel_command("crear_excel"), None);
    assert_eq!(parse_excel_command("escribir_excel out.xlsx"), None);
}

#[test]
fn parse_is_case_sensitive_and_rejects_unknown() {
    assert_eq!(parse_excel_command("LEER_EXCEL datos.xlsx"), None);
    assert_eq!(parse_excel_command("hola que tal"), None);
    assert_eq!(parse_excel_command(""), None);
}

#[test]
fn quit_matches_any_case_and_keeps_history() {
    let mut h = History::new();
    assert_eq!(repl_step(&mut h, "SaLiR\n"), ReplAction::Quit);
    assert_eq!(repl_step(&mut h, "  salir  "), ReplAction::Quit);
    assert_eq!(h.len(), 1);
}

#[test]
fn help_matches_any_case_and_keeps_history() {
    let mut h = History::new();
    assert_eq!(repl_step(&mut h, "AYUDA"), ReplAction::Help);
    assert_eq!(repl_step(&mut h, " ayuda \n"), ReplAction::Help);
    assert_eq!(h.len(), 1);
}

#[test]
fn command_lines_append_no_user_message() {
    let mut h = History::new();
    let a = repl_step(&mut h, "leer_excel no_existe.xlsx");
    assert_eq!(a, ReplAction::Command(ExcelCommand::ReadFile(s("no_existe.xlsx"))));
    assert_eq!(h.len(), 1);
}

#[test]
fn chat_lines_append_a_user_message() {
    let mut h = History::new();
    let a = repl_step(&mut h, "  hola, asistente  \n");
    assert_eq!(a, ReplAction::Chat(s("hola, asistente")));
    assert_eq!(h.len(), 2);
    assert_eq!(h.role_at(1), Role::User);
    assert_eq!(h.content_at(1), "hola, asistente");
}

#[test]
fn history_starts_with_persona() {
    let h = History::new();
    assert_eq!(h.len(), 1);
    assert_eq!(h.role_at(0), Role::System);
    assert!(h.content_at(0).starts_with("Eres un asistente especializado"));
}

#[test]
fn failed_completion_keeps_user_message_for_next_call() {
    let mut h = History::new();
    assert_eq!(repl_step(&mut h, "primera pregunta"), ReplAction::Chat(s("primera pregunta")));
    // The completion call fails: nothing is appended.
    assert_eq!(h.len(), 2);
    assert_eq!(repl_step(&mut h, "segunda pregunta"), ReplAction::Chat(s("segunda pregunta")));
    let body = build_request_body(&h);
    assert!(body.contains("{\"role\":\"user\",\"content\":\"primera pregunta\"}"));
    assert!(body.contains("{\"role\":\"user\",\"content\":\"segunda pregunta\"}"));
}

#[test]
fn assistant_reply_is_recorded_in_next_body() {
    let mut h = History::new();
    repl_step(&mut h, "una pregunta");
    note_assistant(&mut h, s("una respuesta"));
    assert_eq!(h.len(), 3);
    assert_eq!(h.role_at(2), Role::Assistant);
    let body = build_request_body(&h);
    assert!(body.contains("{\"role\":\"assistant\",\"content\":\"una respuesta\"}"));
}

#[test]
fn request_body_of_fresh_history() {
    let h = History::new();
    let body = build_request_body(&h);
    let expected = "{\"model\":\"deepseek-coder\",\"messages\":[{\"role\":\"system\",\"content\":\"Eres un asistente especializado en manipular archivos Excel. Puedes analizar datos, crear gráficos, realizar cálculos y generar informes basados en datos de Excel. Responde de manera concisa y enfocada en la tarea solicitada.\"}],\"temperature\":0.7,\"max_tokens\":500}";
    assert_eq!(body, expected);
}

#[test]
fn request_body_escapes_content() {
    let mut h = History::new();
    repl_step(&mut h, "di \"hola\" con \\ y\ttab");
    let body = build_request_body(&h);
    assert!(body.contains("di \\\"hola\\\" con \\\\ y\\ttab"));
}

#[test]
fn completion_outcome_takes_first_choice() {
    let r = completion_outcome(Some(vec![s("primera"), s("segunda")]));
    assert_eq!(r, Ok(s("primera")));
}

#[test]
fn completion_outcome_fails_on_empty_or_missing_choices() {
    let msg = "No se pudo obtener una respuesta válida de Deepseek";
    assert_eq!(completion_outcome(Some(vec![])), Err(s(msg)));
    assert_eq!(completion_outcome(None), Err(s(msg)));
}

#[test]
fn summary_of_a_full_sheet() {
    let sheet = Sheet {
        name: s("Ventas"),
        rows: vec![
            vec![s("a"), s("b")],
            vec![s("1"), s("2")],
            vec![s("3"), s("4")],
            vec![s("5"), s("6")],
            vec![s("7"), s("8")],
            vec![s("9"), s("10")],
            vec![s("11"), s("12")],
        ],
    };
    let out = summarize_excel_data(&vec![sheet]);
    let expected = "Hoja: Ventas (7 filas)\nEncabezados: a, b\nPrimeras filas de datos:\n  1, 2\n  3, 4\n  5, 6\n  7, 8\n";
    assert_eq!(out, expected);
}

#[test]
fn summary_of_empty_and_single_row_sheets() {
    let empty = Sheet { name: s("Vacía"), rows: vec![] };
    let one = Sheet { name: s("Una"), rows: vec![vec![s("x")]] };
    let out = summarize_excel_data(&vec![empty, one]);
    assert_eq!(out, "Hoja: Vacía (0 filas)\nHoja: Una (1 filas)\nEncabezados: x\n");
}

#[test]
fn read_note_names_the_file() {
    let sheets = vec![Sheet { name: s("H"), rows: vec![] }];
    let note = read_note("datos.xlsx", &sheets);
    assert_eq!(note, "Datos del archivo Excel 'datos.xlsx': Hoja: H (0 filas)\n");
}

#[test]
fn read_success_appends_system_note() {
    let mut h = History::new();
    let sheets = vec![Sheet { name: s("H"), rows: vec![] }];
    note_read_success(&mut h, "datos.xlsx", &sheets);
    assert_eq!(h.len(), 2);
    assert_eq!(h.role_at(1), Role::System);
    assert!(h.content_at(1).starts_with("Datos del archivo Excel 'datos.xlsx': "));
}

#[test]
fn write_cells_split_and_trim() {
    assert_eq!(
        parse_write_cells(" 1 , 2 ;3,4"),
        vec![vec![s("1"), s("2")], vec![s("3"), s("4")]]
    );
    assert_eq!(parse_write_cells("a"), vec![vec![s("a")]]);
    assert_eq!(parse_write_cells(""), vec![vec![s("")]]);
    assert_eq!(parse_write_cells("a;;b"), vec![vec![s("a")], vec![s("")], vec![s("b")]]);
}

#[test]
fn static_texts() {
    assert_eq!(farewell_text(), "Adiós!");
    assert!(greeting_text().starts_with("=== Agente de IA con Deepseek para Excel ==="));
    let help = help_text();
    assert!(help.contains("leer_excel <archivo.xlsx>"));
    assert!(help.contains("crear_excel <archivo.xlsx>"));
    assert!(help.contains("escribir_excel <archivo.xlsx> <datos>"));
    assert!(help.contains("salir - Termina el programa"));
}
