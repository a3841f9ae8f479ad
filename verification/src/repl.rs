//! The read-eval-print loop's decisions: what one line of input means, and
//! what it does to the conversation history.
//!
//! The surrounding binary owns the loop itself: it prompts, reads a line,
//! calls [`repl_step`], performs the returned action (printing, file work,
//! the completion call), and reports results back through
//! [`note_read_success`] and [`note_assistant`].

use vstd::prelude::*;
use vstd::string::StringExecFns;
use crate::grammar::{ExcelCommand, parse_excel_command, spec_no_command, spec_command_matches};
use crate::history::{History, Role, MessageView};
use crate::summary::{Sheet, read_note, spec_read_note};
use crate::text::{spec_trim, spec_eq_icase, spec_tokens, trim_str, str_eq_icase};

verus! {

/// What the loop must do with one line of input.
#[derive(Debug, PartialEq, Eq)]
pub enum ReplAction {
    /// Print the farewell and stop the loop.
    Quit,
    /// Print the static help block; nothing else happens.
    Help,
    /// Run the recognized spreadsheet command.
    Command(ExcelCommand),
    /// Send the conversation history to the completion endpoint; the line is
    /// already appended to it as a user message.
    Chat(String),
}

/// Decides one line of input, exactly as the loop treats it.
///
/// The line is trimmed first. `salir`, in any case, quits; `ayuda`, in any
/// case, asks for help; both leave the history untouched and outrank the
/// command grammar. A recognized command is returned for the loop to run,
/// also without touching the history: command lines never append a user
/// message. Anything else — including an empty line — is chat: it is
/// appended to the history as a user message and handed back.
pub fn repl_step(h: &mut History, line: &str) -> (a: ReplAction)
    ensures
        old(h).wf() ==> final(h).wf(),
        ({
            let t = spec_trim(line@);
            if spec_eq_icase(t, "salir"@) {
                a is Quit && final(h)@ == old(h)@
            } else if spec_eq_icase(t, "ayuda"@) {
                a is Help && final(h)@ == old(h)@
            } else {
                match a {
                    ReplAction::Command(c) => spec_command_matches(spec_tokens(t), c)
                        && final(h)@ == old(h)@,
                    ReplAction::Chat(s) => spec_no_command(spec_tokens(t)) && s@ == t
                        && final(h)@ == old(h)@.push(
                        MessageView { role: Role::User, content: t },
                    ),
                    _ => false,
                }
            }
        }),
{
    let t = trim_str(line);
    if str_eq_icase(t, "salir") {
        return ReplAction::Quit;
    }
    if str_eq_icase(t, "ayuda") {
        return ReplAction::Help;
    }
    match parse_excel_command(t) {
        Some(c) => ReplAction::Command(c),
        None => {
            h.push(Role::User, String::from_str(t));
            ReplAction::Chat(String::from_str(t))
        },
    }
}

/// Records a successful read: appends one system message holding the file
/// name and the digest of the data. Nothing else in the history moves.
pub fn note_read_success(h: &mut History, filename: &str, data: &Vec<Sheet>)
    ensures
        final(h)@ == old(h)@.push(
            MessageView { role: Role::System, content: spec_read_note(filename@, data@) },
        ),
        old(h).wf() ==> final(h).wf(),
{
    let note = read_note(filename, data);
    h.push(Role::System, note);
}

/// Records a successful completion: appends the response as an assistant
/// message. A failed completion records nothing, so the user message that
/// prompted it stays as the last entry.
pub fn note_assistant(h: &mut History, response: String)
    ensures
        final(h)@ == old(h)@.push(
            MessageView { role: Role::Assistant, content: response@ },
        ),
        old(h).wf() ==> final(h).wf(),
{
    h.push(Role::Assistant, response);
}

/// The greeting printed once at startup.
pub fn greeting_text() -> (r: String)
    ensures
        r@
            == "=== Agente de IA con Deepseek para Excel ===\nEscribe 'ayuda' para ver comandos disponibles\nEscribe 'salir' para terminar\n"@,
{
    String::from_str(
        "=== Agente de IA con Deepseek para Excel ===\nEscribe 'ayuda' para ver comandos disponibles\nEscribe 'salir' para terminar\n",
    )
}

/// The static help block.
pub fn help_text() -> (r: String)
    ensures
        r@
            == "Comandos disponibles:\n  leer_excel <archivo.xlsx> - Lee un archivo Excel\n  crear_excel <archivo.xlsx> - Crea un nuevo archivo Excel\n  escribir_excel <archivo.xlsx> <datos> - Escribe datos en un archivo Excel\n  ayuda - Muestra esta información\n  salir - Termina el programa\n\nTambién puedes hacer preguntas sobre manipulación de Excel o solicitar ayuda.\n"@,
{
    String::from_str(
        "Comandos disponibles:\n  leer_excel <archivo.xlsx> - Lee un archivo Excel\n  crear_excel <archivo.xlsx> - Crea un nuevo archivo Excel\n  escribir_excel <archivo.xlsx> <datos> - Escribe datos en un archivo Excel\n  ayuda - Muestra esta información\n  salir - Termina el programa\n\nTambién puedes hacer preguntas sobre manipulación de Excel o solicitar ayuda.\n",
    )
}

/// The farewell printed on quitting.
pub fn farewell_text() -> (r: String)
    ensures
        r@ == "Adiós!"@,
{
    String::from_str("Adiós!")
}

} // verus!
