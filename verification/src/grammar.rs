//! The command grammar: recognizing the spreadsheet commands in a line of
//! input.
//!
//! A line is tokenized on runs of whitespace. The first token selects the
//! command; the remaining tokens are its positional arguments. A line whose
//! first token is not a command word, or that has too few tokens for the
//! selected command, matches no command and is treated as chat text.

use vstd::prelude::*;
use vstd::string::StringExecFns;
use crate::text::{spec_tokens, spec_join_sp, tokenize, join_from};

verus! {

/// A recognized spreadsheet command: read a workbook file, create an empty
/// one, or write a blob of cell data to one.
#[derive(Debug, PartialEq, Eq)]
pub enum ExcelCommand {
    ReadFile(String),
    CreateFile(String),
    WriteData(String, String),
}

/// Does the token list select no command at all?
pub open spec fn spec_no_command(toks: Seq<Seq<char>>) -> bool {
    &&& !(toks.len() >= 2 && toks[0] == "leer_excel"@)
    &&& !(toks.len() >= 2 && toks[0] == "crear_excel"@)
    &&& !(toks.len() >= 3 && toks[0] == "escribir_excel"@)
}

/// Is `c` the command the token list selects?
pub open spec fn spec_command_matches(toks: Seq<Seq<char>>, c: ExcelCommand) -> bool {
    match c {
        ExcelCommand::ReadFile(p) => toks.len() >= 2 && toks[0] == "leer_excel"@ && p@ == toks[1],
        ExcelCommand::CreateFile(p) => toks.len() >= 2 && toks[0] == "crear_excel"@ && p@
            == toks[1],
        ExcelCommand::WriteData(p, d) => toks.len() >= 3 && toks[0] == "escribir_excel"@ && p@
            == toks[1] && d@ == spec_join_sp(toks.skip(2)),
    }
}

/// Recognizes a command in `input`.
///
/// With `toks` the whitespace-separated tokens of `input`: the result is
/// `ReadFile(toks[1])` when the first token is `leer_excel` and there are at
/// least two tokens; `CreateFile(toks[1])` for `crear_excel` likewise; and
/// `WriteData(toks[1], toks[2..] joined with single spaces)` when the first
/// token is `escribir_excel` and there are at least three tokens. Any other
/// line — unknown first token, too few tokens, or no tokens at all — is no
/// command.
pub fn parse_excel_command(input: &str) -> (r: Option<ExcelCommand>)
    ensures
        ({
            let toks = spec_tokens(input@);
            match r {
                Some(c) => spec_command_matches(toks, c),
                None => spec_no_command(toks),
            }
        }),
{
    let toks = tokenize(input);
    if toks.len() >= 2 && toks[0] == String::from_str("leer_excel") {
        Some(ExcelCommand::ReadFile(toks[1].clone()))
    } else if toks.len() >= 2 && toks[0] == String::from_str("crear_excel") {
        Some(ExcelCommand::CreateFile(toks[1].clone()))
    } else if toks.len() >= 3 && toks[0] == String::from_str("escribir_excel") {
        let data = join_from(&toks, 2);
        Some(ExcelCommand::WriteData(toks[1].clone(), data))
    } else {
        None
    }
}

} // verus!
