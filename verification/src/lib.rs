//! A verified core for a command-line spreadsheet assistant.
//!
//! The library holds the logic of the agent: the command grammar, the
//! conversation history, the digest of spreadsheet data, the framing of the
//! completion request, and the dispatch of the read-eval-print loop. The
//! surrounding binary does the input/output: it reads lines, opens and saves
//! workbook files, and talks to the completion endpoint.

pub mod client;
pub mod grammar;
pub mod history;
pub mod repl;
pub mod summary;
pub mod text;
pub mod workbook;
