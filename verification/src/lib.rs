//! The core of a front end over a command-line mod manager: which commands
//! of the tool to run, and what to make of what a run printed. The library
//! starts no process and touches no clipboard; callers run the tool and hand
//! in what came back.

pub mod decimal;
pub mod export;
pub mod frontend;
pub mod import;
pub mod names;
pub mod profile;
pub mod text;
pub mod tool;
pub mod upgrade;
