//! A library for running remote jobs through cloud storage: templates name
//! the tools of a case, and the library works out the one shell line that
//! brings them to the target, runs them and cleans up.

pub mod error;
pub mod text;
pub mod kv;
pub mod table;
pub mod shell;
pub mod tools;
pub mod cloud;
pub mod sync;
pub mod grammar;
pub mod generate;
pub mod objects;
pub mod format;
pub mod template;
pub mod run;
pub mod manager;
pub mod names;
pub mod cli;
