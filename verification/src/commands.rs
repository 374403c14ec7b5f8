//! Command stages and their built-in executors.
pub mod cat;
pub mod command;
pub mod ls;
pub mod pwd;
pub mod utils;

pub use command::{
    BasicCommand, BasicCommandV, Command, CommandV, FileCommand, FileCommandV, Kind, Output,
    OutputV, ProgramCommand, ProgramCommandV,
};
