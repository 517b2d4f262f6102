pub mod command;
pub mod gate;
pub mod error;
