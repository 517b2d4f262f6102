pub mod generate;
pub mod setup;
pub mod structure;
