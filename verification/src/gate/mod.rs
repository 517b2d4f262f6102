pub mod applying;
pub mod client;
pub mod clock;
pub mod config;
pub mod csr;
pub mod encoding;
pub mod keys;
pub mod pem;
pub mod poll;
pub mod profile;
pub mod text;
