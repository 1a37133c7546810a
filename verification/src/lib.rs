//! Decisions behind offline and hardware-backed transaction signing.

pub mod account;
pub mod error;
pub mod files;
pub mod hexadecimal;
pub mod index;
pub mod operations;
pub mod proposal;
pub mod session;
pub mod session_history;
pub mod session_laws;
pub mod traits;
pub mod transaction;
pub mod types;

pub use files::{read_input, write_output};
pub use operations::Operations;
