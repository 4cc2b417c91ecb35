//! A personal process supervisor: a store of named process definitions with
//! filtered lookup, and the decisions behind starting and describing the
//! processes they stand for.
//!
//! Everything here works on plain values. Reading and writing the
//! configuration file, running shell commands and querying the process table
//! are left to the caller, which hands in what it found and carries out what
//! these functions decide.

pub mod add_args;
pub mod error;
pub mod item;
pub mod launch;
pub mod laws;
pub mod process;
pub mod search;
pub mod store;
pub mod text;

pub use add_args::AddArgs;
pub use error::ManagerError;
pub use item::ProcessItem;
pub use search::SearchArgs;
pub use store::ProcessManager;
