//! A self-updating command-line tool's verified core: version ordering,
//! release artifact selection, the crash-safe binary swap, start-up
//! recovery, and the update cycle that sequences them.

pub mod version;
pub mod swap;
pub mod recovery;
pub mod release;
pub mod helper;
pub mod update;
pub mod config;
pub mod submit;
