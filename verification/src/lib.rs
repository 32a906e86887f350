//! On-demand provisioning of the htmx language server binary for an editor host.
//!
//! The host asks for a runnable executable; the library decides, one step at a
//! time, what has to be looked at, fetched or created, and the host carries
//! each step out and reports back.

pub mod algorithm;
pub mod command;
pub mod error;
pub mod extension;
pub mod host;
pub mod laws;
pub mod layout;
pub mod machine;
pub mod platform;
pub mod protocol;
pub mod release;
