//! `Cd`: a wrapper that owns a value and records whether mutable access to it
//! has been requested.
//!
//! The record is a single flag. It is set whenever a mutable view of the value
//! is handed out, whether or not the value is then modified, and it is cleared
//! only by an explicit reset. No values are ever compared.

pub mod cd;
pub mod laws;

pub use cd::Cd;
pub use cd::CdView;
