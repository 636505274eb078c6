//! A string bridge for callers that speak in null-terminated byte strings.
//!
//! The bridge borrows a terminated byte string, reads its text, and hands back
//! a freshly allocated terminated buffer that echoes the text when it is
//! valid UTF-8 and carries a fixed replacement text when it is not. A matching
//! release operation takes the buffer back.

pub mod bridge;
pub mod terminated;
pub mod validation;

pub use bridge::{free_string, process_string};
