//! Unwrapping an `Option` or a `Result` with an abort action chosen by the
//! caller.
//!
//! [`FmtExpect::expect_fmt`] hands out the value that a container holds. Where
//! the container holds none, it runs the caller's abort action, which raises a
//! fatal condition with whatever message the caller rendered, and never comes
//! back. [`unwrap_fmt`] builds that action from a message, rendered only when
//! it is wanted, and from the action that raises the condition with it.

pub mod fmt_expect;

pub use fmt_expect::{unwrap_fmt, FmtExpect};
