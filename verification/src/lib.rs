//! Decision logic of a small desktop shell with two front-end commands: one
//! that asks the operating system to open a URL, and one that starts a
//! loopback listener to capture a single OAuth redirect.  The platform calls
//! themselves live outside this crate; here stand the parts that can be
//! stated and proved: how each command's outcome is shaped from the platform's
//! answer, and the at-most-once delivery protocol of the redirect session.

pub mod commands;
pub mod session;
