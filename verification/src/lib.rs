//! A schema compiler for host-registered command sets.
//!
//! A schema is a list of command variants, each naming an ordered list of
//! typed, role-tagged fields.  Compiling a schema yields two synchronized
//! artifacts: a list of signature descriptors that a host process can use to
//! validate and document calls, and a binding table that converts an incoming
//! call (positional values plus named flag values) back into typed command
//! data matching the schema.

pub mod api;
pub mod call;
pub mod compile;
pub mod descriptor;
pub mod dispatch;
pub mod login;
pub mod plugins;
pub mod props;
pub mod schema;
pub mod text;
pub mod values;
