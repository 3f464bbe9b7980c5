//! A transparent command wrapper's core: ordered rewrite rules applied to the
//! output of a wrapped program, the chunk pipeline that decodes, rewrites and
//! re-frames that output, the write-until-done session that forwards it, and
//! the decisions of the process that launches the wrapped command.

pub mod pattern;
pub mod config;
pub mod engine;
pub mod text;
pub mod session;
pub mod launch;
pub mod document;
