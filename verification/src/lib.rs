//! Endpoint-activity simulator core: a command interpreter for a small
//! line-oriented command language, and a structured activity logger that
//! ties every executed action to a fixed, append-only record format.

pub mod command;
mod ext;
pub mod record;
pub mod session;
pub mod tokens;
