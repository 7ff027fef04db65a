pub mod common;
pub mod functions;
