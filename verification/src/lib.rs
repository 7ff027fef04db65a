//! Verified core of an asynchronous runtime extension for PHP: the SQL
//! placeholder compiler, PDO DSN conversion, HTTP helpers, in-memory byte
//! buffers and the decision logic that the I/O glue consults.

pub mod async_io;
pub mod bytes_io;
pub mod channel;
pub mod context;
pub mod curl;
pub mod fs;
pub mod http;
pub mod io;
pub mod net;
pub mod pdo;
pub mod runtime;
pub mod sql_parser;
pub mod text;
pub mod time;
pub mod util;

use vstd::prelude::*;

verus! {

/// Capability flag: the IO object can be read.
pub const IO_READ: i64 = 1;

/// Capability flag: the IO object can be written.
pub const IO_WRITE: i64 = 2;

/// Capability flag: the IO object can seek.
pub const IO_SEEK: i64 = 4;

/// Capability flag: the IO object reads through a buffer.
pub const IO_BUF: i64 = 8;

} // verus!
