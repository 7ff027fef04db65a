pub mod auth;
pub mod buffer;
pub mod client;
pub mod cookies;
pub mod io;
pub mod metrics;
pub mod request;
pub mod retry;
pub mod server;
pub mod socketio;
pub mod transport;
pub mod types;
