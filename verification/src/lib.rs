//! A reactive address/health model for a browser-side widget.
//!
//! The model keeps a configurable host and port in observable cells, derives
//! the service address `http://{host}:{port}` from them, and launches one
//! asynchronous health check (`GET {address}/healthz`) per address change.
//! The surrounding page glue performs the actual HTTP request and reports
//! the outcome back, which settles the boolean health flag.

pub mod cell;
pub mod model;
