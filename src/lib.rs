//! Driver core for the Microchip MCP2003A LIN transceiver: the timing profile,
//! the break and wakeup signal sequences, frame construction and the
//! resynchronizing response parser.
//!
//! The driver does no I/O of its own. Each operation is laid out as a
//! sequence of [`LinStep`]s (pin changes, delays, UART writes) with an exact
//! contract, and a reply is read by feeding the UART's bytes to a
//! [`parser::ResponseParser`]. Blocking and suspending runners carry out the
//! same sequences, so both keep the same phase order and classification.
pub mod config;
pub mod driver;
pub mod error;
pub mod frame;
pub mod parser;

pub use driver::{LinStep, Mcp2003a};
pub use error::Mcp2003aError;
