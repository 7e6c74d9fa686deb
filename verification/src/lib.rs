//! Sending log messages to a syslog collector.
//!
//! A [`Logger`] pairs a formatter, which renders a message into the bytes of
//! one syslog line, with a transport, which carries those bytes away. Two
//! formatters are provided, [`Formatter3164`] for the older compact layout
//! and [`Formatter5424`] for the structured one. A transport is anything
//! that implements [`Transport`]; [`LoggerBackend`] gives the two kinds that
//! a collector is reached by, datagrams and a buffered stream, over sockets
//! that the program brings along.
//!
//! ```
//! use esp_syslog::{Facility, Formatter3164, Logger, Memory};
//!
//! let formatter = Formatter3164 {
//!     facility: Facility::LOG_USER,
//!     hostname: None,
//!     process: "myprogram".into(),
//!     pid: 0,
//! };
//! let mut logger = Logger::new(Memory::new(), formatter);
//! logger.err("hello world").expect("could not write error message");
//! assert!(logger.backend.messages[0].starts_with(b"<11>"));
//! ```
//!
//! The contracts are stated over the bytes of a line: see
//! [`rfc3164::legacy_line`] and [`rfc5424::structured_line`] for the two
//! layouts. What is taken on trust is little and says so where it stands:
//! the reading of the clock and the two stamps, which the `time` crate
//! gives, and the maximum level of the `log` facade.

pub mod ascii;
pub mod bytes;
pub mod connect;
pub mod decimal;
pub mod errors;
pub mod facade;
pub mod facility;
pub mod format;
pub mod logger;
pub mod message;
pub mod priority;
pub mod rfc3164;
pub mod rfc5424;
pub mod severity;
pub mod structured_data;
pub mod timestamp;
pub mod transport;

pub use connect::{first_resolved, tcp, udp};
pub use errors::Error;
pub use facade::{enabled, enabled_at, Level, LevelFilter};
pub use facility::Facility;
pub use format::{Layout, LogFormat};
pub use logger::Logger;
pub use message::Message;
pub use priority::{encode_priority, Priority};
pub use rfc3164::Formatter3164;
pub use rfc5424::Formatter5424;
pub use severity::Severity;
pub use structured_data::{Element, Param, StructuredData};
pub use timestamp::Timestamp;
pub use transport::{Buffered, LoggerBackend, Memory, Transport};
