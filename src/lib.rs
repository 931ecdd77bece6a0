//! Serial-port I/O for cooperative schedulers, built on blocking relay threads.
//!
//! The device driver only offers blocking reads and writes. Two relay threads
//! perform that blocking I/O and pass bytes through a bounded pipe; a
//! non-blocking facade polls the pipe and each thread's one-shot termination
//! signal. This crate holds the decisions of that design, with their
//! contracts: the builder's configuration, the error taxonomy and its mapping
//! to I/O errors, the facade's per-direction poll logic, and the steps of the
//! two relay loops.

pub mod builder;
pub mod facade;
pub mod failure;
pub mod relay;

pub use builder::{new, SerialPortBuilder};
pub use facade::{Direction, FacadePoll, Observation, SignalPoll, Step, StreamState};
pub use failure::{flatten, to_std_io, DeviceError, Error, IoReport, ReportKind};
pub use relay::{read_buffer, reader_step, relay_step, writer_step, READ_CHUNK};
