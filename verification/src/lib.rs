//! A verified accounting core for unidirectional, time-vested payment
//! streams: funds accrue to a recipient at a fixed amount per fixed
//! interval, and the recipient may withdraw up to what has vested.
//!
//! The crate holds the pure request/response transform only. The host that
//! embeds it supplies the collaborators: durable storage for packed stream
//! records, authentication of the claimed signer, a clock, and the actual
//! movement of value. Each request hands the core the current record, the
//! decoded-or-raw instruction bytes and the observed context; the core
//! answers with the next record and the transfers the host must perform,
//! or with a typed error and no state change.

pub mod constants;
pub mod error;
pub mod instruction;
pub mod payment_stream;
pub mod processor;
