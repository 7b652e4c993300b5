//! Verified core of a register-polling harness.
//!
//! A simulated field device exposes a fixed catalog of 16-bit input
//! registers; a poller reads them over a request/response transport,
//! decodes multi-word values, and reports one status record per register.
//! This crate holds the parts with real design risk, each with a proved
//! contract: the register catalog, the word codec, the simulated device's
//! request handler, and the poller's sweep state machine. The wire
//! transport and the table rendering live outside, around this library.

pub mod catalog;
pub mod codec;
pub mod device;
pub mod poller;
