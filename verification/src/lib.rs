//! Codec and control logic for a differential-drive robot base that speaks a
//! framed, checksummed binary protocol over a USB-serial link.
//!
//! The library decodes the inbound byte stream into typed feedback records,
//! builds outbound command frames, and drives the coordinator and serial
//! worker state machines. All I/O stays with the caller: the functions here
//! work on plain byte sequences and values.

pub mod feedback;
pub mod frame;
pub mod ports;
pub mod runtime;
pub mod rx;
pub mod tx;
