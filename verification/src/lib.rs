//! Verified core of a TCP echo server.
//!
//! The library models one client connection as a value and proves the echo
//! loop against it: every byte read before end-of-input is written back, in
//! order, and the reported count is exact.  Timeouts and transport failures
//! are classified into a small error taxonomy, and a step function lets an
//! unverified driver run the same decisions over a real socket.

pub mod config;
pub mod errors;
pub mod echo;
pub mod stream;
