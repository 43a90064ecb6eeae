//! Verified core of a device-listing tool for Windows hosts.
//!
//! The library holds everything the tool decides or computes: the privilege
//! verdict drawn from the process-token calls, the classification of
//! enumeration errors against the exhaustion sentinel, the decoding of
//! registry-backed property buffers, and the formatting of one report block
//! per device. The operating-system calls themselves live outside the
//! library; they hand in plain values (buffers, status codes, flags) and take
//! plain values back.

pub mod enumerate;
pub mod privilege;
pub mod property;
pub mod report;
pub mod run;
pub mod text;
