//! Decision logic of an uploader that turns a local disk image into a
//! registered machine image: the adaptive polling schedule, the poller and
//! the four-stage pipeline as explicit state machines, and the requests and
//! replies exchanged with the storage and compute services as plain values.

pub mod backoff;
pub mod error;
pub mod ops;
pub mod poller;
pub mod progress;
pub mod region;
pub mod source;
pub mod upload;
