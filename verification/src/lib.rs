//! The client side of hydrometer telemetry: from a radio advertisement to a
//! reading at the sink.
//!
//! - [`identity`]: the eight hydrometer identities and their identifiers.
//! - [`reading`]: a reading, and the batch in which readings travel.
//! - [`decoder`]: from the bytes of an advertisement to a reading.
//! - [`scanner`]: one bounded listening window and what it collects.
//! - [`simulator`]: readings without hardware.
//! - [`buffer`]: the bounded queue of readings whose upload failed.
//! - [`backoff`]: the waits between retries.
//! - [`throttle`]: a minimum interval between uploads of one identity.
//! - [`uploader`]: the request to the sink and the meaning of its answer.
//! - [`orchestrator`]: the control loop that ties these together.
//! - [`api`], [`access`]: plain data and rules of the sink's interface.
//! - [`time`], [`text`]: durations, timestamps and text helpers.
//!
//! The radio and the network belong to the caller, who hands over what
//! they deliver. Of the outside world the library itself reads only the wall
//! clock, to stamp a reading, and the random generator of the thread, for
//! the noise of the synthetic producer.

pub mod access;
pub mod api;
pub mod backoff;
pub mod buffer;
pub mod decoder;
pub mod identity;
pub mod orchestrator;
pub mod reading;
pub mod scanner;
pub mod simulator;
pub mod text;
pub mod throttle;
pub mod time;
pub mod uploader;
