//! Supervision of an external network-proxy kernel process and relay of its
//! live telemetry to a consumer.
//!
//! The crate holds the decision logic of the system: the process supervisor's
//! state machine, the per-topic relay pipeline (frame classification, bounded
//! FIFO queue, forwarding order), the relay coordinator, the planning side of
//! kernel acquisition, and key-path edits on a JSON configuration document.
//! All I/O (spawning the kernel, opening streams, downloading, reading and
//! writing files) is performed by the surrounding application, which hands the
//! outcomes of those calls to the functions here.

pub mod acquire;
pub mod config;
pub mod queue;
pub mod relay;
pub mod strutil;
pub mod supervisor;

pub use supervisor::check_kernel_version;
