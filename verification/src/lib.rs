//! Race-window search engine for an asynchronous device-registration
//! lifecycle.
//!
//! A client issues a "mount" request that a server processes in several
//! asynchronous phases (connect, resolve prompt, confirm mount); an
//! "unmount" issued mid-phase can race with the in-flight mount. This
//! library holds the verified core of a tool that hunts for that race
//! window: a rotation-safe log cursor, a classifier that turns raw log
//! lines into lifecycle events, an observation oracle combining the two,
//! an adaptive delay schedule, and the scheduler state machine that
//! drives repeated mount / observe / timed-unmount / resynchronize
//! cycles.
//!
//! All I/O (the lifecycle server's HTTP endpoint, the log file, clocks
//! and sleeps) is performed by the surrounding application, which feeds
//! plain values in and carries the scheduler's decisions out.

pub mod config;
pub mod cursor;
pub mod schedule;
pub mod events;
pub mod machine;
pub mod oracle;
pub mod window;
