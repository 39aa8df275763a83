//! The core of a temperature-driven fan regulator: the gamma curve, the
//! smoothing window, the speed policy and the control protocol, all over
//! integers and free of I/O.
//!
//! Fractions are counted in millionths ([`gamma::UNIT`] is one whole) and
//! temperatures in thousandths of a degree, so every rule here is exact
//! integer arithmetic.

pub mod aggregator;
pub mod backend;
pub mod channel;
pub mod client;
pub mod daemon;
pub mod gamma;
pub mod policy;
pub mod poweredge;
pub mod protocol;
pub mod sense;
