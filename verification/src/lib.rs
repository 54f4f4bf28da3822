//! A deterministic powertrain simulation: an internal-combustion engine
//! coupled through a clutch to a multi-gear transmission, advanced one
//! discrete tick at a time by operator intents (throttle, brake, clutch,
//! gear shifts), with load feedback from the drivetrain onto the engine
//! and an explicit stall rule.
//!
//! Every physical quantity is held in fixed point as a signed count of
//! thousandths (see [`units::SCALE`]), so every trajectory is exact and
//! bit-for-bit reproducible.

pub mod clutch;
pub mod engine;
pub mod sim;
pub mod transmission;
pub mod units;
