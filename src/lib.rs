//! Control logic of a small power module.
//!
//! - `voltage`: calibration against the internal reference and averaging of
//!   sample batches into millivolt readings.
//! - `power`: the arbiter that picks the DC/DC source, the AC/DC source or
//!   neither from an override code and the reading, and actuates on changes.
//! - `actuators`: the LED, cooling and PWM-duty controllers.
//! - `lines`, `commands`, `plane`: serial bytes to command lines, the command
//!   grammar, and the dispatcher that queues commands and responses.
//! - `channel`, `registry`: bounded queues, latest-value cells, and the one
//!   registry of them that every task is handed.

pub mod actuators;
pub mod channel;
pub mod commands;
pub mod lines;
pub mod plane;
pub mod power;
pub mod registry;
pub mod shared;
pub mod text;
pub mod voltage;
