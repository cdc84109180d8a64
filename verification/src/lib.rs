//! Decision core of a water-valve controller.
//!
//! The controller watches a flow sensor and a tap switch, decides whether flow
//! with the tap closed is a leak, drives a shutoff valve, and follows the
//! directives of a remote service. This crate holds every decision the device
//! makes, free of I/O: each hardware or network interaction is handed to the
//! caller as an action and comes back as an event.
//!
//! - [`flow`]: the pulse counter that the sensor's task fills and the
//!   reporting loop drains.
//! - [`tap`]: the tap switch and its debounce time.
//! - [`bypass`]: the bypass grant and the button that cancels it.
//! - [`valve`]: the valve actuator, control line and indicator as one unit.
//! - [`leak`]: the leak decision and its allowance.
//! - [`protocol`]: directives, status codes, identity and report.
//! - [`command`]: what a directive does to the device.
//! - [`policy`]: the tunable parameters.
//! - [`reporting`]: the reporting loop, as a state machine.
//! - [`system`]: the three tasks side by side, and what holds however they
//!   interleave.
//! - [`net`]: the choice of the network to join.
//!
//! The shared cells, [`flow::FlowCounter`] and [`bypass::BypassGrant`], are
//! changed through exclusive borrows only. A task that holds the borrow cannot
//! be interrupted in the middle of an operation, so every operation on a cell
//! is one indivisible exchange. How the cells are handed around between tasks
//! is up to the caller.

pub mod bypass;
pub mod command;
pub mod flow;
pub mod leak;
pub mod net;
pub mod policy;
pub mod protocol;
pub mod reporting;
pub mod system;
pub mod tap;
pub mod valve;
