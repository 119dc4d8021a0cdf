//! Coordination core of a BLE keyboard controller.
//!
//! The crate holds the decisions of the controller's cooperative tasks as
//! plain state machines, so that the firmware around it only has to perform
//! what they ask for: wait, scan, send a report, touch the flash.

pub mod battery;
pub mod bond;
pub mod config;
pub mod coordinator;
pub mod delivery;
pub mod dispatch;
pub mod mailbox;
pub mod storage;
pub mod table;
pub mod task;
