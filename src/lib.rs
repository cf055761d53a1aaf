//! Supervision core of a tray application: a pausable countdown, the
//! visibility rules of tray-anchored windows, the watchdog that keeps the
//! companion service from outliving its host, the decisions of the service
//! supervisor, and API keys in the platform's credential store.

pub mod credentials;
pub mod service;
pub mod timer;
pub mod tray;
pub mod watchdog;
