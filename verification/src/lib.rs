//! A verified core for an embedded actor runtime and its ESP8266 WiFi driver.
//!
//! The runtime passes messages between actors over bounded channels, hands
//! responses back through signal slots, and drives futures whose decisions are
//! made here; the waking and awaiting of tasks is left to the caller, which
//! performs the waker action that each decision names.
pub mod queue;
pub mod channel;
pub mod signal;
pub mod actor;
pub mod protocol;
pub mod esp8266;
pub mod button;
pub mod device;
