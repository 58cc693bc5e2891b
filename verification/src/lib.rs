//! Driver crate for the DW1000 UWB transceiver
//!
//! The recommended way to use this driver is the [high-level interface](hl).
//! If you require a higher degree of flexibility, you can use the
//! [register-level interface](ll) instead.

pub mod configs;
pub mod hl;
pub mod ll;
pub mod mac;
pub mod ranging;
pub mod time;
pub mod util;

pub use crate::configs::{RxConfig, TxConfig};
pub use crate::hl::{DW1000, Error, Message, Ready, Sending, SingleBufferReceiving, Uninitialized};
