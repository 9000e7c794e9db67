//! Client-side implementation of the "MU" framed serial protocol used to
//! configure an elevator-indicator unit.
//!
//! The crate is organised around four pieces: the frame codec
//! ([`mu_frame`]), a byte-transport abstraction with in-memory
//! implementations for deterministic testing ([`transport`]), the link
//! session that performs the handshake and the request/response exchanges
//! ([`client`]), and the command layer with its bounded retry policy
//! ([`config_client`]). Around them stand the error taxonomy ([`error`]),
//! the device settings and their line codec ([`device_config`]), the serial
//! parameters ([`serial_config`]), the persistence interface ([`config`]),
//! and the menu states ([`main_menu`]).

pub mod client;
pub mod config;
pub mod config_client;
pub mod device_config;
pub mod error;
pub mod main_menu;
pub mod mu_frame;
pub mod serial_config;
pub mod text;
pub mod transport;
