//! Control core of a building-entrance controller: the button matrix with its
//! relays, LEDs and timers, the validator that recognises a door code, and
//! the per-tick rules that tie them together.
//!
//! Everything here decides; nothing here touches a bus, a socket or a file.
//! Callers hand in what they read and carry out what is handed back.

pub mod audio;
pub mod bat;
pub mod bus;
pub mod buttons;
pub mod clima_sensor_us;
pub mod config;
pub mod environment;
pub mod garage;
pub mod haustuer;
pub mod mod_ir_temp;
mod clock;
pub mod nextcloud;
pub mod orchestrator;
pub mod ping;
pub mod pwr;
pub mod rst;
pub mod sensors;
pub mod signals;
pub mod text;
pub mod types;
pub mod validator;
pub mod watchdog;
