//! The decisions of a pyro board: sampling and conversion of its ADC channels, arming
//! of its two pyro channels, and its CAN traffic.
pub mod adc;
pub mod board;
pub mod control_loop;
pub mod io_threads;
pub mod pyro_channel;
