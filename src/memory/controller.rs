//! Registers of the CAN FD controller module.
pub mod configuration;
pub mod diagnostic;
pub mod fifo;
pub mod filter;
pub mod interrupt;
pub mod status;
