//! The decisions of an SPI master driver for ESP-IDF, verified.
//!
//! The driver talks to the hardware through C calls of ESP-IDF: one that sets up a bus, one that
//! adds a device to it, one that acquires it, one that performs a single transmission, and so on.
//! None of them is made here. Each operation of the driver is a value with a `step` function: it
//! takes the outcome of the last call and says which call comes next, with every argument of it,
//! or what the operation returns. Whoever owns the hardware performs the call and steps on.
//!
//! A caller's buffer never enters a step. A transmission says by offset and length which part of
//! the buffers it covers.

pub mod blocking;
pub mod blocking_laws;
pub mod bus;
pub mod bus_laws;
pub mod call;
pub mod chunk;
pub mod config;
pub mod dma;
pub mod error;
pub mod exec;
pub mod exec_laws;
pub mod gpio;
pub mod host;
pub mod master;
pub mod setup;
pub mod sys;
pub mod teardown;
pub mod transaction;
pub mod transmission;
pub mod v02;
pub mod wire;
pub mod wire_laws;
pub mod write_iter;
pub mod write_iter_laws;
