//! A minimal model of a kernel driver that runs a caller-supplied payload with
//! supervisor-mode execution protection (SMEP) switched off, together with the
//! device lifecycle and request dispatch around it.

pub mod status;
pub mod cpu;
pub mod namespace;
pub mod unicode;
pub mod kernel;
pub mod request;
pub mod driver;
pub mod laws;
pub mod harness;
