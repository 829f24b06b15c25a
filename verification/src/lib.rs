//! Decision logic of the Singularity quick-settings applet.

pub mod config;
pub mod text;
pub mod bluetooth;
pub mod network;
pub mod mpris;
pub mod app;
pub mod network_model;
pub mod bluetooth_model;
pub mod views;
pub mod power;
pub mod wireless;
pub mod laws;
