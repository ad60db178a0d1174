//! Cache-aside lookup of flight schedules: the decisions a request handler
//! takes between its cache and its upstream provider, stated and proved over
//! plain values. The caller performs the I/O and hands each answer back.

pub mod date;
pub mod key;
pub mod flight_contract;
pub mod upstream;
pub mod health;
pub mod handler;
pub mod cache;
pub mod config;
