//! Time-synchronisation core of a desktop NTP client: server table, settings,
//! calibration state machine, payload bookkeeping and date arithmetic.

pub mod calibration;
pub mod civil;
pub mod clock;
pub mod commands;
pub mod config;
pub mod ntp;
pub mod payload;
pub mod servers;
pub mod shell;
pub mod state;
pub mod text;
pub mod update;
pub mod widget;
