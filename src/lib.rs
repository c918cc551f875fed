//! A typing race played in the terminal: the multiplayer session layer of the
//! server (who is connected, who challenged whom, which matches run and how far
//! each racer got) and the state machine of the terminal client.

pub mod models;
pub mod server_utils;
pub mod ui;
