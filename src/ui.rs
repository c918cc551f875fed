pub mod draw;
pub mod fsm;
pub mod input_handler;
pub mod models;
pub mod stateful_list;
pub mod types;
pub mod utils;
pub mod websocket_handler;
