//! Terminal monitor for the balance of one account: the sampling state,
//! the polling state machine, the screen layout and the text it shows.

pub mod wallet;
pub mod text;
pub mod utils;
pub mod consts;
pub mod config;
pub mod app;
pub mod driver;
