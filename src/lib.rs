pub mod contract;
pub mod deal;
pub mod error;
pub mod msg;
pub mod state;
pub mod laws;
