pub mod errors;
pub mod models;
pub mod state_machine;
