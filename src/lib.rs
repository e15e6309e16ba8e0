pub mod catalog;
pub mod engine;
pub mod laws;
pub mod requests;
pub mod state;
