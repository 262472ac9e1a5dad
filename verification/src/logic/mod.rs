pub mod action;
pub mod check;
pub mod laws;
pub mod message;
pub mod state;
pub mod typing;
