pub mod client;
pub mod dispatch;
pub mod dto;
pub mod error;
pub mod session;
pub mod adapter;
