pub mod config;
pub mod controller;
pub mod device;
pub mod frame;
pub mod outbox;
pub mod ws;
