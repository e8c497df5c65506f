pub mod bus;
pub mod cli;
pub mod dbus_listener;
pub mod error;
pub mod retry;
pub mod text;
pub mod value;
