//! The NetConnection class of the ActionScript 1/2 virtual machine.
pub mod heap;
pub mod laws;
pub mod net_connection;
pub mod runtime;
pub mod service_proxy;
pub mod task;
pub mod value;
