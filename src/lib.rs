//! Server-side core of an intimate-hardware control protocol: the versioned
//! message model, per-device command state, the protocol handlers that turn
//! commands into bus writes, and the device manager's decisions.
pub mod message_types;
pub mod messages;
pub mod unions;
pub mod validation;
pub mod conversion;
pub mod command_manager;
pub mod errors;
pub mod device;
pub mod lovehoney_desire;
pub mod concurrent_map;
pub mod device_manager;
pub mod server;
