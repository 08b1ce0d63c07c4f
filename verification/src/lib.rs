pub mod bus;
pub mod channel;
pub mod endpoint;
pub mod envelope;
pub mod json;
pub mod socket;
pub mod strmap;
pub mod task;
pub mod user_socket;

pub use channel::UserChannel;
pub use json::JsonValue;
pub use user_socket::UserSocket;
