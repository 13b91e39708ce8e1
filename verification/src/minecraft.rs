//! The Minecraft side: the release catalogue, the packet format, and what a sleeping server
//! reads from and says to its clients.

pub mod packet;
pub mod request;
pub mod responder;
pub mod varint;
pub mod version;

pub use self::request::{
    is_normal_client_close, is_normal_disconnect, ClientRequest, ConnectionEnvelope,
    HandshakeIntent, LoginIntent, SleepingStep, SocketFault,
};
pub use self::responder::{MinecraftResponder, MinecraftResponderSettings};
pub use self::version::{InitialProtocol, MinecraftVersion};
