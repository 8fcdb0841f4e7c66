//! Types and checks for a MessagePack-RPC style protocol in which the method
//! of a request or notification is an integer code rather than a string.
//!
//! Every message is an array value: its first item is the message type,
//! followed by the items that the message type defines. A [`Message`] only
//! ever holds a value of that shape, and the typed messages check the items
//! of their message type on top of it.

pub mod text;
pub mod value;
pub mod rpccore;
pub mod message;
pub mod util;
pub mod codegen;
pub mod future;
pub mod server;
pub mod proto;

pub use self::rpccore::request::{RequestMessage, RpcRequest};
pub use self::rpccore::{CodeConvert, Message, MessageType, RpcMessage, RpcMessageType};
