//! LG webOS LAN control over SSAP, the protocol of the television's control WebSocket.
//!
//! The library holds every decision of the client and opens no socket itself. It says what is sent
//! for each function of the remote control, what is made of each frame that comes back, how
//! pairing goes on, and which addresses are connected to. The caller owns one control WebSocket
//! and, when navigation is used, one pointer WebSocket; it performs the action that a step names
//! and hands the outcome to the next step. Commands are never retried. Pairing returns the
//! television's client key and exact TLS certificate as a credential that the host keeps.

pub mod address;
pub mod credential;
pub mod error;
pub mod exchange;
pub mod frame;
pub mod function;
pub mod json;
pub mod laws;
pub mod message;
pub mod pairing;
pub mod selection;
pub mod service;
pub mod settings;
pub mod status;
pub mod text;
pub mod tv;
pub mod wire;

pub use settings::Settings;
pub use tv::WebOsTv;
