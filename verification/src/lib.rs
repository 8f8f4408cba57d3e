//! The decision logic of a mock server for a live, bidirectional speech API.
//!
//! Everything here works on plain values.  What has to wait, to talk to a socket, to write a
//! file or to compute with floating point is asked for by value and handed back by value: see
//! [`session`] for one client session and [`server`] for one WebSocket connection.

pub mod audio;
pub mod cancel;
pub mod codec;
pub mod config;
pub mod energy;
pub mod mock_response;
pub mod pcm;
pub mod protocol;
pub mod server;
pub mod session;
pub mod session_laws;
pub mod session_model;
pub mod text;
pub mod vad;

pub use config::ServerConfig;
pub use protocol::{
    ClientContent, ClientMessage, RealtimeInput, ServerContentMessage, SetupComplete,
    SetupCompleteMessage, ToolCall, ToolCallMessage, ToolResponse, VoiceActivity,
    VoiceActivityMessage, VoiceActivityType,
};
pub use server::{CloseMode, ServerControl};
pub use session::{Session, SessionEvent, SessionState};
