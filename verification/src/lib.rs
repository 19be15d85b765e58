//! Mock backend data for developing an assistant UI without a live backend.
//!
//! The crate offers two things: constant fixture payloads (a configuration
//! document, a system-information document, and a success acknowledgement)
//! and a mock response streamer that splits a canned acknowledgement of a
//! query into an ordered sequence of text fragments, simulating a
//! token-by-token generation stream.

pub mod chat;
pub mod fixtures;

pub use chat::mock_chat_response;
pub use fixtures::get_mock_config;
pub use fixtures::get_mock_system_info;
pub use fixtures::mock_set_config_success;
