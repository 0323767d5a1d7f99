//! Client library for the Kiro assistant service: the AWS event-stream
//! framing of its streaming replies, the request and error model of its
//! API, the device-authorization sign-in flow and the provider state.

pub mod text;
pub mod event_stream;
pub mod error;
pub mod json;
pub mod user_context;
pub mod tools;
pub mod chat;
pub mod chat_stream;
pub mod endpoints;
pub mod models;
pub mod token;
pub mod device_flow;
pub mod storage;
pub mod provider;
pub mod completion;
