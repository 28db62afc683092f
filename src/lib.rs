//! A todo assistant that lets a language model manage a task table through
//! declared tools: the conversation model, the tool catalogue, the decoder
//! of model replies and the decisions of the dispatch loop.
pub mod ai;
pub mod chat_request;
pub mod commands;
pub mod dispatch;
pub mod logger;
pub mod message;
pub mod options;
pub mod request;
pub mod task;
pub mod text;
pub mod tool;
pub mod tool_property;
pub mod wire;
