//! The conversation core of `tog`: the portable, append-only record of a
//! conversation, its validation, the stream decoding of the OpenAI driver,
//! the layout of the event log, and the decisions of a conversation turn.
pub mod text;
pub mod identifier;
pub mod json;
pub mod conversation;
pub mod model_driver;
pub mod openai;
pub mod persistence;
pub mod command_line;
pub mod agent_run;
pub mod turn;
