//! Language-model adapters: streaming formats, provider selection and
//! shared request helpers.

pub mod llm_common;
pub mod message;
pub mod sse_stream;
pub mod factory;
pub mod openai_stream;
pub mod provider;
pub mod dify;
pub mod coze;
pub mod openai;
pub mod openai_request;
