//! Verified core logic of the xiaozhi voice-assistant backend: the parsing,
//! normalisation and decision rules of its LLM adapters, logging setup and
//! management console, separated from the network, database and process I/O
//! that surrounds them.

pub mod text;
pub mod json_fields;
pub mod paths;
pub mod llm;
pub mod manager;
pub mod codec;
pub mod logging;
pub mod history;
