//! Management console: knowledge bases, devices, roles, MCP services and
//! account handling.

pub mod knowledge_upload;
pub mod knowledge_sync;
pub mod knowledge_search;
pub mod records;
pub mod requests;
pub mod captcha;
pub mod auth;
pub mod access;
pub mod mcp;
pub mod knowledge_global;
pub mod mcp_imported_merge;
pub mod device_binding;
pub mod config_rules;
pub mod allowances;
pub mod voice_clone;
pub mod simulator;
pub mod chat_settings;
pub mod config_tests;
pub mod summaries;
pub mod imported_services;
pub mod quotas;
pub mod activation;
pub mod paging;
pub mod chat_history;
pub mod knowledge_bases;
pub mod openclaw;
