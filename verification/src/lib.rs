//! Verified core of an agent that turns a chat request into a generated web application.
pub mod agent;
pub mod config;
pub mod cors;
pub mod json_repair;
pub mod llm;
pub mod nodes;
pub mod prompts;
pub mod provider;
pub mod runner;
pub mod schema;
pub mod state;
pub mod str_map;
pub mod structured;
pub mod text;
