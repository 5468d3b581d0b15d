pub mod text;
pub mod json;
pub mod agent_types;
pub mod agent_memory;
pub mod agent_prompts;
pub mod agent_runtime;
pub mod agent_tools;
pub mod platform;
pub mod config;
pub mod paths;
pub mod tool_error;
pub mod todoist;
pub mod workspace;
pub mod browser;
pub mod agent_provider;
pub mod app_state;
pub mod hotkeys;
pub mod insertion;
pub mod recorder;
pub mod asr;
pub mod model_store;
pub mod logging;
pub mod audio;
pub mod commands;
