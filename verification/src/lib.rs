//! Provider-aware routing of messages between collaborating agents.

pub mod agent_control;
pub mod config;
pub mod followup_task;
pub mod message_tool;
pub mod model_provider_info;
pub mod multi_agent_message;
pub mod protocol;
pub mod subagent_model_provider;
pub mod surface;
pub mod text;
pub mod tool_context;
