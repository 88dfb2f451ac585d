pub mod assistant;
pub mod command;
pub mod context;
pub mod conversation;
pub mod file_tool;
pub mod gpt_tool;
pub mod json;
pub mod json_text;
pub mod pipeline;
pub mod registry;
pub mod shell_tool;
pub mod snap_tool;
pub mod text;
pub mod tool_function;
pub mod types;
pub mod wire;
