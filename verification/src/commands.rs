//! The commands of the tool, each as a workflow.

pub mod add_entry_command;
pub mod add_zone_command;
pub mod command_handler;
pub mod list_zones_command;
pub mod query_zone_command;
pub mod remove_entry_command;
pub mod remove_zone_command;
pub mod simulation;
pub mod workflow;
