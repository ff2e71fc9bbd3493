//! Minecraft server core taxonomy, flavor resolution, startup scanning,
//! configuration documents, lifecycle decisions and log/metric parsing.

pub mod text;
pub mod taxonomy;
pub mod flavor;
pub mod paths;
pub mod startup_scan;
pub mod document;
pub mod discovery;
pub mod state;
pub mod flow;
pub mod launch_plan;
pub mod server_info;
pub mod metrics;
pub mod probe;
pub mod process_tree;
