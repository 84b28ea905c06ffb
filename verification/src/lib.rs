//! Planning core of a command-line client for a function-as-a-service
//! platform backed by a blockchain.
//!
//! Nothing here touches the file system or the network. Every command is
//! described as data: the directory and the files to write, the HTTP
//! requests to send, and what to make of each answer. A thin shell
//! performs those effects and hands the outcomes back.

pub mod action;
pub mod chain;
pub mod cli;
pub mod deploy;
pub mod error;
pub mod invoke;
pub mod local;
pub mod record;
pub mod registry;
pub mod request;
pub mod scaffold;

pub use action::{Action, SupaAction};
pub use chain::verify_action;
pub use cli::{Cli, Commands};
pub use deploy::deploy_action;
pub use invoke::call_action;
pub use registry::{info_action, list_action};
pub use scaffold::create_action;
