//! osquery's side of the conversation, as an extension sees it.

pub mod manager;
pub mod sealed;
pub mod waiting;
pub mod wire;

pub use manager::{ExtensionInfo, ExtensionManager, OptionInfo};
