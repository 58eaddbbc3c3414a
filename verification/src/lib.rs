//! Building osquery extensions: tables, writable tables and config providers
//! that osquery reaches through its extension socket, and a client's side of
//! the same conversation.

pub mod callback;
pub mod client;
pub mod error;
pub mod json;
pub mod mock;
pub mod number;
pub mod plugin;
pub mod row;
pub mod server;
pub mod text;
pub mod text_map;

pub use client::{ExtensionInfo, ExtensionManager, OptionInfo};
pub use error::Error;
pub use plugin::config::ConfigPlugin;
pub use plugin::table::{
    ColumnDefinition, ColumnType, ColumnValues, Constraint, ConstraintList, DeleteRequest,
    InsertRequest, InvalidOperator, MutationResult, Operator, OsqueryTableSpec, Platform,
    QueryContext, Table, TablePlugin, UpdateRequest, WritableTable, WritableTablePlugin,
};
pub use row::{ExtensionRegistry, ExtensionUuid, PluginRequest, PluginResponse};
pub use server::{
    ExtensionManagerServer, ExtensionManagerServerBuilder, OsqueryPlugin, RegistryName,
    ShutdownHandle,
};
