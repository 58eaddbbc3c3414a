use crate::client::sealed;
use crate::client::wire;
use crate::error;
use crate::error::Error;
use crate::row;
use crate::row::{ExtensionRegistry, ExtensionUuid, PluginRequest, PluginResponse};
use crate::text_map::TextMap;
use vstd::prelude::*;
use vstd::string::*;

verus! {

/// A registered extension, as osquery reports it.
#[derive(Debug, Eq, PartialEq)]
#[non_exhaustive]
pub struct ExtensionInfo {
    /// The number by which osquery knows the extension.
    pub uuid: ExtensionUuid,
    /// The extension's name.
    pub name: String,
    /// The extension's version.
    pub version: String,
    /// The version of the osquery SDK that the extension was built with.
    pub sdk_version: String,
    /// The oldest version of the osquery SDK that the extension works with.
    pub min_sdk_version: String,
}

/// An option of osquery.
#[derive(Debug, Eq, PartialEq)]
#[non_exhaustive]
pub struct OptionInfo {
    /// Its value.
    pub value: String,
    /// The value that it has by default.
    pub default_value: String,
    /// The name of its type.
    pub option_type: String,
}

impl Clone for ExtensionInfo {
    fn clone(&self) -> (r: Self)
        ensures
            r.uuid == self.uuid,
            r.name@ == self.name@,
            r.version@ == self.version@,
            r.sdk_version@ == self.sdk_version@,
            r.min_sdk_version@ == self.min_sdk_version@,
    {
        ExtensionInfo {
            uuid: self.uuid,
            name: self.name.clone(),
            version: self.version.clone(),
            sdk_version: self.sdk_version.clone(),
            min_sdk_version: self.min_sdk_version.clone(),
        }
    }
}

impl Clone for OptionInfo {
    fn clone(&self) -> (r: Self)
        ensures
            r.deep_view() == self.deep_view(),
    {
        OptionInfo {
            value: self.value.clone(),
            default_value: self.default_value.clone(),
            option_type: self.option_type.clone(),
        }
    }
}

/// An extension's registry in terms of its characters.
pub type RegistryView = Map<Seq<char>, Map<Seq<char>, Seq<row::RowView>>>;

/// Something that was asked of osquery, with its answer.
pub enum ClientEvent {
    Close,
    Ping(Result<(), error::ErrorView>),
    Call {
        registry: Seq<char>,
        item: Seq<char>,
        request: row::RowView,
        reply: Result<Seq<row::RowView>, error::ErrorView>,
    },
    Extensions(Result<Vec<ExtensionInfo>, error::ErrorView>),
    Options(Result<Map<Seq<char>, wire::OptionView>, error::ErrorView>),
    Register {
        name: Seq<char>,
        version: Option<Seq<char>>,
        offered: RegistryView,
        uuid: Result<ExtensionUuid, error::ErrorView>,
    },
    Deregister { from: ExtensionUuid, done: Result<(), error::ErrorView> },
    Query { sql: Seq<char>, rows: Result<Seq<row::RowView>, error::ErrorView> },
    QueryColumns { of: Seq<char>, columns: Result<Seq<row::RowView>, error::ErrorView> },
}

/// An extension manager: the way to the osquery process.
///
/// Types of this project implement it, marked by [`sealed::Sealed`].
pub trait ExtensionManager: sealed::Sealed + Send {
    /// Whether the manager is fit for use.
    open spec fn usable(&self) -> bool {
        true
    }

    /// What was asked of osquery so far, and what it answered.
    open spec fn asked(&self) -> Seq<ClientEvent> {
        Seq::empty()
    }

    /// Closes the connection. Other calls may fail from then on.
    fn close(&mut self)
        requires
            old(self).usable(),
        ensures
            final(self).usable(),
            final(self).asked() == old(self).asked().push(ClientEvent::Close),
    ;

    /// Asks whether osquery is there.
    fn ping(&mut self) -> (r: Result<(), Error>)
        requires
            old(self).usable(),
        ensures
            final(self).usable(),
            final(self).asked() == old(self).asked().push(
                ClientEvent::Ping(wire::plain_outcome(r)),
            ),
    ;

    /// Calls a plugin of an extension, or of osquery itself.
    fn call(&mut self, registry: &str, item: &str, request: PluginRequest) -> (r: Result<
        PluginResponse,
        Error,
    >)
        requires
            old(self).usable(),
        ensures
            final(self).usable(),
            final(self).asked() == old(self).asked().push(
                ClientEvent::Call {
                    registry: registry@,
                    item: item@,
                    request: request.deep_view(),
                    reply: error::outcome(r),
                },
            ),
    ;

    /// Asks for the registered extensions.
    fn extensions(&mut self) -> (r: Result<Vec<ExtensionInfo>, Error>)
        requires
            old(self).usable(),
        ensures
            final(self).usable(),
            final(self).asked() == old(self).asked().push(
                ClientEvent::Extensions(wire::plain_outcome(r)),
            ),
    ;

    /// Asks for osquery's options.
    fn options(&mut self) -> (r: Result<TextMap<OptionInfo>, Error>)
        requires
            old(self).usable(),
        ensures
            final(self).usable(),
            final(self).asked() == old(self).asked().push(ClientEvent::Options(error::outcome(r))),
    ;

    /// Registers an extension and its plugins; the answer is the extension's
    /// uuid.
    fn register_extension(
        &mut self,
        name: &str,
        version: Option<&str>,
        registry: ExtensionRegistry,
    ) -> (r: Result<ExtensionUuid, Error>)
        requires
            old(self).usable(),
        ensures
            final(self).usable(),
            final(self).asked() == old(self).asked().push(
                ClientEvent::Register {
                    name: name@,
                    version: version.deep_view(),
                    offered: registry.deep_view(),
                    uuid: wire::plain_outcome(r),
                },
            ),
    ;

    /// Takes an extension and its plugins away again.
    fn deregister_extension(&mut self, uuid: ExtensionUuid) -> (r: Result<(), Error>)
        requires
            old(self).usable(),
        ensures
            final(self).usable(),
            final(self).asked() == old(self).asked().push(
                ClientEvent::Deregister { from: uuid, done: wire::plain_outcome(r) },
            ),
    ;

    /// Runs a query.
    fn query(&mut self, sql: &str) -> (r: Result<PluginResponse, Error>)
        requires
            old(self).usable(),
        ensures
            final(self).usable(),
            final(self).asked() == old(self).asked().push(
                ClientEvent::Query { sql: sql@, rows: error::outcome(r) },
            ),
    ;

    /// Asks for the columns of a query: rows from a column's name to its type.
    fn get_query_columns(&mut self, sql: &str) -> (r: Result<PluginResponse, Error>)
        requires
            old(self).usable(),
        ensures
            final(self).usable(),
            final(self).asked() == old(self).asked().push(
                ClientEvent::QueryColumns { of: sql@, columns: error::outcome(r) },
            ),
    ;
}

} // verus!
