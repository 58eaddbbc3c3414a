//! Mocks: an osquery that is not there, and a plugin that does what a test
//! says.
//!
//! Each method of a mock counts its calls, and does what the function in its
//! field says. A field without a function stands for success.

use crate::callback;
use crate::callback::{
    CallFn, CloseFn, DeregisterExtensionFn, ExtensionsFn, OptionsFn, PingFn, PluginCallFn,
    PluginPingFn, PluginRoutesFn, PluginShutdownFn, QueryFn, RegisterExtensionFn,
};
use crate::client::manager;
use crate::client::sealed;
use crate::client::wire;
use crate::client::{ExtensionInfo, ExtensionManager, OptionInfo};
use crate::error;
use crate::error::Error;
use crate::row;
use crate::row::{ExtensionRegistry, ExtensionUuid, PluginRequest, PluginResponse};
use crate::server;
use crate::server::{OsqueryPlugin, RegistryName};
use crate::text_map::TextMap;
use vstd::prelude::*;
use vstd::string::*;

verus! {

broadcast use vstd::string::group_string_axioms;

/// One more call: the count starts anew behind the largest number.
pub open spec fn one_more(count: usize) -> usize {
    if count == usize::MAX {
        0
    } else {
        (count + 1) as usize
    }
}

fn bump(count: usize) -> (r: usize)
    ensures
        r == one_more(count),
{
    if count == usize::MAX {
        0
    } else {
        count + 1
    }
}

fn no_rows() -> (r: PluginResponse)
    ensures
        r.deep_view() == Seq::<row::RowView>::empty(),
{
    Vec::new()
}

/// An [`ExtensionManager`] for tests.
pub struct MockExtensionManager {
    /// What `close` does. Without it, nothing happens.
    pub close_fn: Option<Box<dyn CloseFn>>,
    /// How often `close` was called.
    pub close_call_count: usize,
    /// What `ping` does. Without it, osquery is there.
    pub ping_fn: Option<Box<dyn PingFn>>,
    /// How often `ping` was called.
    pub ping_call_count: usize,
    /// What `call` does. Without it, there are no rows.
    pub call_fn: Option<Box<dyn CallFn>>,
    /// How often `call` was called.
    pub call_call_count: usize,
    /// What `extensions` does. Without it, there are none.
    pub extensions_fn: Option<Box<dyn ExtensionsFn>>,
    /// How often `extensions` was called.
    pub extensions_call_count: usize,
    /// What `options` does. Without it, there are none.
    pub options_fn: Option<Box<dyn OptionsFn>>,
    /// How often `options` was called.
    pub options_call_count: usize,
    /// What `register_extension` does. Without it, the uuid is 1.
    pub register_extension_fn: Option<Box<dyn RegisterExtensionFn>>,
    /// How often `register_extension` was called.
    pub register_extension_call_count: usize,
    /// What `deregister_extension` does. Without it, it is done.
    pub deregister_extension_fn: Option<Box<dyn DeregisterExtensionFn>>,
    /// How often `deregister_extension` was called.
    pub deregister_extension_call_count: usize,
    /// What `query` does. Without it, there are no rows.
    pub query_fn: Option<Box<dyn QueryFn>>,
    /// How often `query` was called.
    pub query_call_count: usize,
    /// What `get_query_columns` does. Without it, there are no rows.
    pub get_query_columns_fn: Option<Box<dyn QueryFn>>,
    /// How often `get_query_columns` was called.
    pub get_query_columns_call_count: usize,
    /// What was asked so far, and what was answered.
    pub log: Ghost<Seq<manager::ClientEvent>>,
}

impl MockExtensionManager {
    /// Whether the functions in the fields can be called.
    pub open spec fn functions_fit(&self) -> bool {
        &&& (self.close_fn matches Some(f) ==> f.fit_for_close())
        &&& (self.ping_fn matches Some(f) ==> f.fit_for_ping())
        &&& (self.call_fn matches Some(f) ==> f.fit_for_call())
        &&& (self.extensions_fn matches Some(f) ==> f.fit_for_extensions())
        &&& (self.options_fn matches Some(f) ==> f.fit_for_options())
        &&& (self.register_extension_fn matches Some(f) ==> f.fit_for_register_extension())
        &&& (self.deregister_extension_fn matches Some(f) ==> f.fit_for_deregister_extension())
        &&& (self.query_fn matches Some(f) ==> f.fit_for_query())
        &&& (self.get_query_columns_fn matches Some(f) ==> f.fit_for_query())
    }

    /// What was asked so far, and what was answered.
    pub open spec fn events(&self) -> Seq<manager::ClientEvent> {
        self.log@
    }

    /// A mock without functions, which was never called.
    #[must_use]
    pub fn new() -> (r: Self)
        ensures
            r.close_fn is None,
            r.close_call_count == 0,
            r.ping_fn is None,
            r.ping_call_count == 0,
            r.call_fn is None,
            r.call_call_count == 0,
            r.extensions_fn is None,
            r.extensions_call_count == 0,
            r.options_fn is None,
            r.options_call_count == 0,
            r.register_extension_fn is None,
            r.register_extension_call_count == 0,
            r.deregister_extension_fn is None,
            r.deregister_extension_call_count == 0,
            r.query_fn is None,
            r.query_call_count == 0,
            r.get_query_columns_fn is None,
            r.get_query_columns_call_count == 0,
            r.functions_fit(),
            r.events() == Seq::<manager::ClientEvent>::empty(),
    {
        MockExtensionManager {
            close_fn: None,
            close_call_count: 0,
            ping_fn: None,
            ping_call_count: 0,
            call_fn: None,
            call_call_count: 0,
            extensions_fn: None,
            extensions_call_count: 0,
            options_fn: None,
            options_call_count: 0,
            register_extension_fn: None,
            register_extension_call_count: 0,
            deregister_extension_fn: None,
            deregister_extension_call_count: 0,
            query_fn: None,
            query_call_count: 0,
            get_query_columns_fn: None,
            get_query_columns_call_count: 0,
            log: Ghost(Seq::empty()),
        }
    }

    /// Whether `close` was called.
    #[must_use]
    pub fn close_invoked(&self) -> (r: bool)
        ensures
            r == (self.close_call_count > 0),
    {
        self.close_call_count > 0
    }

    /// Whether `ping` was called.
    #[must_use]
    pub fn ping_invoked(&self) -> (r: bool)
        ensures
            r == (self.ping_call_count > 0),
    {
        self.ping_call_count > 0
    }

    /// Whether `call` was called.
    #[must_use]
    pub fn call_invoked(&self) -> (r: bool)
        ensures
            r == (self.call_call_count > 0),
    {
        self.call_call_count > 0
    }

    /// Whether `extensions` was called.
    #[must_use]
    pub fn extensions_invoked(&self) -> (r: bool)
        ensures
            r == (self.extensions_call_count > 0),
    {
        self.extensions_call_count > 0
    }

    /// Whether `options` was called.
    #[must_use]
    pub fn options_invoked(&self) -> (r: bool)
        ensures
            r == (self.options_call_count > 0),
    {
        self.options_call_count > 0
    }

    /// Whether `register_extension` was called.
    #[must_use]
    pub fn register_extension_invoked(&self) -> (r: bool)
        ensures
            r == (self.register_extension_call_count > 0),
    {
        self.register_extension_call_count > 0
    }

    /// Whether `deregister_extension` was called.
    #[must_use]
    pub fn deregister_extension_invoked(&self) -> (r: bool)
        ensures
            r == (self.deregister_extension_call_count > 0),
    {
        self.deregister_extension_call_count > 0
    }

    /// Whether `query` was called.
    #[must_use]
    pub fn query_invoked(&self) -> (r: bool)
        ensures
            r == (self.query_call_count > 0),
    {
        self.query_call_count > 0
    }

    /// Whether `get_query_columns` was called.
    #[must_use]
    pub fn get_query_columns_invoked(&self) -> (r: bool)
        ensures
            r == (self.get_query_columns_call_count > 0),
    {
        self.get_query_columns_call_count > 0
    }
}

impl Default for MockExtensionManager {
    fn default() -> (r: Self)
        ensures
            r.close_fn is None,
            r.close_call_count == 0,
            r.ping_fn is None,
            r.ping_call_count == 0,
            r.call_fn is None,
            r.call_call_count == 0,
            r.extensions_fn is None,
            r.extensions_call_count == 0,
            r.options_fn is None,
            r.options_call_count == 0,
            r.register_extension_fn is None,
            r.register_extension_call_count == 0,
            r.deregister_extension_fn is None,
            r.deregister_extension_call_count == 0,
            r.query_fn is None,
            r.query_call_count == 0,
            r.get_query_columns_fn is None,
            r.get_query_columns_call_count == 0,
            r.functions_fit(),
            r.events() == Seq::<manager::ClientEvent>::empty(),
    {
        Self::new()
    }
}

impl sealed::Sealed for MockExtensionManager {

}

impl ExtensionManager for MockExtensionManager {
    open spec fn usable(&self) -> bool {
        self.functions_fit()
    }

    open spec fn asked(&self) -> Seq<manager::ClientEvent> {
        self.events()
    }

    fn close(&mut self)
        ensures
            *final(self) == (MockExtensionManager {
                close_fn: final(self).close_fn,
                close_call_count: one_more(old(self).close_call_count),
                log: final(self).log,
                ..*old(self)
            }),
            callback::same_close(old(self).close_fn, final(self).close_fn),
            old(self).close_fn matches Some(f) ==> f.close_promise(),
    {
        self.close_call_count = bump(self.close_call_count);
        if let Some(f) = self.close_fn.as_mut() {
            f.on_close();
        }
        proof {
            self.log@ = self.log@.push(manager::ClientEvent::Close);
        }
    }

    fn ping(&mut self) -> (r: Result<(), Error>)
        ensures
            *final(self) == (MockExtensionManager {
                ping_fn: final(self).ping_fn,
                ping_call_count: one_more(old(self).ping_call_count),
                log: final(self).log,
                ..*old(self)
            }),
            callback::same_ping(old(self).ping_fn, final(self).ping_fn),
            match old(self).ping_fn {
                Some(f) => f.ping_may_be(wire::plain_outcome(r)),
                None => wire::plain_outcome(r) == Ok::<_, error::ErrorView>(()),
            },
    {
        self.ping_call_count = bump(self.ping_call_count);
        let r: Result<(), Error> = match self.ping_fn.as_mut() {
            Some(f) => f.on_ping(),
            None => Ok(()),
        };
        proof {
            self.log@ = self.log@.push(manager::ClientEvent::Ping(wire::plain_outcome(r)));
        }
        r
    }

    fn call(
        &mut self,
        registry: &str,
        item: &str,
        request: PluginRequest,
    ) -> (r: Result<PluginResponse, Error>)
        ensures
            *final(self) == (MockExtensionManager {
                call_fn: final(self).call_fn,
                call_call_count: one_more(old(self).call_call_count),
                log: final(self).log,
                ..*old(self)
            }),
            callback::same_call(old(self).call_fn, final(self).call_fn),
            match old(self).call_fn {
                Some(f) => f.call_may_be(registry@, item@, request.deep_view(), error::outcome(r)),
                None => error::outcome(r) == Ok::<_, error::ErrorView>(
                    Seq::<row::RowView>::empty(),
                ),
            },
    {
        self.call_call_count = bump(self.call_call_count);
        let r: Result<PluginResponse, Error> = match self.call_fn.as_mut() {
            Some(f) => f.on_call(registry, item, request),
            None => Ok(no_rows()),
        };
        proof {
            self.log@ = self.log@.push(
                manager::ClientEvent::Call {
                    registry: registry@,
                    item: item@,
                    request: request.deep_view(),
                    reply: error::outcome(r),
                },
            );
        }
        r
    }

    fn extensions(&mut self) -> (r: Result<Vec<ExtensionInfo>, Error>)
        ensures
            *final(self) == (MockExtensionManager {
                extensions_fn: final(self).extensions_fn,
                extensions_call_count: one_more(old(self).extensions_call_count),
                log: final(self).log,
                ..*old(self)
            }),
            callback::same_extensions(old(self).extensions_fn, final(self).extensions_fn),
            match old(self).extensions_fn {
                Some(f) => f.extensions_may_be(wire::plain_outcome(r)),
                None => r matches Ok(list) && list@.len() == 0,
            },
    {
        self.extensions_call_count = bump(self.extensions_call_count);
        let r: Result<Vec<ExtensionInfo>, Error> = match self.extensions_fn.as_mut() {
            Some(f) => f.on_extensions(),
            None => Ok(Vec::new()),
        };
        proof {
            self.log@ = self.log@.push(manager::ClientEvent::Extensions(wire::plain_outcome(r)));
        }
        r
    }

    fn options(&mut self) -> (r: Result<TextMap<OptionInfo>, Error>)
        ensures
            *final(self) == (MockExtensionManager {
                options_fn: final(self).options_fn,
                options_call_count: one_more(old(self).options_call_count),
                log: final(self).log,
                ..*old(self)
            }),
            callback::same_options(old(self).options_fn, final(self).options_fn),
            match old(self).options_fn {
                Some(f) => f.options_may_be(error::outcome(r)),
                None => error::outcome(r) == Ok::<_, error::ErrorView>(
                    Map::<Seq<char>, wire::OptionView>::empty(),
                ),
            },
    {
        self.options_call_count = bump(self.options_call_count);
        let r: Result<TextMap<OptionInfo>, Error> = match self.options_fn.as_mut() {
            Some(f) => f.on_options(),
            None => {
                let none: TextMap<OptionInfo> = TextMap::new();
                assert(none.deep_view() =~= Map::<Seq<char>, wire::OptionView>::empty());
                Ok(none)
            },
        };
        proof {
            self.log@ = self.log@.push(manager::ClientEvent::Options(error::outcome(r)));
        }
        r
    }

    fn register_extension(
        &mut self,
        name: &str,
        version: Option<&str>,
        registry: ExtensionRegistry,
    ) -> (r: Result<ExtensionUuid, Error>)
        ensures
            *final(self) == (MockExtensionManager {
                register_extension_fn: final(self).register_extension_fn,
                register_extension_call_count: one_more(old(self).register_extension_call_count),
                log: final(self).log,
                ..*old(self)
            }),
            callback::same_register_extension(
                old(self).register_extension_fn,
                final(self).register_extension_fn,
            ),
            match old(self).register_extension_fn {
                Some(f) => f.register_extension_may_be(
                    name@,
                    version.deep_view(),
                    registry.deep_view(),
                    wire::plain_outcome(r),
                ),
                None => wire::plain_outcome(r) == Ok::<_, error::ErrorView>(1i64),
            },
    {
        self.register_extension_call_count = bump(self.register_extension_call_count);
        let r: Result<ExtensionUuid, Error> = match self.register_extension_fn.as_mut() {
            Some(f) => f.on_register_extension(name, version, registry),
            None => Ok(1),
        };
        proof {
            self.log@ = self.log@.push(
                manager::ClientEvent::Register {
                    name: name@,
                    version: version.deep_view(),
                    offered: registry.deep_view(),
                    uuid: wire::plain_outcome(r),
                },
            );
        }
        r
    }

    fn deregister_extension(&mut self, uuid: ExtensionUuid) -> (r: Result<(), Error>)
        ensures
            *final(self) == (MockExtensionManager {
                deregister_extension_fn: final(self).deregister_extension_fn,
                deregister_extension_call_count: one_more(
                    old(self).deregister_extension_call_count,
                ),
                log: final(self).log,
                ..*old(self)
            }),
            callback::same_deregister_extension(
                old(self).deregister_extension_fn,
                final(self).deregister_extension_fn,
            ),
            match old(self).deregister_extension_fn {
                Some(f) => f.deregister_extension_may_be(uuid, wire::plain_outcome(r)),
                None => wire::plain_outcome(r) == Ok::<_, error::ErrorView>(()),
            },
    {
        self.deregister_extension_call_count = bump(self.deregister_extension_call_count);
        let r: Result<(), Error> = match self.deregister_extension_fn.as_mut() {
            Some(f) => f.on_deregister_extension(uuid),
            None => Ok(()),
        };
        proof {
            self.log@ = self.log@.push(
                manager::ClientEvent::Deregister { from: uuid, done: wire::plain_outcome(r) },
            );
        }
        r
    }

    fn query(&mut self, sql: &str) -> (r: Result<PluginResponse, Error>)
        ensures
            *final(self) == (MockExtensionManager {
                query_fn: final(self).query_fn,
                query_call_count: one_more(old(self).query_call_count),
                log: final(self).log,
                ..*old(self)
            }),
            callback::same_query(old(self).query_fn, final(self).query_fn),
            match old(self).query_fn {
                Some(f) => f.query_may_be(sql@, error::outcome(r)),
                None => error::outcome(r) == Ok::<_, error::ErrorView>(
                    Seq::<row::RowView>::empty(),
                ),
            },
    {
        self.query_call_count = bump(self.query_call_count);
        let r: Result<PluginResponse, Error> = match self.query_fn.as_mut() {
            Some(f) => f.on_query(sql),
            None => Ok(no_rows()),
        };
        proof {
            self.log@ = self.log@.push(
                manager::ClientEvent::Query { sql: sql@, rows: error::outcome(r) },
            );
        }
        r
    }

    fn get_query_columns(&mut self, sql: &str) -> (r: Result<PluginResponse, Error>)
        ensures
            *final(self) == (MockExtensionManager {
                get_query_columns_fn: final(self).get_query_columns_fn,
                get_query_columns_call_count: one_more(old(self).get_query_columns_call_count),
                log: final(self).log,
                ..*old(self)
            }),
            callback::same_query(old(self).get_query_columns_fn, final(self).get_query_columns_fn),
            match old(self).get_query_columns_fn {
                Some(f) => f.query_may_be(sql@, error::outcome(r)),
                None => error::outcome(r) == Ok::<_, error::ErrorView>(
                    Seq::<row::RowView>::empty(),
                ),
            },
    {
        self.get_query_columns_call_count = bump(self.get_query_columns_call_count);
        let r: Result<PluginResponse, Error> = match self.get_query_columns_fn.as_mut() {
            Some(f) => f.on_query(sql),
            None => Ok(no_rows()),
        };
        proof {
            self.log@ = self.log@.push(
                manager::ClientEvent::QueryColumns { of: sql@, columns: error::outcome(r) },
            );
        }
        r
    }
}

/// A plugin for tests.
pub struct MockPlugin {
    /// The plugin's name.
    pub name: String,
    /// The registry that the plugin belongs to.
    pub registry_name: RegistryName,
    /// What `call` does. Without it, there are no rows.
    pub call_fn: Option<Box<dyn PluginCallFn>>,
    /// How often `call` was called.
    pub call_call_count: usize,
    /// What `routes` does. Without it, there are none.
    pub routes_fn: Option<Box<dyn PluginRoutesFn>>,
    /// How often `routes` was called.
    pub routes_call_count: usize,
    /// What `ping` does. Without it, the plugin is well.
    pub ping_fn: Option<Box<dyn PluginPingFn>>,
    /// How often `ping` was called.
    pub ping_call_count: usize,
    /// What `shutdown` does. Without it, nothing happens.
    pub shutdown_fn: Option<Box<dyn PluginShutdownFn>>,
    /// How often `shutdown` was called.
    pub shutdown_call_count: usize,
    /// What was asked so far, and what was answered.
    pub log: Ghost<Seq<server::PluginEvent>>,
}

impl MockPlugin {
    /// The plugin's name.
    pub open spec fn called(&self) -> Seq<char> {
        self.name@
    }

    /// The registry that the plugin belongs to.
    pub open spec fn belongs_to(&self) -> RegistryName {
        self.registry_name
    }

    /// What was asked so far, and what was answered.
    pub open spec fn events(&self) -> Seq<server::PluginEvent> {
        self.log@
    }

    /// Whether the functions in the fields can be called.
    pub open spec fn functions_fit(&self) -> bool {
        &&& (self.call_fn matches Some(f) ==> f.fit_for_plugin_call())
        &&& (self.routes_fn matches Some(f) ==> f.fit_for_plugin_routes())
        &&& (self.ping_fn matches Some(f) ==> f.fit_for_plugin_ping())
        &&& (self.shutdown_fn matches Some(f) ==> f.fit_for_plugin_shutdown())
    }

    /// A mock without functions, which was never called.
    #[must_use]
    pub fn new(name: &str, registry_name: RegistryName) -> (r: Self)
        ensures
            r.called() == name@,
            r.belongs_to() == registry_name,
            r.call_fn is None,
            r.routes_fn is None,
            r.ping_fn is None,
            r.shutdown_fn is None,
            r.call_call_count == 0,
            r.routes_call_count == 0,
            r.ping_call_count == 0,
            r.shutdown_call_count == 0,
            r.functions_fit(),
            r.events() == Seq::<server::PluginEvent>::empty(),
    {
        MockPlugin {
            name: name.to_string(),
            registry_name,
            call_fn: None,
            call_call_count: 0,
            routes_fn: None,
            routes_call_count: 0,
            ping_fn: None,
            ping_call_count: 0,
            shutdown_fn: None,
            shutdown_call_count: 0,
            log: Ghost(Seq::empty()),
        }
    }

    /// Whether `call` was called.
    #[must_use]
    pub fn call_invoked(&self) -> (r: bool)
        ensures
            r == (self.call_call_count > 0),
    {
        self.call_call_count > 0
    }

    /// Whether `routes` was called.
    #[must_use]
    pub fn routes_invoked(&self) -> (r: bool)
        ensures
            r == (self.routes_call_count > 0),
    {
        self.routes_call_count > 0
    }

    /// Whether `ping` was called.
    #[must_use]
    pub fn ping_invoked(&self) -> (r: bool)
        ensures
            r == (self.ping_call_count > 0),
    {
        self.ping_call_count > 0
    }

    /// Whether `shutdown` was called.
    #[must_use]
    pub fn shutdown_invoked(&self) -> (r: bool)
        ensures
            r == (self.shutdown_call_count > 0),
    {
        self.shutdown_call_count > 0
    }
}

impl OsqueryPlugin for MockPlugin {
    open spec fn ready(&self) -> bool {
        self.functions_fit()
    }

    open spec fn plugin_name(&self) -> Seq<char> {
        self.called()
    }

    open spec fn registry(&self) -> RegistryName {
        self.belongs_to()
    }

    open spec fn history(&self) -> Seq<server::PluginEvent> {
        self.events()
    }

    open spec fn health_may_be(&self, reply: Result<(), error::ErrorView>) -> bool {
        match self.ping_fn {
            Some(f) => f.plugin_ping_may_be(reply),
            None => reply is Ok,
        }
    }

    open spec fn may_answer(
        &self,
        request: row::RowView,
        reply: Result<Seq<row::RowView>, error::ErrorView>,
    ) -> bool {
        match self.call_fn {
            Some(f) => f.plugin_call_may_be(request, reply),
            None => reply == Ok::<_, error::ErrorView>(Seq::<row::RowView>::empty()),
        }
    }

    open spec fn may_offer(&self, rows: Seq<row::RowView>) -> bool {
        match self.routes_fn {
            Some(f) => f.plugin_routes_may_be(rows),
            None => rows == Seq::<row::RowView>::empty(),
        }
    }

    open spec fn steady(&self) -> bool {
        true
    }

    fn name(&self) -> (r: &str) {
        self.name.as_str()
    }

    fn registry_name(&self) -> (r: RegistryName) {
        self.registry_name
    }

    fn routes(&mut self) -> (r: PluginResponse)
        ensures
            *final(self) == (MockPlugin {
                routes_fn: final(self).routes_fn,
                routes_call_count: one_more(old(self).routes_call_count),
                log: final(self).log,
                ..*old(self)
            }),
            callback::same_plugin_routes(old(self).routes_fn, final(self).routes_fn),
            match old(self).routes_fn {
                Some(f) => f.plugin_routes_may_be(r.deep_view()),
                None => r.deep_view() == Seq::<row::RowView>::empty(),
            },
    {
        self.routes_call_count = bump(self.routes_call_count);
        let r: PluginResponse = match self.routes_fn.as_mut() {
            Some(f) => f.on_plugin_routes(),
            None => no_rows(),
        };
        proof {
            self.log@ = self.log@.push(server::PluginEvent::Routes(r.deep_view()));
        }
        r
    }

    fn ping(&mut self) -> (r: Result<(), Error>)
        ensures
            *final(self) == (MockPlugin {
                ping_fn: final(self).ping_fn,
                ping_call_count: one_more(old(self).ping_call_count),
                log: final(self).log,
                ..*old(self)
            }),
            callback::same_plugin_ping(old(self).ping_fn, final(self).ping_fn),
            match old(self).ping_fn {
                Some(f) => f.plugin_ping_may_be(wire::plain_outcome(r)),
                None => wire::plain_outcome(r) == Ok::<_, error::ErrorView>(()),
            },
    {
        self.ping_call_count = bump(self.ping_call_count);
        match self.ping_fn.as_mut() {
            Some(f) => f.on_plugin_ping(),
            None => Ok(()),
        }
    }

    fn call(&mut self, req: PluginRequest) -> (r: Result<PluginResponse, Error>)
        ensures
            *final(self) == (MockPlugin {
                call_fn: final(self).call_fn,
                call_call_count: one_more(old(self).call_call_count),
                log: final(self).log,
                ..*old(self)
            }),
            callback::same_plugin_call(old(self).call_fn, final(self).call_fn),
            match old(self).call_fn {
                Some(f) => f.plugin_call_may_be(req.deep_view(), error::outcome(r)),
                None => error::outcome(r) == Ok::<_, error::ErrorView>(
                    Seq::<row::RowView>::empty(),
                ),
            },
    {
        self.call_call_count = bump(self.call_call_count);
        let r: Result<PluginResponse, Error> = match self.call_fn.as_mut() {
            Some(f) => f.on_plugin_call(req),
            None => Ok(no_rows()),
        };
        proof {
            self.log@ = self.log@.push(
                server::PluginEvent::Call { request: req.deep_view(), reply: error::outcome(r) },
            );
        }
        r
    }

    fn shutdown(&mut self)
        ensures
            *final(self) == (MockPlugin {
                shutdown_fn: final(self).shutdown_fn,
                shutdown_call_count: one_more(old(self).shutdown_call_count),
                log: final(self).log,
                ..*old(self)
            }),
            callback::same_plugin_shutdown(old(self).shutdown_fn, final(self).shutdown_fn),
            old(self).shutdown_fn matches Some(f) ==> f.plugin_shutdown_promise(),
    {
        self.shutdown_call_count = bump(self.shutdown_call_count);
        if let Some(f) = self.shutdown_fn.as_mut() {
            f.on_plugin_shutdown();
        }
        proof {
            self.log@ = self.log@.push(server::PluginEvent::Shutdown);
        }
    }
}

/// Each call counts one more, up to the largest number, behind which the count
/// starts anew.
pub proof fn calls_are_counted(count: usize)
    ensures
        count < usize::MAX ==> one_more(count) == count + 1,
        one_more(usize::MAX) == 0,
{
}

/// A mock plugin answers, offers and says of its health what its functions
/// say. Without them it has no rows, no routes and nothing to complain of.
pub proof fn mock_plugins_do_what_they_are_told(
    plugin: MockPlugin,
    health: Result<(), error::ErrorView>,
    rows: Seq<row::RowView>,
    request: row::RowView,
    reply: Result<Seq<row::RowView>, error::ErrorView>,
)
    ensures
        plugin.plugin_name() == plugin.name@,
        plugin.registry() == plugin.registry_name,
        plugin.history() == plugin.log@,
        plugin.ping_fn is None ==> (plugin.health_may_be(health) <==> health is Ok),
        plugin.ping_fn is Some ==> plugin.health_may_be(health)
            == plugin.ping_fn->0.plugin_ping_may_be(health),
        plugin.routes_fn is None ==> (plugin.may_offer(rows) <==> rows.len() == 0),
        plugin.routes_fn is Some ==> plugin.may_offer(rows)
            == plugin.routes_fn->0.plugin_routes_may_be(rows),
        plugin.call_fn is None ==> (plugin.may_answer(request, reply) <==> reply == Ok::<
            _,
            error::ErrorView,
        >(Seq::<row::RowView>::empty())),
        plugin.call_fn is Some ==> plugin.may_answer(request, reply)
            == plugin.call_fn->0.plugin_call_may_be(request, reply),
{
    if rows.len() == 0 {
        assert(rows =~= Seq::<row::RowView>::empty());
    }
}

/// A mock client keeps what it was asked, and is usable when its functions can
/// be called.
pub proof fn mock_clients_keep_what_they_were_asked(client: MockExtensionManager)
    ensures
        client.asked() == client.log@,
        client.usable() == client.functions_fit(),
{
}

} // verus!
