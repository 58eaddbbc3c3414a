//! Functions that stand in for the behaviour of a mock.

use crate::client::manager;
use crate::client::wire;
use crate::client::{ExtensionInfo, OptionInfo};
use crate::error;
use crate::error::Error;
use crate::row;
use crate::row::{ExtensionRegistry, ExtensionUuid, PluginRequest, PluginResponse};
use crate::text_map::TextMap;
use vstd::prelude::*;
use vstd::string::*;

verus! {

/// Something that closes a client: any function of this shape.
pub trait CloseFn: Send {
    /// Whether it can be called.
    spec fn fit_for_close(&self) -> bool;

    /// What it promises of a call, as its contract has it.
    spec fn close_promise(&self) -> bool;

    /// Calls it.
    fn on_close(&mut self)
        requires
            old(self).fit_for_close(),
        ensures
            final(self).fit_for_close(),
            final(self).close_promise() == old(self).close_promise(),
            old(self).close_promise(),
    ;
}

/// Whether there is such a function exactly where there was one, and it
/// promises what it promised before.
pub open spec fn same_close(
    before: Option<Box<dyn CloseFn>>,
    after: Option<Box<dyn CloseFn>>,
) -> bool {
    &&& after is Some <==> before is Some
    &&& after is Some ==> after->0.close_promise() == before->0.close_promise()
}

impl<F: FnMut() + Send> CloseFn for F {
    open spec fn fit_for_close(&self) -> bool {
        self.requires(())
    }

    open spec fn close_promise(&self) -> bool {
        self.ensures((), ())
    }

    fn on_close(&mut self) {
        self()
    }
}

/// A function fits here when it can be called. It promises what its contract
/// promises.
pub proof fn close_by_function<F: FnMut() + Send>(f: F)
    ensures
        f.fit_for_close() == f.requires(()),
        f.close_promise() == f.ensures((), ()),
{
}

/// Something that answers a ping: any function of this shape.
pub trait PingFn: Send {
    /// Whether it can be called.
    spec fn fit_for_ping(&self) -> bool;

    /// Whether it may answer `reply`.
    spec fn ping_may_be(&self, reply: Result<(), error::ErrorView>) -> bool;

    /// Calls it.
    fn on_ping(&mut self) -> (r: Result<(), Error>)
        requires
            old(self).fit_for_ping(),
        ensures
            final(self).fit_for_ping(),
            forall|reply: Result<(), error::ErrorView>| #[trigger]
                final(self).ping_may_be(reply) == old(self).ping_may_be(reply),
            old(self).ping_may_be(wire::plain_outcome(r)),
    ;
}

/// Whether there is such a function exactly where there was one, and it may
/// answer what it might answer before.
pub open spec fn same_ping(
    before: Option<Box<dyn PingFn>>,
    after: Option<Box<dyn PingFn>>,
) -> bool {
    &&& after is Some <==> before is Some
    &&& after is Some ==> forall|reply: Result<(), error::ErrorView>| #[trigger]
        after->0.ping_may_be(reply) == before->0.ping_may_be(reply)
}

impl<F: FnMut() -> Result<(), Error> + Send> PingFn for F {
    open spec fn fit_for_ping(&self) -> bool {
        self.requires(())
    }

    open spec fn ping_may_be(&self, reply: Result<(), error::ErrorView>) -> bool {
        exists|made: Result<(), Error>|
            {
                &&& #[trigger] self.ensures((), made)
                &&& wire::plain_outcome(made) == reply
            }
    }

    fn on_ping(&mut self) -> (r: Result<(), Error>) {
        self()
    }
}

/// A function fits here when it can be called. It may answer what it may return.
pub proof fn ping_by_function<F: FnMut() -> Result<(), Error> + Send>(f: F)
    ensures
        f.fit_for_ping() == f.requires(()),
        forall|reply: Result<(), error::ErrorView>|
            #[trigger] f.ping_may_be(reply) == (exists|made: Result<(), Error>|
            {
                &&& #[trigger] f.ensures((), made)
                &&& wire::plain_outcome(made) == reply
            }),
{
}

/// Something that answers a call: any function of this shape.
pub trait CallFn: Send {
    /// Whether it can be called.
    spec fn fit_for_call(&self) -> bool;

    /// Whether it may answer `reply`.
    spec fn call_may_be(
        &self,
        registry: Seq<char>,
        item: Seq<char>,
        request: row::RowView,
        reply: Result<Seq<row::RowView>, error::ErrorView>,
    ) -> bool;

    /// Calls it.
    fn on_call(
        &mut self,
        registry: &str,
        item: &str,
        request: PluginRequest,
    ) -> (r: Result<PluginResponse, Error>)
        requires
            old(self).fit_for_call(),
        ensures
            final(self).fit_for_call(),
            forall|
                registry: Seq<char>,
                item: Seq<char>,
                request: row::RowView,
                reply: Result<Seq<row::RowView>, error::ErrorView>,
            | #[trigger]
                final(self).call_may_be(
                    registry,
                    item,
                    request,
                    reply,
                ) == old(self).call_may_be(
                    registry,
                    item,
                    request,
                    reply,
                ),
            old(self).call_may_be(registry@, item@, request.deep_view(), error::outcome(r)),
    ;
}

/// Whether there is such a function exactly where there was one, and it may
/// answer what it might answer before.
pub open spec fn same_call(
    before: Option<Box<dyn CallFn>>,
    after: Option<Box<dyn CallFn>>,
) -> bool {
    &&& after is Some <==> before is Some
    &&& after is Some ==> forall|
        registry: Seq<char>,
        item: Seq<char>,
        request: row::RowView,
        reply: Result<Seq<row::RowView>, error::ErrorView>,
    | #[trigger]
        after->0.call_may_be(
            registry,
            item,
            request,
            reply,
        ) == before->0.call_may_be(
            registry,
            item,
            request,
            reply,
        )
}

impl<F: FnMut(&str, &str, PluginRequest) -> Result<PluginResponse, Error> + Send> CallFn for F {
    open spec fn fit_for_call(&self) -> bool {
        forall|
            registry: &str,
            item: &str,
            request: PluginRequest,
        | #[trigger] self.requires((registry, item, request))
    }

    open spec fn call_may_be(
        &self,
        registry: Seq<char>,
        item: Seq<char>,
        request: row::RowView,
        reply: Result<Seq<row::RowView>, error::ErrorView>,
    ) -> bool {
        exists|
            given_registry: &str,
            given_item: &str,
            given_request: PluginRequest,
            made: Result<PluginResponse, Error>,
        |
            {
                &&& given_registry@ == registry
                &&& given_item@ == item
                &&& given_request.deep_view() == request
                &&& #[trigger] self.ensures((given_registry, given_item, given_request), made)
                &&& error::outcome(made) == reply
            }
    }

    fn on_call(
        &mut self,
        registry: &str,
        item: &str,
        request: PluginRequest,
    ) -> (r: Result<PluginResponse, Error>) {
        self(registry, item, request)
    }
}

/// A function fits here when it can be called. It may answer what it may return.
pub proof fn call_by_function<
    F: FnMut(&str, &str, PluginRequest) -> Result<PluginResponse, Error> + Send,
>(f: F)
    ensures
        f.fit_for_call() == (forall|registry: &str, item: &str, request: PluginRequest|
            #[trigger] f.requires((registry, item, request))),
        forall|
            registry: Seq<char>,
            item: Seq<char>,
            request: row::RowView,
            reply: Result<Seq<row::RowView>, error::ErrorView>,
        |
            #[trigger] f.call_may_be(registry, item, request, reply) == (exists|
                given_registry: &str,
                given_item: &str,
                given_request: PluginRequest,
                made: Result<PluginResponse, Error>,
            |
            {
                &&& given_registry@ == registry
                &&& given_item@ == item
                &&& given_request.deep_view() == request
                &&& #[trigger] f.ensures((given_registry, given_item, given_request), made)
                &&& error::outcome(made) == reply
            }),
{
}

/// Something that lists extensions: any function of this shape.
pub trait ExtensionsFn: Send {
    /// Whether it can be called.
    spec fn fit_for_extensions(&self) -> bool;

    /// Whether it may answer `reply`.
    spec fn extensions_may_be(&self, reply: Result<Vec<ExtensionInfo>, error::ErrorView>) -> bool;

    /// Calls it.
    fn on_extensions(&mut self) -> (r: Result<Vec<ExtensionInfo>, Error>)
        requires
            old(self).fit_for_extensions(),
        ensures
            final(self).fit_for_extensions(),
            forall|reply: Result<Vec<ExtensionInfo>, error::ErrorView>| #[trigger]
                final(self).extensions_may_be(reply) == old(self).extensions_may_be(reply),
            old(self).extensions_may_be(wire::plain_outcome(r)),
    ;
}

/// Whether there is such a function exactly where there was one, and it may
/// answer what it might answer before.
pub open spec fn same_extensions(
    before: Option<Box<dyn ExtensionsFn>>,
    after: Option<Box<dyn ExtensionsFn>>,
) -> bool {
    &&& after is Some <==> before is Some
    &&& after is Some ==> forall|reply: Result<Vec<ExtensionInfo>, error::ErrorView>| #[trigger]
        after->0.extensions_may_be(reply) == before->0.extensions_may_be(reply)
}

impl<F: FnMut() -> Result<Vec<ExtensionInfo>, Error> + Send> ExtensionsFn for F {
    open spec fn fit_for_extensions(&self) -> bool {
        self.requires(())
    }

    open spec fn extensions_may_be(
        &self,
        reply: Result<Vec<ExtensionInfo>, error::ErrorView>,
    ) -> bool {
        exists|made: Result<Vec<ExtensionInfo>, Error>|
            {
                &&& #[trigger] self.ensures((), made)
                &&& wire::plain_outcome(made) == reply
            }
    }

    fn on_extensions(&mut self) -> (r: Result<Vec<ExtensionInfo>, Error>) {
        self()
    }
}

/// A function fits here when it can be called. It may answer what it may return.
pub proof fn extensions_by_function<F: FnMut() -> Result<Vec<ExtensionInfo>, Error> + Send>(f: F)
    ensures
        f.fit_for_extensions() == f.requires(()),
        forall|reply: Result<Vec<ExtensionInfo>, error::ErrorView>|
            #[trigger] f.extensions_may_be(reply) == (exists|
                made: Result<Vec<ExtensionInfo>, Error>,
            |
            {
                &&& #[trigger] f.ensures((), made)
                &&& wire::plain_outcome(made) == reply
            }),
{
}

/// Something that lists options: any function of this shape.
pub trait OptionsFn: Send {
    /// Whether it can be called.
    spec fn fit_for_options(&self) -> bool;

    /// Whether it may answer `reply`.
    spec fn options_may_be(
        &self,
        reply: Result<Map<Seq<char>, wire::OptionView>, error::ErrorView>,
    ) -> bool;

    /// Calls it.
    fn on_options(&mut self) -> (r: Result<TextMap<OptionInfo>, Error>)
        requires
            old(self).fit_for_options(),
        ensures
            final(self).fit_for_options(),
            forall|reply: Result<Map<Seq<char>, wire::OptionView>, error::ErrorView>| #[trigger]
                final(self).options_may_be(reply) == old(self).options_may_be(reply),
            old(self).options_may_be(error::outcome(r)),
    ;
}

/// Whether there is such a function exactly where there was one, and it may
/// answer what it might answer before.
pub open spec fn same_options(
    before: Option<Box<dyn OptionsFn>>,
    after: Option<Box<dyn OptionsFn>>,
) -> bool {
    &&& after is Some <==> before is Some
    &&& after is Some ==> forall|
        reply: Result<Map<Seq<char>, wire::OptionView>, error::ErrorView>,
    | #[trigger]
        after->0.options_may_be(reply) == before->0.options_may_be(reply)
}

impl<F: FnMut() -> Result<TextMap<OptionInfo>, Error> + Send> OptionsFn for F {
    open spec fn fit_for_options(&self) -> bool {
        self.requires(())
    }

    open spec fn options_may_be(
        &self,
        reply: Result<Map<Seq<char>, wire::OptionView>, error::ErrorView>,
    ) -> bool {
        exists|made: Result<TextMap<OptionInfo>, Error>|
            {
                &&& #[trigger] self.ensures((), made)
                &&& error::outcome(made) == reply
            }
    }

    fn on_options(&mut self) -> (r: Result<TextMap<OptionInfo>, Error>) {
        self()
    }
}

/// A function fits here when it can be called. It may answer what it may return.
pub proof fn options_by_function<F: FnMut() -> Result<TextMap<OptionInfo>, Error> + Send>(f: F)
    ensures
        f.fit_for_options() == f.requires(()),
        forall|reply: Result<Map<Seq<char>, wire::OptionView>, error::ErrorView>|
            #[trigger] f.options_may_be(reply) == (exists|made: Result<TextMap<OptionInfo>, Error>|
            {
                &&& #[trigger] f.ensures((), made)
                &&& error::outcome(made) == reply
            }),
{
}

/// Something that registers an extension: any function of this shape.
pub trait RegisterExtensionFn: Send {
    /// Whether it can be called.
    spec fn fit_for_register_extension(&self) -> bool;

    /// Whether it may answer `reply`.
    spec fn register_extension_may_be(
        &self,
        name: Seq<char>,
        version: Option<Seq<char>>,
        registry: manager::RegistryView,
        reply: Result<ExtensionUuid, error::ErrorView>,
    ) -> bool;

    /// Calls it.
    fn on_register_extension(
        &mut self,
        name: &str,
        version: Option<&str>,
        registry: ExtensionRegistry,
    ) -> (r: Result<ExtensionUuid, Error>)
        requires
            old(self).fit_for_register_extension(),
        ensures
            final(self).fit_for_register_extension(),
            forall|
                name: Seq<char>,
                version: Option<Seq<char>>,
                registry: manager::RegistryView,
                reply: Result<ExtensionUuid, error::ErrorView>,
            | #[trigger]
                final(self).register_extension_may_be(
                    name,
                    version,
                    registry,
                    reply,
                ) == old(self).register_extension_may_be(
                    name,
                    version,
                    registry,
                    reply,
                ),
            old(self).register_extension_may_be(
                name@,
                version.deep_view(),
                registry.deep_view(),
                wire::plain_outcome(r),
            ),
    ;
}

/// Whether there is such a function exactly where there was one, and it may
/// answer what it might answer before.
pub open spec fn same_register_extension(
    before: Option<Box<dyn RegisterExtensionFn>>,
    after: Option<Box<dyn RegisterExtensionFn>>,
) -> bool {
    &&& after is Some <==> before is Some
    &&& after is Some ==> forall|
        name: Seq<char>,
        version: Option<Seq<char>>,
        registry: manager::RegistryView,
        reply: Result<ExtensionUuid, error::ErrorView>,
    | #[trigger]
        after->0.register_extension_may_be(
            name,
            version,
            registry,
            reply,
        ) == before->0.register_extension_may_be(
            name,
            version,
            registry,
            reply,
        )
}

impl<
    F: FnMut(&str, Option<&str>, ExtensionRegistry) -> Result<ExtensionUuid, Error> + Send,
> RegisterExtensionFn for F {
    open spec fn fit_for_register_extension(&self) -> bool {
        forall|
            name: &str,
            version: Option<&str>,
            registry: ExtensionRegistry,
        | #[trigger] self.requires((name, version, registry))
    }

    open spec fn register_extension_may_be(
        &self,
        name: Seq<char>,
        version: Option<Seq<char>>,
        registry: manager::RegistryView,
        reply: Result<ExtensionUuid, error::ErrorView>,
    ) -> bool {
        exists|
            given_name: &str,
            given_version: Option<&str>,
            given_registry: ExtensionRegistry,
            made: Result<ExtensionUuid, Error>,
        |
            {
                &&& given_name@ == name
                &&& given_version.deep_view() == version
                &&& given_registry.deep_view() == registry
                &&& #[trigger] self.ensures((given_name, given_version, given_registry), made)
                &&& wire::plain_outcome(made) == reply
            }
    }

    fn on_register_extension(
        &mut self,
        name: &str,
        version: Option<&str>,
        registry: ExtensionRegistry,
    ) -> (r: Result<ExtensionUuid, Error>) {
        self(name, version, registry)
    }
}

/// A function fits here when it can be called. It may answer what it may return.
pub proof fn register_extension_by_function<
    F: FnMut(&str, Option<&str>, ExtensionRegistry) -> Result<ExtensionUuid, Error> + Send,
>(f: F)
    ensures
        f.fit_for_register_extension() == (forall|
            name: &str,
            version: Option<&str>,
            registry: ExtensionRegistry,
        |
            #[trigger] f.requires((name, version, registry))),
        forall|
            name: Seq<char>,
            version: Option<Seq<char>>,
            registry: manager::RegistryView,
            reply: Result<ExtensionUuid, error::ErrorView>,
        |
            #[trigger] f.register_extension_may_be(name, version, registry, reply) == (exists|
                given_name: &str,
                given_version: Option<&str>,
                given_registry: ExtensionRegistry,
                made: Result<ExtensionUuid, Error>,
            |
            {
                &&& given_name@ == name
                &&& given_version.deep_view() == version
                &&& given_registry.deep_view() == registry
                &&& #[trigger] f.ensures((given_name, given_version, given_registry), made)
                &&& wire::plain_outcome(made) == reply
            }),
{
}

/// Something that takes an extension away: any function of this shape.
pub trait DeregisterExtensionFn: Send {
    /// Whether it can be called.
    spec fn fit_for_deregister_extension(&self) -> bool;

    /// Whether it may answer `reply`.
    spec fn deregister_extension_may_be(
        &self,
        uuid: ExtensionUuid,
        reply: Result<(), error::ErrorView>,
    ) -> bool;

    /// Calls it.
    fn on_deregister_extension(&mut self, uuid: ExtensionUuid) -> (r: Result<(), Error>)
        requires
            old(self).fit_for_deregister_extension(),
        ensures
            final(self).fit_for_deregister_extension(),
            forall|uuid: ExtensionUuid, reply: Result<(), error::ErrorView>| #[trigger]
                final(self).deregister_extension_may_be(
                    uuid,
                    reply,
                ) == old(self).deregister_extension_may_be(
                    uuid,
                    reply,
                ),
            old(self).deregister_extension_may_be(uuid, wire::plain_outcome(r)),
    ;
}

/// Whether there is such a function exactly where there was one, and it may
/// answer what it might answer before.
pub open spec fn same_deregister_extension(
    before: Option<Box<dyn DeregisterExtensionFn>>,
    after: Option<Box<dyn DeregisterExtensionFn>>,
) -> bool {
    &&& after is Some <==> before is Some
    &&& after is Some ==> forall|
        uuid: ExtensionUuid,
        reply: Result<(), error::ErrorView>,
    | #[trigger]
        after->0.deregister_extension_may_be(
            uuid,
            reply,
        ) == before->0.deregister_extension_may_be(
            uuid,
            reply,
        )
}

impl<F: FnMut(ExtensionUuid) -> Result<(), Error> + Send> DeregisterExtensionFn for F {
    open spec fn fit_for_deregister_extension(&self) -> bool {
        forall|uuid: ExtensionUuid| #[trigger] self.requires((uuid,))
    }

    open spec fn deregister_extension_may_be(
        &self,
        uuid: ExtensionUuid,
        reply: Result<(), error::ErrorView>,
    ) -> bool {
        exists|given_uuid: ExtensionUuid, made: Result<(), Error>|
            {
                &&& given_uuid == uuid
                &&& #[trigger] self.ensures((given_uuid,), made)
                &&& wire::plain_outcome(made) == reply
            }
    }

    fn on_deregister_extension(&mut self, uuid: ExtensionUuid) -> (r: Result<(), Error>) {
        self(uuid)
    }
}

/// A function fits here when it can be called. It may answer what it may return.
pub proof fn deregister_extension_by_function<
    F: FnMut(ExtensionUuid) -> Result<(), Error> + Send,
>(f: F)
    ensures
        f.fit_for_deregister_extension() == (forall|uuid: ExtensionUuid|
            #[trigger] f.requires((uuid,))),
        forall|uuid: ExtensionUuid, reply: Result<(), error::ErrorView>|
            #[trigger] f.deregister_extension_may_be(uuid, reply) == (exists|
                given_uuid: ExtensionUuid,
                made: Result<(), Error>,
            |
            {
                &&& given_uuid == uuid
                &&& #[trigger] f.ensures((given_uuid,), made)
                &&& wire::plain_outcome(made) == reply
            }),
{
}

/// Something that answers a query: any function of this shape.
pub trait QueryFn: Send {
    /// Whether it can be called.
    spec fn fit_for_query(&self) -> bool;

    /// Whether it may answer `reply`.
    spec fn query_may_be(
        &self,
        sql: Seq<char>,
        reply: Result<Seq<row::RowView>, error::ErrorView>,
    ) -> bool;

    /// Calls it.
    fn on_query(&mut self, sql: &str) -> (r: Result<PluginResponse, Error>)
        requires
            old(self).fit_for_query(),
        ensures
            final(self).fit_for_query(),
            forall|sql: Seq<char>, reply: Result<Seq<row::RowView>, error::ErrorView>| #[trigger]
                final(self).query_may_be(sql, reply) == old(self).query_may_be(sql, reply),
            old(self).query_may_be(sql@, error::outcome(r)),
    ;
}

/// Whether there is such a function exactly where there was one, and it may
/// answer what it might answer before.
pub open spec fn same_query(
    before: Option<Box<dyn QueryFn>>,
    after: Option<Box<dyn QueryFn>>,
) -> bool {
    &&& after is Some <==> before is Some
    &&& after is Some ==> forall|
        sql: Seq<char>,
        reply: Result<Seq<row::RowView>, error::ErrorView>,
    | #[trigger]
        after->0.query_may_be(sql, reply) == before->0.query_may_be(sql, reply)
}

impl<F: FnMut(&str) -> Result<PluginResponse, Error> + Send> QueryFn for F {
    open spec fn fit_for_query(&self) -> bool {
        forall|sql: &str| #[trigger] self.requires((sql,))
    }

    open spec fn query_may_be(
        &self,
        sql: Seq<char>,
        reply: Result<Seq<row::RowView>, error::ErrorView>,
    ) -> bool {
        exists|given_sql: &str, made: Result<PluginResponse, Error>|
            {
                &&& given_sql@ == sql
                &&& #[trigger] self.ensures((given_sql,), made)
                &&& error::outcome(made) == reply
            }
    }

    fn on_query(&mut self, sql: &str) -> (r: Result<PluginResponse, Error>) {
        self(sql)
    }
}

/// A function fits here when it can be called. It may answer what it may return.
pub proof fn query_by_function<F: FnMut(&str) -> Result<PluginResponse, Error> + Send>(f: F)
    ensures
        f.fit_for_query() == (forall|sql: &str| #[trigger] f.requires((sql,))),
        forall|sql: Seq<char>, reply: Result<Seq<row::RowView>, error::ErrorView>|
            #[trigger] f.query_may_be(sql, reply) == (exists|
                given_sql: &str,
                made: Result<PluginResponse, Error>,
            |
            {
                &&& given_sql@ == sql
                &&& #[trigger] f.ensures((given_sql,), made)
                &&& error::outcome(made) == reply
            }),
{
}

/// Something that answers a request to a plugin: any function of this shape.
pub trait PluginCallFn: Send + Sync {
    /// Whether it can be called.
    spec fn fit_for_plugin_call(&self) -> bool;

    /// Whether it may answer `reply`.
    spec fn plugin_call_may_be(
        &self,
        request: row::RowView,
        reply: Result<Seq<row::RowView>, error::ErrorView>,
    ) -> bool;

    /// Calls it.
    fn on_plugin_call(&mut self, request: PluginRequest) -> (r: Result<PluginResponse, Error>)
        requires
            old(self).fit_for_plugin_call(),
        ensures
            final(self).fit_for_plugin_call(),
            forall|
                request: row::RowView,
                reply: Result<Seq<row::RowView>, error::ErrorView>,
            | #[trigger]
                final(self).plugin_call_may_be(
                    request,
                    reply,
                ) == old(self).plugin_call_may_be(
                    request,
                    reply,
                ),
            old(self).plugin_call_may_be(request.deep_view(), error::outcome(r)),
    ;
}

/// Whether there is such a function exactly where there was one, and it may
/// answer what it might answer before.
pub open spec fn same_plugin_call(
    before: Option<Box<dyn PluginCallFn>>,
    after: Option<Box<dyn PluginCallFn>>,
) -> bool {
    &&& after is Some <==> before is Some
    &&& after is Some ==> forall|
        request: row::RowView,
        reply: Result<Seq<row::RowView>, error::ErrorView>,
    | #[trigger]
        after->0.plugin_call_may_be(
            request,
            reply,
        ) == before->0.plugin_call_may_be(
            request,
            reply,
        )
}

impl<F: FnMut(PluginRequest) -> Result<PluginResponse, Error> + Send + Sync> PluginCallFn for F {
    open spec fn fit_for_plugin_call(&self) -> bool {
        forall|request: PluginRequest| #[trigger] self.requires((request,))
    }

    open spec fn plugin_call_may_be(
        &self,
        request: row::RowView,
        reply: Result<Seq<row::RowView>, error::ErrorView>,
    ) -> bool {
        exists|given_request: PluginRequest, made: Result<PluginResponse, Error>|
            {
                &&& given_request.deep_view() == request
                &&& #[trigger] self.ensures((given_request,), made)
                &&& error::outcome(made) == reply
            }
    }

    fn on_plugin_call(&mut self, request: PluginRequest) -> (r: Result<PluginResponse, Error>) {
        self(request)
    }
}

/// A function fits here when it can be called. It may answer what it may return.
pub proof fn plugin_call_by_function<
    F: FnMut(PluginRequest) -> Result<PluginResponse, Error> + Send + Sync,
>(f: F)
    ensures
        f.fit_for_plugin_call() == (forall|request: PluginRequest|
            #[trigger] f.requires((request,))),
        forall|request: row::RowView, reply: Result<Seq<row::RowView>, error::ErrorView>|
            #[trigger] f.plugin_call_may_be(request, reply) == (exists|
                given_request: PluginRequest,
                made: Result<PluginResponse, Error>,
            |
            {
                &&& given_request.deep_view() == request
                &&& #[trigger] f.ensures((given_request,), made)
                &&& error::outcome(made) == reply
            }),
{
}

/// Something that gives a plugin's routes: any function of this shape.
pub trait PluginRoutesFn: Send + Sync {
    /// Whether it can be called.
    spec fn fit_for_plugin_routes(&self) -> bool;

    /// Whether it may answer `reply`.
    spec fn plugin_routes_may_be(&self, reply: Seq<row::RowView>) -> bool;

    /// Calls it.
    fn on_plugin_routes(&mut self) -> (r: PluginResponse)
        requires
            old(self).fit_for_plugin_routes(),
        ensures
            final(self).fit_for_plugin_routes(),
            forall|reply: Seq<row::RowView>| #[trigger]
                final(self).plugin_routes_may_be(reply) == old(self).plugin_routes_may_be(reply),
            old(self).plugin_routes_may_be(r.deep_view()),
    ;
}

/// Whether there is such a function exactly where there was one, and it may
/// answer what it might answer before.
pub open spec fn same_plugin_routes(
    before: Option<Box<dyn PluginRoutesFn>>,
    after: Option<Box<dyn PluginRoutesFn>>,
) -> bool {
    &&& after is Some <==> before is Some
    &&& after is Some ==> forall|reply: Seq<row::RowView>| #[trigger]
        after->0.plugin_routes_may_be(reply) == before->0.plugin_routes_may_be(reply)
}

impl<F: FnMut() -> PluginResponse + Send + Sync> PluginRoutesFn for F {
    open spec fn fit_for_plugin_routes(&self) -> bool {
        self.requires(())
    }

    open spec fn plugin_routes_may_be(&self, reply: Seq<row::RowView>) -> bool {
        exists|made: PluginResponse|
            {
                &&& #[trigger] self.ensures((), made)
                &&& made.deep_view() == reply
            }
    }

    fn on_plugin_routes(&mut self) -> (r: PluginResponse) {
        self()
    }
}

/// A function fits here when it can be called. It may answer what it may return.
pub proof fn plugin_routes_by_function<F: FnMut() -> PluginResponse + Send + Sync>(f: F)
    ensures
        f.fit_for_plugin_routes() == f.requires(()),
        forall|reply: Seq<row::RowView>|
            #[trigger] f.plugin_routes_may_be(reply) == (exists|made: PluginResponse|
            {
                &&& #[trigger] f.ensures((), made)
                &&& made.deep_view() == reply
            }),
{
}

/// Something that answers a ping to a plugin: any function of this shape.
pub trait PluginPingFn: Send + Sync {
    /// Whether it can be called.
    spec fn fit_for_plugin_ping(&self) -> bool;

    /// Whether it may answer `reply`.
    spec fn plugin_ping_may_be(&self, reply: Result<(), error::ErrorView>) -> bool;

    /// Calls it.
    fn on_plugin_ping(&mut self) -> (r: Result<(), Error>)
        requires
            old(self).fit_for_plugin_ping(),
        ensures
            final(self).fit_for_plugin_ping(),
            forall|reply: Result<(), error::ErrorView>| #[trigger]
                final(self).plugin_ping_may_be(reply) == old(self).plugin_ping_may_be(reply),
            old(self).plugin_ping_may_be(wire::plain_outcome(r)),
    ;
}

/// Whether there is such a function exactly where there was one, and it may
/// answer what it might answer before.
pub open spec fn same_plugin_ping(
    before: Option<Box<dyn PluginPingFn>>,
    after: Option<Box<dyn PluginPingFn>>,
) -> bool {
    &&& after is Some <==> before is Some
    &&& after is Some ==> forall|reply: Result<(), error::ErrorView>| #[trigger]
        after->0.plugin_ping_may_be(reply) == before->0.plugin_ping_may_be(reply)
}

impl<F: FnMut() -> Result<(), Error> + Send + Sync> PluginPingFn for F {
    open spec fn fit_for_plugin_ping(&self) -> bool {
        self.requires(())
    }

    open spec fn plugin_ping_may_be(&self, reply: Result<(), error::ErrorView>) -> bool {
        exists|made: Result<(), Error>|
            {
                &&& #[trigger] self.ensures((), made)
                &&& wire::plain_outcome(made) == reply
            }
    }

    fn on_plugin_ping(&mut self) -> (r: Result<(), Error>) {
        self()
    }
}

/// A function fits here when it can be called. It may answer what it may return.
pub proof fn plugin_ping_by_function<F: FnMut() -> Result<(), Error> + Send + Sync>(f: F)
    ensures
        f.fit_for_plugin_ping() == f.requires(()),
        forall|reply: Result<(), error::ErrorView>|
            #[trigger] f.plugin_ping_may_be(reply) == (exists|made: Result<(), Error>|
            {
                &&& #[trigger] f.ensures((), made)
                &&& wire::plain_outcome(made) == reply
            }),
{
}

/// Something that is told that a plugin shuts down: any function of this shape.
pub trait PluginShutdownFn: Send + Sync {
    /// Whether it can be called.
    spec fn fit_for_plugin_shutdown(&self) -> bool;

    /// What it promises of a call, as its contract has it.
    spec fn plugin_shutdown_promise(&self) -> bool;

    /// Calls it.
    fn on_plugin_shutdown(&mut self)
        requires
            old(self).fit_for_plugin_shutdown(),
        ensures
            final(self).fit_for_plugin_shutdown(),
            final(self).plugin_shutdown_promise() == old(self).plugin_shutdown_promise(),
            old(self).plugin_shutdown_promise(),
    ;
}

/// Whether there is such a function exactly where there was one, and it
/// promises what it promised before.
pub open spec fn same_plugin_shutdown(
    before: Option<Box<dyn PluginShutdownFn>>,
    after: Option<Box<dyn PluginShutdownFn>>,
) -> bool {
    &&& after is Some <==> before is Some
    &&& after is Some ==> after->0.plugin_shutdown_promise() == before->0.plugin_shutdown_promise()
}

impl<F: FnMut() + Send + Sync> PluginShutdownFn for F {
    open spec fn fit_for_plugin_shutdown(&self) -> bool {
        self.requires(())
    }

    open spec fn plugin_shutdown_promise(&self) -> bool {
        self.ensures((), ())
    }

    fn on_plugin_shutdown(&mut self) {
        self()
    }
}

/// A function fits here when it can be called. It promises what its contract
/// promises.
pub proof fn plugin_shutdown_by_function<F: FnMut() + Send + Sync>(f: F)
    ensures
        f.fit_for_plugin_shutdown() == f.requires(()),
        f.plugin_shutdown_promise() == f.ensures((), ()),
{
}

} // verus!
