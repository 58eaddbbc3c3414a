//! The extension's side of the conversation with osquery.

pub mod manager;
pub mod registry;
pub mod run;
pub mod teardown;
pub mod watch;

pub use manager::{
    ClientOwnership, ExtensionManagerServer, ExtensionManagerServerBuilder, Interval, OnStop,
    ShutdownHandle, MAX_SOCKET_PATH_CHARACTERS,
};

use crate::client::wire;
use crate::error;
use crate::error::Error;
use crate::json;
use crate::row;
use crate::row::{PluginRequest, PluginResponse};
use crate::text;
use vstd::prelude::*;
use vstd::string::*;

verus! {

broadcast use vstd::string::group_string_axioms;

/// The kinds of plugin that osquery knows.
#[derive(Clone, Copy, Debug, Eq, Hash, PartialEq, Structural)]
#[non_exhaustive]
pub enum RegistryName {
    Table,
    Logger,
    Config,
    Distributed,
}

impl DeepView for RegistryName {
    type V = RegistryName;

    open spec fn deep_view(&self) -> RegistryName {
        *self
    }
}

impl RegistryName {
    /// osquery's name for the registry.
    pub open spec fn text(self) -> Seq<char> {
        match self {
            RegistryName::Table => "table"@,
            RegistryName::Logger => "logger"@,
            RegistryName::Config => "config"@,
            RegistryName::Distributed => "distributed"@,
        }
    }

    /// osquery's name for the registry.
    pub fn to_string(&self) -> (r: String)
        ensures
            r@ == self.text(),
    {
        match self {
            RegistryName::Table => "table".to_string(),
            RegistryName::Logger => "logger".to_string(),
            RegistryName::Config => "config".to_string(),
            RegistryName::Distributed => "distributed".to_string(),
        }
    }
}

/// The registry that osquery names `s`, or what is said where there is none.
pub open spec fn registry_named(s: Seq<char>) -> Result<RegistryName, Seq<char>> {
    if s == "table"@ {
        Ok(RegistryName::Table)
    } else if s == "logger"@ {
        Ok(RegistryName::Logger)
    } else if s == "config"@ {
        Ok(RegistryName::Config)
    } else if s == "distributed"@ {
        Ok(RegistryName::Distributed)
    } else {
        Err("Unknown registry: "@ + s)
    }
}

impl std::str::FromStr for RegistryName {
    type Err = String;

    fn from_str(s: &str) -> (r: Result<Self, String>)
        ensures
            json::told(r) == registry_named(s@),
    {
        if text::text_eq(s, "table") {
            Ok(RegistryName::Table)
        } else if text::text_eq(s, "logger") {
            Ok(RegistryName::Logger)
        } else if text::text_eq(s, "config") {
            Ok(RegistryName::Config)
        } else if text::text_eq(s, "distributed") {
            Ok(RegistryName::Distributed)
        } else {
            Err(text::concat("Unknown registry: ", s))
        }
    }
}

/// Reading a registry's name gives the registry back.
pub proof fn registry_names_read_back(registry: RegistryName)
    ensures
        registry_named(registry.text()) == Ok::<RegistryName, Seq<char>>(registry),
{
    reveal_strlit("table");
    reveal_strlit("logger");
    reveal_strlit("config");
    reveal_strlit("distributed");
    assert("logger"@[0] == 'l');
    assert("config"@[0] == 'c');
    assert("distributed"@[0] == 'd');
}

/// Something that was asked of a plugin, with its answer.
pub enum PluginEvent {
    /// It was asked for its routes.
    Routes(Seq<row::RowView>),
    /// It was given a request.
    Call { request: row::RowView, reply: Result<Seq<row::RowView>, error::ErrorView> },
    /// It was told to shut down.
    Shutdown,
}

/// An osquery extension plugin.
///
/// What it answers goes to osquery like this: rows become a success, an
/// [`Error::Status`] keeps its code and message, and any other error becomes
/// status 1 with the error's words.
pub trait OsqueryPlugin: Send + Sync {
    /// Whether the plugin is fit for use.
    open spec fn ready(&self) -> bool {
        true
    }

    /// The plugin's name.
    open spec fn plugin_name(&self) -> Seq<char> {
        Seq::empty()
    }

    /// The registry that the plugin belongs to.
    open spec fn registry(&self) -> RegistryName {
        RegistryName::Table
    }

    /// What was asked of the plugin so far, and what it answered.
    open spec fn history(&self) -> Seq<PluginEvent> {
        Seq::empty()
    }

    /// Whether the plugin may answer `reply` when it is asked how it is.
    open spec fn health_may_be(&self, reply: Result<(), error::ErrorView>) -> bool {
        true
    }

    /// Whether the plugin may answer `reply` to `request`.
    open spec fn may_answer(
        &self,
        request: row::RowView,
        reply: Result<Seq<row::RowView>, error::ErrorView>,
    ) -> bool {
        true
    }

    /// Whether the plugin may offer `rows` as its routes.
    open spec fn may_offer(&self, rows: Seq<row::RowView>) -> bool {
        true
    }

    /// Whether a request leaves the plugin as it was, so that what it may
    /// answer does not depend on what it was asked before.
    open spec fn steady(&self) -> bool {
        false
    }

    /// The plugin's name, such as the name of its table.
    fn name(&self) -> (r: &str)
        requires
            self.ready(),
        ensures
            r@ == self.plugin_name(),
    ;

    /// The registry that the plugin belongs to.
    fn registry_name(&self) -> (r: RegistryName)
        requires
            self.ready(),
        ensures
            r == self.registry(),
    ;

    /// What the plugin offers, such as the columns of its table.
    fn routes(&mut self) -> (r: PluginResponse)
        requires
            old(self).ready(),
        ensures
            final(self).ready(),
            final(self).plugin_name() == old(self).plugin_name(),
            final(self).registry() == old(self).registry(),
            final(self).history() == old(self).history().push(PluginEvent::Routes(r.deep_view())),
            old(self).may_offer(r.deep_view()),
            final(self).steady() == old(self).steady(),
            forall|reply: Result<(), error::ErrorView>| #[trigger]
                final(self).health_may_be(reply) == old(self).health_may_be(reply),
            forall|rows: Seq<row::RowView>| #[trigger]
                final(self).may_offer(rows) == old(self).may_offer(rows),
            forall|request: row::RowView, reply: Result<Seq<row::RowView>, error::ErrorView>|
                #[trigger]
                final(self).may_answer(request, reply) == old(self).may_answer(request, reply),
    ;

    /// Whether the plugin is well. Most plugins always are; one that is not
    /// says why.
    ///
    /// osquery pings the extension as a whole, and the extension answers
    /// without asking its plugins.
    fn ping(&mut self) -> (r: Result<(), Error>)
        requires
            old(self).ready(),
        ensures
            final(self).ready(),
            final(self).plugin_name() == old(self).plugin_name(),
            final(self).registry() == old(self).registry(),
            final(self).history() == old(self).history(),
            old(self).health_may_be(wire::plain_outcome(r)),
            final(self).steady() == old(self).steady(),
            forall|reply: Result<(), error::ErrorView>| #[trigger]
                final(self).health_may_be(reply) == old(self).health_may_be(reply),
            forall|rows: Seq<row::RowView>| #[trigger]
                final(self).may_offer(rows) == old(self).may_offer(rows),
            forall|request: row::RowView, reply: Result<Seq<row::RowView>, error::ErrorView>|
                #[trigger]
                final(self).may_answer(request, reply) == old(self).may_answer(request, reply),
    ;

    /// Answers a request of osquery.
    fn call(&mut self, req: PluginRequest) -> (r: Result<PluginResponse, Error>)
        requires
            old(self).ready(),
        ensures
            final(self).ready(),
            final(self).plugin_name() == old(self).plugin_name(),
            final(self).registry() == old(self).registry(),
            final(self).history() == old(self).history().push(
                PluginEvent::Call { request: req.deep_view(), reply: error::outcome(r) },
            ),
            old(self).may_answer(req.deep_view(), error::outcome(r)),
            old(self).steady() ==> {
                &&& final(self).steady()
                &&& forall|reply: Result<(), error::ErrorView>| #[trigger]
                    final(self).health_may_be(reply) == old(self).health_may_be(reply)
                &&& forall|rows: Seq<row::RowView>| #[trigger]
                    final(self).may_offer(rows) == old(self).may_offer(rows)
                &&& forall|request: row::RowView, reply: Result<Seq<row::RowView>, error::ErrorView>|
                    #[trigger]
                    final(self).may_answer(request, reply) == old(self).may_answer(request, reply)
            },
    ;

    /// Tells the plugin that the extension shuts down.
    fn shutdown(&mut self)
        requires
            old(self).ready(),
        ensures
            final(self).ready(),
            final(self).plugin_name() == old(self).plugin_name(),
            final(self).registry() == old(self).registry(),
            final(self).history() == old(self).history().push(PluginEvent::Shutdown),
            final(self).steady() == old(self).steady(),
            forall|reply: Result<(), error::ErrorView>| #[trigger]
                final(self).health_may_be(reply) == old(self).health_may_be(reply),
            forall|rows: Seq<row::RowView>| #[trigger]
                final(self).may_offer(rows) == old(self).may_offer(rows),
            forall|request: row::RowView, reply: Result<Seq<row::RowView>, error::ErrorView>|
                #[trigger]
                final(self).may_answer(request, reply) == old(self).may_answer(request, reply),
    ;
}

/// Whether `after` may answer, offer and say of its health what `before` may.
pub open spec fn behaves_alike<P: OsqueryPlugin>(before: P, after: P) -> bool {
    &&& after.steady() == before.steady()
    &&& forall|reply: Result<(), error::ErrorView>| #[trigger]
        after.health_may_be(reply) == before.health_may_be(reply)
    &&& forall|rows: Seq<row::RowView>| #[trigger]
        after.may_offer(rows) == before.may_offer(rows)
    &&& forall|request: row::RowView, reply: Result<Seq<row::RowView>, error::ErrorView>| #[trigger]
        after.may_answer(request, reply) == before.may_answer(request, reply)
}

impl OsqueryPlugin for Box<dyn OsqueryPlugin> {
    open spec fn ready(&self) -> bool {
        (**self).ready()
    }

    open spec fn plugin_name(&self) -> Seq<char> {
        (**self).plugin_name()
    }

    open spec fn registry(&self) -> RegistryName {
        (**self).registry()
    }

    open spec fn history(&self) -> Seq<PluginEvent> {
        (**self).history()
    }

    open spec fn health_may_be(&self, reply: Result<(), error::ErrorView>) -> bool {
        (**self).health_may_be(reply)
    }

    open spec fn may_answer(
        &self,
        request: row::RowView,
        reply: Result<Seq<row::RowView>, error::ErrorView>,
    ) -> bool {
        (**self).may_answer(request, reply)
    }

    open spec fn may_offer(&self, rows: Seq<row::RowView>) -> bool {
        (**self).may_offer(rows)
    }

    open spec fn steady(&self) -> bool {
        (**self).steady()
    }

    fn name(&self) -> (r: &str) {
        (**self).name()
    }

    fn registry_name(&self) -> (r: RegistryName) {
        (**self).registry_name()
    }

    fn routes(&mut self) -> (r: PluginResponse) {
        (**self).routes()
    }

    fn ping(&mut self) -> (r: Result<(), Error>) {
        (**self).ping()
    }

    fn call(&mut self, req: PluginRequest) -> (r: Result<PluginResponse, Error>) {
        (**self).call(req)
    }

    fn shutdown(&mut self) {
        (**self).shutdown()
    }
}

/// No other name reads as a registry, and an unknown one is named in what is
/// said of it.
pub proof fn no_other_names_are_registries(s: Seq<char>)
    ensures
        registry_named(s) matches Ok(registry) ==> s == registry.text(),
        registry_named(s) is Err ==> registry_named(s) == Err::<RegistryName, _>(
            "Unknown registry: "@ + s,
        ),
{
}

/// A plugin that behaves alike may answer, offer and say of its health the
/// same as before, and no more.
pub proof fn alike_is_the_same<P: OsqueryPlugin>(
    before: P,
    after: P,
    health: Result<(), error::ErrorView>,
    rows: Seq<row::RowView>,
    request: row::RowView,
    reply: Result<Seq<row::RowView>, error::ErrorView>,
)
    requires
        behaves_alike(before, after),
    ensures
        after.steady() == before.steady(),
        after.health_may_be(health) == before.health_may_be(health),
        after.may_offer(rows) == before.may_offer(rows),
        after.may_answer(request, reply) == before.may_answer(request, reply),
{
}

/// osquery's names for the registries.
pub proof fn registries_have_their_names()
    ensures
        RegistryName::Table.text() == "table"@,
        RegistryName::Logger.text() == "logger"@,
        RegistryName::Config.text() == "config"@,
        RegistryName::Distributed.text() == "distributed"@,
{
}

} // verus!
