//! The plugins of an extension, by registry and name.

use crate::client::wire;
use crate::client::wire::ExtensionResponse;
use crate::error;
use crate::error::Error;
use crate::row;
use crate::row::{ExtensionRegistry, PluginRequest, PluginResponse};
use crate::server;
use crate::server::{OsqueryPlugin, RegistryName};
use crate::text;
use crate::text_map::TextMap;
use vstd::prelude::*;
use vstd::string::*;

verus! {

broadcast use vstd::string::group_string_axioms;

/// A plugin with the registry and the name that it was registered under.
pub struct Registered<P: OsqueryPlugin> {
    pub registry: RegistryName,
    pub name: String,
    pub plugin: P,
}

/// The plugins of an extension. No two of them share registry and name.
pub struct PluginRegistry<P: OsqueryPlugin> {
    entries: Vec<Registered<P>>,
}

/// Whether a plugin is registered in `registry`.
pub open spec fn has_registry<P: OsqueryPlugin>(
    entries: Seq<Registered<P>>,
    registry: RegistryName,
) -> bool {
    exists|i: int| 0 <= i < entries.len() && (#[trigger] entries[i]).registry == registry
}

/// Whether entry `i` is the plugin `name` of `registry`.
pub open spec fn is_at<P: OsqueryPlugin>(
    entries: Seq<Registered<P>>,
    i: int,
    registry: RegistryName,
    name: Seq<char>,
) -> bool {
    0 <= i < entries.len() && entries[i].registry == registry && entries[i].name@ == name
}

/// Whether the plugin `name` is registered in `registry`.
pub open spec fn has_plugin<P: OsqueryPlugin>(
    entries: Seq<Registered<P>>,
    registry: RegistryName,
    name: Seq<char>,
) -> bool {
    exists|i: int| #[trigger] is_at(entries, i, registry, name)
}

/// Whether every plugin is fit for use and registered under its own registry
/// and name, which no other has.
pub open spec fn well_kept<P: OsqueryPlugin>(entries: Seq<Registered<P>>) -> bool {
    &&& forall|i: int|
        0 <= i < entries.len() ==> {
            &&& (#[trigger] entries[i]).plugin.ready()
            &&& entries[i].plugin.plugin_name() == entries[i].name@
            &&& entries[i].plugin.registry() == entries[i].registry
        }
    &&& forall|i: int, j: int|
        0 <= i < j < entries.len() ==> !((#[trigger] entries[i]).registry == (
        #[trigger] entries[j]).registry && entries[i].name@ == entries[j].name@)
}

/// Whether `after` is `before` with nothing but the plugins' own state
/// changed.
pub open spec fn same_places<P: OsqueryPlugin>(
    before: Seq<Registered<P>>,
    after: Seq<Registered<P>>,
) -> bool {
    &&& before.len() == after.len()
    &&& forall|i: int|
        0 <= i < before.len() ==> (#[trigger] after[i]).registry == before[i].registry
            && after[i].name == before[i].name
}

/// What is said of a plugin whose name is taken.
pub open spec fn name_taken(name: Seq<char>, registry: RegistryName) -> Seq<char> {
    "plugin \""@ + name + "\" already registered in "@ + registry.text() + " registry"@
}

/// Where a request for the plugin `item` of `registry` goes, or why nowhere.
pub open spec fn route_for<P: OsqueryPlugin>(
    entries: Seq<Registered<P>>,
    registry: Seq<char>,
    item: Seq<char>,
) -> Result<(RegistryName, Seq<char>), Seq<char>> {
    match server::registry_named(registry) {
        Err(words) => Err(words),
        Ok(r) => if !has_registry(entries, r) {
            Err("Unknown registry: "@ + registry)
        } else if !has_plugin(entries, r, item) {
            Err("Unknown registry item: "@ + item)
        } else {
            Ok((r, item))
        },
    }
}

/// Whether `plugin` is the plugin `name` of `registry`.
pub open spec fn plugin_at<P: OsqueryPlugin>(
    entries: Seq<Registered<P>>,
    registry: RegistryName,
    name: Seq<char>,
    plugin: P,
) -> bool {
    exists|i: int| #[trigger] is_at(entries, i, registry, name) && entries[i].plugin == plugin
}

/// The registry, in the form that osquery gets, of plugins with these routes.
pub open spec fn advertised(slots: Seq<(RegistryName, Seq<char>, Seq<row::RowView>)>) -> Map<
    Seq<char>,
    Map<Seq<char>, Seq<row::RowView>>,
>
    decreases slots.len(),
{
    if slots.len() == 0 {
        Map::empty()
    } else {
        let before = advertised(slots.drop_last());
        let registry = slots.last().0.text();
        let there = if before.contains_key(registry) {
            before[registry]
        } else {
            Map::empty()
        };
        before.insert(registry, there.insert(slots.last().1, slots.last().2))
    }
}

/// The routes that a plugin gave when it was last asked anything.
pub open spec fn routes_given<P: OsqueryPlugin>(entry: Registered<P>) -> Seq<row::RowView> {
    match entry.plugin.history().last() {
        server::PluginEvent::Routes(rows) => rows,
        _ => Seq::empty(),
    }
}

/// The plugins with the routes that they just gave.
pub open spec fn slots_of<P: OsqueryPlugin>(entries: Seq<Registered<P>>) -> Seq<
    (RegistryName, Seq<char>, Seq<row::RowView>),
> {
    entries.map_values(|e: Registered<P>| (e.registry, e.name@, routes_given(e)))
}

/// Whether every plugin was asked for its routes, once, between `before` and
/// `after`, gave routes that it may offer, and behaves as it did before.
pub open spec fn all_routes_asked<P: OsqueryPlugin>(
    before: Seq<Registered<P>>,
    after: Seq<Registered<P>>,
) -> bool {
    &&& same_places(before, after)
    &&& forall|i: int|
        0 <= i < before.len() ==> {
            &&& (#[trigger] after[i]).plugin.history() == before[i].plugin.history().push(
                server::PluginEvent::Routes(routes_given(after[i])),
            )
            &&& before[i].plugin.may_offer(routes_given(after[i]))
            &&& server::behaves_alike(before[i].plugin, after[i].plugin)
        }
}

/// Whether every plugin was told to shut down, once, between `before` and
/// `after`, and behaves as it did before.
pub open spec fn all_told_to_stop<P: OsqueryPlugin>(
    before: Seq<Registered<P>>,
    after: Seq<Registered<P>>,
) -> bool {
    &&& same_places(before, after)
    &&& forall|i: int|
        0 <= i < before.len() ==> {
            &&& (#[trigger] after[i]).plugin.history() == before[i].plugin.history().push(
                server::PluginEvent::Shutdown,
            )
            &&& server::behaves_alike(before[i].plugin, after[i].plugin)
        }
}

/// Whether the plugin at `i`, and no other, was given `request` between
/// `before` and `after`, and `reply` is what it made of it, which is something
/// that this plugin may answer. A steady plugin behaves as it did before.
pub open spec fn one_called<P: OsqueryPlugin>(
    before: Seq<Registered<P>>,
    after: Seq<Registered<P>>,
    i: int,
    request: row::RowView,
    reply: Result<Seq<row::RowView>, error::ErrorView>,
) -> bool {
    &&& same_places(before, after)
    &&& forall|j: int|
        0 <= j < before.len() && j != i ==> (#[trigger] after[j]).plugin == before[j].plugin
    &&& after[i].plugin.history() == before[i].plugin.history().push(
        server::PluginEvent::Call { request, reply },
    )
    &&& before[i].plugin.may_answer(request, reply)
    &&& before[i].plugin.steady() ==> server::behaves_alike(before[i].plugin, after[i].plugin)
}

/// Whether `response` answers a request for the plugin `item` of `registry`.
/// A request that goes nowhere is refused and reaches no plugin. Any other
/// reaches the one plugin of that name, and the answer is what it made of it.
pub open spec fn call_answer<P: OsqueryPlugin>(
    before: Seq<Registered<P>>,
    after: Seq<Registered<P>>,
    registry: Seq<char>,
    item: Seq<char>,
    request: row::RowView,
    response: wire::ResponseView,
) -> bool {
    match route_for(before, registry, item) {
        Err(words) => after == before && response == wire::refusal(words),
        Ok(place) => exists|i: int, reply: Result<Seq<row::RowView>, error::ErrorView>|
            {
                &&& is_at(before, i, place.0, place.1)
                &&& #[trigger] one_called(before, after, i, request, reply)
                &&& response == wire::reply_for(reply)
            },
    }
}

impl<P: OsqueryPlugin> PluginRegistry<P> {
    /// The plugins, in the order of their registration.
    pub closed spec fn entries(&self) -> Seq<Registered<P>> {
        self.entries@
    }

    /// A registry without plugins.
    pub fn new() -> (r: Self)
        ensures
            r.entries() == Seq::<Registered<P>>::empty(),
            well_kept(r.entries()),
    {
        PluginRegistry { entries: Vec::new() }
    }

    /// The number of plugins.
    pub fn len(&self) -> (r: usize)
        ensures
            r == self.entries().len(),
    {
        self.entries.len()
    }

    /// Whether the plugin `name` is registered in `registry`.
    pub fn contains(&self, registry: RegistryName, name: &str) -> (r: bool)
        ensures
            r == has_plugin(self.entries(), registry, name@),
    {
        self.position(registry, name).is_some()
    }

    fn position(&self, registry: RegistryName, name: &str) -> (r: Option<usize>)
        ensures
            match r {
                Some(i) => is_at(self.entries(), i as int, registry, name@),
                None => !has_plugin(self.entries(), registry, name@),
            },
    {
        let mut i: usize = 0;
        while i < self.entries.len()
            invariant
                i <= self.entries@.len(),
                forall|j: int| 0 <= j < i ==> !#[trigger] is_at(self.entries@, j, registry, name@),
            decreases self.entries@.len() - i,
        {
            if self.entries[i].registry == registry && text::text_eq(
                self.entries[i].name.as_str(),
                name,
            ) {
                return Some(i);
            }
            i += 1;
        }
        None
    }

    fn knows(&self, registry: RegistryName) -> (r: bool)
        ensures
            r == has_registry(self.entries(), registry),
    {
        let mut i: usize = 0;
        while i < self.entries.len()
            invariant
                i <= self.entries@.len(),
                forall|j: int| 0 <= j < i ==> (#[trigger] self.entries@[j]).registry != registry,
            decreases self.entries@.len() - i,
        {
            if self.entries[i].registry == registry {
                return true;
            }
            i += 1;
        }
        false
    }

    /// Adds a plugin, unless its registry has one of its name.
    pub fn add(&mut self, plugin: P) -> (r: Result<(), Error>)
        requires
            well_kept(old(self).entries()),
            plugin.ready(),
        ensures
            well_kept(final(self).entries()),
            if has_plugin(old(self).entries(), plugin.registry(), plugin.plugin_name()) {
                &&& final(self).entries() == old(self).entries()
                &&& wire::plain_outcome(r) == Err::<(), _>(
                    error::ErrorView::Other(name_taken(plugin.plugin_name(), plugin.registry())),
                )
            } else {
                &&& r is Ok
                &&& final(self).entries().len() == old(self).entries().len() + 1
                &&& final(self).entries().drop_last() == old(self).entries()
                &&& final(self).entries().last().registry == plugin.registry()
                &&& final(self).entries().last().name@ == plugin.plugin_name()
                &&& final(self).entries().last().plugin == plugin
            },
    {
        let ghost before = self.entries@;
        let name = plugin.name().to_string();
        let registry = plugin.registry_name();
        if self.contains(registry, name.as_str()) {
            let s = text::concat("plugin \"", name.as_str());
            let s = text::concat(s.as_str(), "\" already registered in ");
            let registry_text = registry.to_string();
            let s = text::concat(s.as_str(), registry_text.as_str());
            let s = text::concat(s.as_str(), " registry");
            return Err(Error::Other(s));
        }
        let entry = Registered { registry, name, plugin };
        self.entries.push(entry);
        proof {
            assert forall|i: int, j: int| 0 <= i < j < self.entries@.len() implies !((
            #[trigger] self.entries@[i]).registry == (#[trigger] self.entries@[j]).registry
                && self.entries@[i].name@ == self.entries@[j].name@) by {
                if j == before.len() {
                    assert(!is_at(before, i, registry, name@));
                }
            }
        }
        Ok(())
    }
}

impl<P: OsqueryPlugin> PluginRegistry<P> {
    /// Adds plugins in order, up to the first whose name is taken.
    pub fn add_all(&mut self, plugins: Vec<P>) -> (r: Result<(), Error>)
        requires
            well_kept(old(self).entries()),
            forall|i: int| 0 <= i < plugins@.len() ==> (#[trigger] plugins@[i]).ready(),
        ensures
            well_kept(final(self).entries()),
            added_all(old(self).entries(), plugins@, final(self).entries(), wire::plain_outcome(r)),
            r is Ok <==> !clash(old(self).entries(), plugins@),
    {
        let ghost start = self.entries@;
        let ghost all = plugins@;
        for plugin in it: plugins
            invariant
                it.seq() == all,
                start == old(self).entries(),
                well_kept(self.entries@),
                forall|i: int| 0 <= i < all.len() ==> (#[trigger] all[i]).ready(),
                added(start, all, it.index(), self.entries@),
        {
            let ghost n = it.index();
            let ghost before = self.entries@;
            let taken = self.add(plugin);
            if taken.is_err() {
                assert(refused_at(all, n, self.entries@, wire::plain_outcome(taken)));
                proof {
                    batches_stop_at_the_first_clash(
                        start,
                        all,
                        self.entries@,
                        wire::plain_outcome(taken),
                    );
                }
                return taken;
            }
            proof {
                assert forall|i: int| 0 <= i < start.len() implies #[trigger] self.entries@[i]
                    == start[i] by {
                    assert(self.entries@.drop_last()[i] == before[i]);
                }
                assert forall|i: int| 0 <= i < n + 1 implies is_entry_for(
                    #[trigger] self.entries@[start.len() + i],
                    all[i],
                ) by {
                    if i < n {
                        assert(self.entries@.drop_last()[start.len() + i] == before[start.len()
                            + i]);
                    }
                }
            }
        }
        proof {
            batches_stop_at_the_first_clash(start, all, self.entries@, Ok(()));
        }
        Ok(())
    }
}

/// Whether `entry` is `plugin`, registered under its registry and name.
pub open spec fn is_entry_for<P: OsqueryPlugin>(entry: Registered<P>, plugin: P) -> bool {
    &&& entry.registry == plugin.registry()
    &&& entry.name@ == plugin.plugin_name()
    &&& entry.plugin == plugin
}

/// Whether `after` is `before` with the first `n` of `plugins` registered
/// behind it.
pub open spec fn added<P: OsqueryPlugin>(
    before: Seq<Registered<P>>,
    plugins: Seq<P>,
    n: int,
    after: Seq<Registered<P>>,
) -> bool {
    &&& 0 <= n <= plugins.len()
    &&& after.len() == before.len() + n
    &&& forall|i: int| 0 <= i < before.len() ==> #[trigger] after[i] == before[i]
    &&& forall|i: int|
        0 <= i < n ==> is_entry_for(#[trigger] after[before.len() + i], plugins[i])
}

/// Whether plugins have the same registry and name.
pub open spec fn same_place<P: OsqueryPlugin>(a: P, b: P) -> bool {
    a.registry() == b.registry() && a.plugin_name() == b.plugin_name()
}

/// Whether the registry and the name of plugin `n` are taken: in `before`, or
/// by one of `plugins` that comes earlier.
pub open spec fn place_taken<P: OsqueryPlugin>(
    before: Seq<Registered<P>>,
    plugins: Seq<P>,
    n: int,
) -> bool {
    ||| has_plugin(before, plugins[n].registry(), plugins[n].plugin_name())
    ||| exists|m: int| 0 <= m < n && same_place(#[trigger] plugins[m], plugins[n])
}

/// Whether the place of one of `plugins` is taken when its turn comes.
pub open spec fn clash<P: OsqueryPlugin>(before: Seq<Registered<P>>, plugins: Seq<P>) -> bool {
    exists|n: int| 0 <= n < plugins.len() && #[trigger] place_taken(before, plugins, n)
}

/// Whether plugin `n` cannot join `entries`, and `outcome` says so.
pub open spec fn refused_at<P: OsqueryPlugin>(
    plugins: Seq<P>,
    n: int,
    entries: Seq<Registered<P>>,
    outcome: Result<(), error::ErrorView>,
) -> bool {
    &&& 0 <= n < plugins.len()
    &&& has_plugin(entries, plugins[n].registry(), plugins[n].plugin_name())
    &&& outcome == Err::<(), _>(
        error::ErrorView::Other(name_taken(plugins[n].plugin_name(), plugins[n].registry())),
    )
}

/// Whether `plugins` were registered in order, up to the first whose name is
/// taken, and `outcome` tells of it.
pub open spec fn added_all<P: OsqueryPlugin>(
    before: Seq<Registered<P>>,
    plugins: Seq<P>,
    after: Seq<Registered<P>>,
    outcome: Result<(), error::ErrorView>,
) -> bool {
    match outcome {
        Ok(_) => added(before, plugins, plugins.len() as int, after),
        Err(_) => exists|n: int|
            added(before, plugins, n, after) && #[trigger] refused_at(plugins, n, after, outcome),
    }
}

impl<P: OsqueryPlugin> PluginRegistry<P> {
    /// Where a request for the plugin `item` of `registry` goes, or the
    /// refusal that it goes nowhere.
    pub fn lookup(&self, registry: &str, item: &str) -> (r: Result<usize, ExtensionResponse>)
        ensures
            match r {
                Ok(i) => route_for(self.entries(), registry@, item@) matches Ok(place) && is_at(
                    self.entries(),
                    i as int,
                    place.0,
                    place.1,
                ),
                Err(response) => route_for(self.entries(), registry@, item@) matches Err(words)
                    && response.deep_view() == wire::refusal(words),
            },
    {
        let name = match <RegistryName as std::str::FromStr>::from_str(registry) {
            Ok(name) => name,
            Err(words) => return Err(wire::refuse(words)),
        };
        if !self.knows(name) {
            return Err(wire::refuse(text::concat("Unknown registry: ", registry)));
        }
        match self.position(name, item) {
            Some(i) => Ok(i),
            None => Err(wire::refuse(text::concat("Unknown registry item: ", item))),
        }
    }

    /// The plugin that a request for the plugin `item` of `registry` goes to,
    /// or the refusal that it goes nowhere.
    pub fn find(&self, registry: &str, item: &str) -> (r: Result<&P, ExtensionResponse>)
        ensures
            match r {
                Ok(plugin) => route_for(self.entries(), registry@, item@) matches Ok(place)
                    && plugin_at(self.entries(), place.0, place.1, *plugin),
                Err(response) => route_for(self.entries(), registry@, item@) matches Err(words)
                    && response.deep_view() == wire::refusal(words),
            },
    {
        match self.lookup(registry, item) {
            Ok(i) => Ok(&self.entries[i].plugin),
            Err(response) => Err(response),
        }
    }

    /// Answers a request of osquery for the plugin `item` of `registry`.
    pub fn handle_call(&mut self, registry: &str, item: &str, request: PluginRequest) -> (r:
        ExtensionResponse)
        requires
            well_kept(old(self).entries()),
        ensures
            well_kept(final(self).entries()),
            call_answer(
                old(self).entries(),
                final(self).entries(),
                registry@,
                item@,
                request.deep_view(),
                r.deep_view(),
            ),
    {
        let ghost before = self.entries@;
        let i: usize = match self.lookup(registry, item) {
            Ok(i) => i,
            Err(response) => return response,
        };
        let made = self.entries[i].plugin.call(request);
        proof {
            let reply = error::outcome(made);
            let after = self.entries@;
            lemma_still_well_kept(before, after, i as int);
            assert(one_called(before, after, i as int, request.deep_view(), reply));
        }
        wire::respond(made)
    }

    /// Asks every plugin for its routes, for osquery.
    pub fn gen_registry(&mut self) -> (r: ExtensionRegistry)
        requires
            well_kept(old(self).entries()),
        ensures
            well_kept(final(self).entries()),
            all_routes_asked(old(self).entries(), final(self).entries()),
            r.deep_view() == advertised(slots_of(final(self).entries())),
    {
        let ghost before = self.entries@;
        let mut r: ExtensionRegistry = TextMap::new();
        let mut i: usize = 0;
        while i < self.entries.len()
            invariant
                well_kept(before),
                well_kept(self.entries@),
                same_places(before, self.entries@),
                i <= before.len(),
                forall|j: int|
                    0 <= j < i ==> {
                        &&& (#[trigger] self.entries@[j]).plugin.history()
                            == before[j].plugin.history().push(
                            server::PluginEvent::Routes(routes_given(self.entries@[j])),
                        )
                        &&& before[j].plugin.may_offer(routes_given(self.entries@[j]))
                        &&& server::behaves_alike(before[j].plugin, self.entries@[j].plugin)
                    },
                forall|j: int| i <= j < before.len() ==> #[trigger] self.entries@[j] == before[j],
                r.deep_view() == advertised(slots_of(self.entries@).take(i as int)),
            decreases before.len() - i,
        {
            let ghost now = self.entries@;
            let routes = self.entries[i].plugin.routes();
            let registry = self.entries[i].registry.to_string();
            let name = self.entries[i].name.clone();
            proof {
                let after = self.entries@;
                lemma_still_well_kept(now, after, i as int);
                let slots = slots_of(after).take(i + 1);
                assert(slots.drop_last() =~= slots_of(now).take(i as int));
            }
            put_routes(&mut r, registry, name, routes);
            i += 1;
        }
        proof {
            let slots = slots_of(self.entries@);
            assert(slots.take(slots.len() as int) =~= slots);
        }
        r
    }

    /// Tells every plugin to shut down.
    pub fn shutdown_all(&mut self)
        requires
            well_kept(old(self).entries()),
        ensures
            well_kept(final(self).entries()),
            all_told_to_stop(old(self).entries(), final(self).entries()),
    {
        let ghost before = self.entries@;
        let mut i: usize = 0;
        while i < self.entries.len()
            invariant
                well_kept(self.entries@),
                same_places(before, self.entries@),
                i <= before.len(),
                forall|j: int|
                    0 <= j < i ==> {
                        &&& (#[trigger] self.entries@[j]).plugin.history()
                            == before[j].plugin.history().push(server::PluginEvent::Shutdown)
                        &&& server::behaves_alike(before[j].plugin, self.entries@[j].plugin)
                    },
                forall|j: int| i <= j < before.len() ==> #[trigger] self.entries@[j] == before[j],
            decreases before.len() - i,
        {
            let ghost now = self.entries@;
            self.entries[i].plugin.shutdown();
            proof {
                lemma_still_well_kept(now, self.entries@, i as int);
            }
            i += 1;
        }
    }
}

/// Using one plugin keeps the registry well kept.
proof fn lemma_still_well_kept<P: OsqueryPlugin>(
    before: Seq<Registered<P>>,
    after: Seq<Registered<P>>,
    i: int,
)
    requires
        well_kept(before),
        same_places(before, after),
        0 <= i < before.len(),
        forall|j: int| 0 <= j < before.len() && j != i ==> #[trigger] after[j] == before[j],
        after[i].plugin.ready(),
        after[i].plugin.plugin_name() == before[i].plugin.plugin_name(),
        after[i].plugin.registry() == before[i].plugin.registry(),
    ensures
        well_kept(after),
{
}

/// Puts the routes of a plugin into the registry that osquery gets.
fn put_routes(out: &mut ExtensionRegistry, registry: String, name: String, routes: PluginResponse)
    ensures
        final(out).deep_view() == old(out).deep_view().insert(
            registry@,
            (if old(out).deep_view().contains_key(registry@) {
                old(out).deep_view()[registry@]
            } else {
                Map::empty()
            }).insert(name@, routes.deep_view()),
        ),
{
    let ghost before = out@;
    let fresh: TextMap<PluginResponse> = TextMap::new();
    assert(fresh.deep_view() =~= Map::<Seq<char>, Seq<row::RowView>>::empty());
    let there = out.entry(registry, fresh);
    proof {
        row::lemma_deep_insert(there@, name@, routes);
    }
    there.insert(name, routes);
    proof {
        row::lemma_deep_insert(before, registry@, out@[registry@]);
    }
}

/// A plugin that was registered is found under its registry and name, and
/// another of the same registry and name is refused from then on.
pub proof fn registered_plugins_are_found<P: OsqueryPlugin>(
    before: Seq<Registered<P>>,
    plugin: P,
    entry: Registered<P>,
)
    requires
        is_entry_for(entry, plugin),
    ensures
        has_plugin(before.push(entry), plugin.registry(), plugin.plugin_name()),
        route_for(before.push(entry), plugin.registry().text(), plugin.plugin_name()) == Ok::<
            (RegistryName, Seq<char>),
            Seq<char>,
        >((plugin.registry(), plugin.plugin_name())),
{
    let after = before.push(entry);
    let last = after.len() - 1;
    assert(is_at(after, last, plugin.registry(), plugin.plugin_name()));
    server::registry_names_read_back(plugin.registry());
}

proof fn lemma_places_taken<P: OsqueryPlugin>(
    before: Seq<Registered<P>>,
    plugins: Seq<P>,
    n: int,
    after: Seq<Registered<P>>,
    k: int,
)
    requires
        added(before, plugins, n, after),
        well_kept(after),
        0 <= k <= n,
        k < plugins.len(),
    ensures
        k < n ==> !place_taken(before, plugins, k),
        k == n ==> (has_plugin(after, plugins[k].registry(), plugins[k].plugin_name())
            <==> place_taken(before, plugins, k)),
{
    let registry = plugins[k].registry();
    let name = plugins[k].plugin_name();
    if has_plugin(before, registry, name) {
        let i = choose|i: int| #[trigger] is_at(before, i, registry, name);
        assert(is_at(after, i, registry, name));
        if k < n {
            assert(is_entry_for(after[before.len() + k], plugins[k]));
        }
    }
    assert forall|m: int| 0 <= m < k && same_place(#[trigger] plugins[m], plugins[k]) implies k == n
        && has_plugin(after, registry, name) by {
        assert(is_entry_for(after[before.len() + m], plugins[m]));
        assert(is_at(after, before.len() + m, registry, name));
        if k < n {
            assert(is_entry_for(after[before.len() + k], plugins[k]));
        }
    }
    if k == n && has_plugin(after, registry, name) {
        let i = choose|i: int| #[trigger] is_at(after, i, registry, name);
        if i < before.len() {
            assert(is_at(before, i, registry, name));
        } else {
            let m = i - before.len();
            assert(is_entry_for(after[before.len() + m], plugins[m]));
            assert(same_place(plugins[m], plugins[k]));
        }
    }
}

/// Plugins that are registered together are registered in order, up to the
/// first whose place is taken: all of them, where there is none; else those
/// before it and no other, and the error names it.
pub proof fn batches_stop_at_the_first_clash<P: OsqueryPlugin>(
    before: Seq<Registered<P>>,
    plugins: Seq<P>,
    after: Seq<Registered<P>>,
    outcome: Result<(), error::ErrorView>,
)
    requires
        added_all(before, plugins, after, outcome),
        well_kept(after),
    ensures
        outcome is Ok <==> !clash(before, plugins),
        outcome is Ok ==> added(before, plugins, plugins.len() as int, after),
        outcome is Err ==> exists|n: int|
            {
                &&& added(before, plugins, n, after)
                &&& #[trigger] place_taken(before, plugins, n)
                &&& n < plugins.len()
                &&& forall|m: int| 0 <= m < n ==> !#[trigger] place_taken(before, plugins, m)
                &&& outcome == Err::<(), _>(
                    error::ErrorView::Other(
                        name_taken(plugins[n].plugin_name(), plugins[n].registry()),
                    ),
                )
            },
{
    if outcome is Ok {
        assert forall|m: int| 0 <= m < plugins.len() implies !#[trigger] place_taken(
            before,
            plugins,
            m,
        ) by {
            lemma_places_taken(before, plugins, plugins.len() as int, after, m);
        }
    } else {
        let n = choose|n: int|
            added(before, plugins, n, after) && #[trigger] refused_at(plugins, n, after, outcome);
        lemma_places_taken(before, plugins, n, after, n);
        assert forall|m: int| 0 <= m < n implies !#[trigger] place_taken(before, plugins, m) by {
            lemma_places_taken(before, plugins, n, after, m);
        }
        assert(place_taken(before, plugins, n));
    }
}

/// Where plugins are well kept, a request can only go to one place.
pub proof fn requests_go_to_one_plugin<P: OsqueryPlugin>(
    entries: Seq<Registered<P>>,
    i: int,
    j: int,
    registry: RegistryName,
    name: Seq<char>,
)
    requires
        well_kept(entries),
        is_at(entries, i, registry, name),
        is_at(entries, j, registry, name),
    ensures
        i == j,
{
}

/// A request that is made once osquery knows the plugins is answered by what
/// the plugin of that name might answer when it was registered, and a steady
/// plugin answers the next request likewise.
pub proof fn plugins_answer_for_themselves<P: OsqueryPlugin>(
    before: Seq<Registered<P>>,
    offered: Seq<Registered<P>>,
    after: Seq<Registered<P>>,
    i: int,
    registry: RegistryName,
    item: Seq<char>,
    request: row::RowView,
    response: wire::ResponseView,
)
    requires
        well_kept(offered),
        is_at(before, i, registry, item),
        all_routes_asked(before, offered),
        call_answer(offered, after, registry.text(), item, request, response),
    ensures
        exists|reply: Result<Seq<row::RowView>, error::ErrorView>|
            {
                &&& #[trigger] before[i].plugin.may_answer(request, reply)
                &&& response == wire::reply_for(reply)
            },
        before[i].plugin.steady() ==> server::behaves_alike(before[i].plugin, after[i].plugin),
{
    server::registry_names_read_back(registry);
    assert(is_at(offered, i, registry, item));
    assert(offered[i].registry == registry);
    let (k, reply) = choose|k: int, reply: Result<Seq<row::RowView>, error::ErrorView>|
        {
            &&& is_at(offered, k, registry, item)
            &&& #[trigger] one_called(offered, after, k, request, reply)
            &&& response == wire::reply_for(reply)
        };
    requests_go_to_one_plugin(offered, i, k, registry, item);
    assert(offered[i].plugin.may_answer(request, reply));
    assert(before[i].plugin.may_answer(request, reply));
}

/// osquery is told of nothing but the plugins, and of each with routes that a
/// plugin of that registry and name gave.
pub proof fn only_plugins_are_advertised(
    slots: Seq<(RegistryName, Seq<char>, Seq<row::RowView>)>,
    registry: Seq<char>,
    name: Seq<char>,
)
    requires
        advertised(slots).contains_key(registry),
        advertised(slots)[registry].contains_key(name),
    ensures
        exists|i: int|
            {
                &&& 0 <= i < slots.len()
                &&& (#[trigger] slots[i]).0.text() == registry
                &&& slots[i].1 == name
                &&& slots[i].2 == advertised(slots)[registry][name]
            },
    decreases slots.len(),
{
    let rest = slots.drop_last();
    let last = slots.len() - 1;
    if !(slots[last].0.text() == registry && slots[last].1 == name) {
        only_plugins_are_advertised(rest, registry, name);
        let i = choose|i: int|
            {
                &&& 0 <= i < rest.len()
                &&& (#[trigger] rest[i]).0.text() == registry
                &&& rest[i].1 == name
                &&& rest[i].2 == advertised(rest)[registry][name]
            };
        assert(slots[i] == rest[i]);
    }
}

/// A registry of which osquery is told has a plugin.
pub proof fn advertised_registries_have_plugins(
    slots: Seq<(RegistryName, Seq<char>, Seq<row::RowView>)>,
    registry: Seq<char>,
)
    requires
        advertised(slots).contains_key(registry),
    ensures
        exists|i: int| 0 <= i < slots.len() && (#[trigger] slots[i]).0.text() == registry,
    decreases slots.len(),
{
    let rest = slots.drop_last();
    let last = slots.len() - 1;
    if slots[last].0.text() != registry {
        advertised_registries_have_plugins(rest, registry);
        let i = choose|i: int| 0 <= i < rest.len() && (#[trigger] rest[i]).0.text() == registry;
        assert(slots[i] == rest[i]);
    }
}

/// osquery is told of every plugin, with the routes that it gave, where no two
/// share registry and name.
pub proof fn every_plugin_is_advertised(
    slots: Seq<(RegistryName, Seq<char>, Seq<row::RowView>)>,
    i: int,
)
    requires
        0 <= i < slots.len(),
        forall|a: int, b: int|
            0 <= a < b < slots.len() ==> !((#[trigger] slots[a]).0 == (#[trigger] slots[b]).0
                && slots[a].1 == slots[b].1),
    ensures
        advertised(slots).contains_key(slots[i].0.text()),
        row::at(advertised(slots)[slots[i].0.text()], slots[i].1) == Some(slots[i].2),
    decreases slots.len(),
{
    let rest = slots.drop_last();
    let last = slots.len() - 1;
    if i < last {
        every_plugin_is_advertised(rest, i);
        server::registry_names_read_back(slots[i].0);
        server::registry_names_read_back(slots[last].0);
    }
}

/// A request goes to the plugin that is registered under the registry and the
/// name in it. Where the registry has no plugin, or none of that name, the
/// request goes nowhere, and what is unknown is named.
pub proof fn requests_go_where_a_plugin_is<P: OsqueryPlugin>(
    entries: Seq<Registered<P>>,
    i: int,
    registry: Seq<char>,
    item: Seq<char>,
)
    ensures
        0 <= i < entries.len() && entries[i].registry.text() == registry && entries[i].name@ == item
            ==> route_for(entries, registry, item) == Ok::<_, Seq<char>>(
            (entries[i].registry, item),
        ),
        (forall|j: int|
            0 <= j < entries.len() ==> (#[trigger] entries[j]).registry.text() != registry)
            ==> route_for(entries, registry, item) == Err::<(RegistryName, Seq<char>), _>(
            "Unknown registry: "@ + registry,
        ),
        0 <= i < entries.len() && entries[i].registry.text() == registry && (forall|j: int|
            0 <= j < entries.len() && (#[trigger] entries[j]).registry.text() == registry
                ==> entries[j].name@ != item) ==> route_for(entries, registry, item) == Err::<
            (RegistryName, Seq<char>),
            _,
        >("Unknown registry item: "@ + item),
{
    server::no_other_names_are_registries(registry);
    if 0 <= i < entries.len() && entries[i].registry.text() == registry {
        server::registry_names_read_back(entries[i].registry);
        if entries[i].name@ == item {
            assert(is_at(entries, i, entries[i].registry, item));
        }
    }
    if server::registry_named(registry) is Ok {
        let r = server::registry_named(registry)->Ok_0;
        if has_registry(entries, r) {
            let j = choose|j: int| 0 <= j < entries.len() && (#[trigger] entries[j]).registry == r;
            assert(entries[j].registry.text() == registry);
        }
        if has_plugin(entries, r, item) {
            let j = choose|j: int| #[trigger] is_at(entries, j, r, item);
            assert(entries[j].registry.text() == registry);
        }
    }
}

/// A request that goes nowhere reaches no plugin, and is answered with status
/// 1, the name of what is unknown, and no rows.
pub proof fn requests_for_nobody_are_refused<P: OsqueryPlugin>(
    before: Seq<Registered<P>>,
    after: Seq<Registered<P>>,
    registry: Seq<char>,
    item: Seq<char>,
    request: row::RowView,
    response: wire::ResponseView,
)
    requires
        call_answer(before, after, registry, item, request, response),
        forall|j: int|
            0 <= j < before.len() && (#[trigger] before[j]).registry.text() == registry
                ==> before[j].name@ != item,
    ensures
        after == before,
        response.response is None,
        response.status is Some,
        response.status->0.code == Some(1i32),
        response.status->0.uuid is None,
        (forall|j: int|
            0 <= j < before.len() ==> (#[trigger] before[j]).registry.text() != registry)
            ==> response.status->0.message == Some("Unknown registry: "@ + registry),
        !(forall|j: int|
            0 <= j < before.len() ==> (#[trigger] before[j]).registry.text() != registry)
            ==> response.status->0.message == Some("Unknown registry item: "@ + item),
{
    if forall|j: int|
        0 <= j < before.len() ==> (#[trigger] before[j]).registry.text() != registry {
        requests_go_where_a_plugin_is(before, 0, registry, item);
    } else {
        let i = choose|i: int|
            0 <= i < before.len() && (#[trigger] before[i]).registry.text() == registry;
        requests_go_where_a_plugin_is(before, i, registry, item);
    }
}

/// A request reaches the plugin that it names, once and as it came, and no
/// other plugin. The answer is the one that this plugin made.
pub proof fn requests_reach_their_plugin<P: OsqueryPlugin>(
    before: Seq<Registered<P>>,
    after: Seq<Registered<P>>,
    i: int,
    item: Seq<char>,
    request: row::RowView,
    response: wire::ResponseView,
)
    requires
        well_kept(before),
        0 <= i < before.len(),
        before[i].name@ == item,
        call_answer(before, after, before[i].registry.text(), item, request, response),
    ensures
        after.len() == before.len(),
        forall|j: int|
            0 <= j < before.len() ==> (#[trigger] after[j]).registry == before[j].registry
                && after[j].name == before[j].name,
        forall|j: int|
            0 <= j < before.len() && j != i ==> (#[trigger] after[j]).plugin == before[j].plugin,
        after[i].plugin.history().len() == before[i].plugin.history().len() + 1,
        after[i].plugin.history().drop_last() == before[i].plugin.history(),
        after[i].plugin.history().last() is Call,
        after[i].plugin.history().last()->request == request,
        before[i].plugin.may_answer(request, after[i].plugin.history().last()->reply),
        after[i].plugin.history().last()->reply is Ok ==> response.response == Some(
            after[i].plugin.history().last()->reply->Ok_0,
        ) && response.status->0.code == Some(0i32),
        after[i].plugin.history().last()->reply is Err ==> response.response is None,
{
    requests_go_where_a_plugin_is(before, i, before[i].registry.text(), item);
    let (k, reply) = choose|k: int, reply: Result<Seq<row::RowView>, error::ErrorView>|
        {
            &&& is_at(before, k, before[i].registry, item)
            &&& #[trigger] one_called(before, after, k, request, reply)
            &&& response == wire::reply_for(reply)
        };
    assert(is_at(before, i, before[i].registry, item));
    requests_go_to_one_plugin(before, i, k, before[i].registry, item);
    assert(after[i].plugin.history().drop_last() =~= before[i].plugin.history());
}

/// Every plugin that is asked for its routes is asked once, and osquery is
/// told what it gave. Nothing else of it changes.
pub proof fn every_plugin_gives_its_routes<P: OsqueryPlugin>(
    before: Seq<Registered<P>>,
    after: Seq<Registered<P>>,
    i: int,
)
    requires
        all_routes_asked(before, after),
        0 <= i < before.len(),
    ensures
        after.len() == before.len(),
        after[i].registry == before[i].registry,
        after[i].name == before[i].name,
        after[i].plugin.history().len() == before[i].plugin.history().len() + 1,
        after[i].plugin.history().drop_last() == before[i].plugin.history(),
        after[i].plugin.history().last() == server::PluginEvent::Routes(slots_of(after)[i].2),
        before[i].plugin.may_offer(slots_of(after)[i].2),
        slots_of(after).len() == after.len(),
        slots_of(after)[i].0 == before[i].registry,
        slots_of(after)[i].1 == before[i].name@,
        server::behaves_alike(before[i].plugin, after[i].plugin),
{
    assert(after[i].plugin.history() == before[i].plugin.history().push(
        server::PluginEvent::Routes(routes_given(after[i])),
    ));
    assert(after[i].plugin.history().drop_last() =~= before[i].plugin.history());
}

/// Every plugin that is told to shut down is told once. Nothing else of it
/// changes.
pub proof fn every_plugin_is_told<P: OsqueryPlugin>(
    before: Seq<Registered<P>>,
    after: Seq<Registered<P>>,
    i: int,
)
    requires
        all_told_to_stop(before, after),
        0 <= i < before.len(),
    ensures
        after.len() == before.len(),
        after[i].registry == before[i].registry,
        after[i].name == before[i].name,
        after[i].plugin.history().len() == before[i].plugin.history().len() + 1,
        after[i].plugin.history().drop_last() == before[i].plugin.history(),
        after[i].plugin.history().last() is Shutdown,
        server::behaves_alike(before[i].plugin, after[i].plugin),
{
    assert(after[i].plugin.history() == before[i].plugin.history().push(
        server::PluginEvent::Shutdown,
    ));
    assert(after[i].plugin.history().drop_last() =~= before[i].plugin.history());
}

/// Plugins that join stand behind those that were there, which stay as they
/// are, each under its own registry and name.
pub proof fn plugins_join_at_the_end<P: OsqueryPlugin>(
    before: Seq<Registered<P>>,
    plugins: Seq<P>,
    n: int,
    after: Seq<Registered<P>>,
    i: int,
)
    requires
        added(before, plugins, n, after),
    ensures
        after.len() == before.len() + n,
        0 <= n <= plugins.len(),
        0 <= i < before.len() ==> after[i] == before[i],
        before.len() <= i < before.len() + n ==> {
            &&& after[i].plugin == plugins[i - before.len()]
            &&& after[i].registry == plugins[i - before.len()].registry()
            &&& after[i].name@ == plugins[i - before.len()].plugin_name()
        },
{
    if before.len() <= i < before.len() + n {
        let k = i - before.len();
        assert(is_entry_for(after[before.len() + k], plugins[k]));
    }
}

/// A refused plugin is named, with its registry.
pub proof fn refused_plugins_are_named(name: Seq<char>, registry: RegistryName)
    ensures
        name_taken(name, registry) == "plugin \""@ + name + "\" already registered in "@
            + registry.text() + " registry"@,
{
}

} // verus!
