//! Config plugins: osquery's configuration, from an extension.
//!
//! A config plugin gives a map from source names to configurations in JSON.
//! It may also give query packs, when osquery finds a reference to one that
//! the extension is to resolve.

use crate::error;
use crate::error::Error;
use crate::plugin::mutation;
use crate::row;
use crate::row::{PluginRequest, PluginResponse};
use crate::server;
use crate::server::{OsqueryPlugin, RegistryName};
use crate::text;
use crate::text_map::TextMap;
use vstd::prelude::*;
use vstd::string::*;

verus! {

broadcast use vstd::string::group_string_axioms;

/// Configurations in JSON, by source name.
pub type Config = TextMap<String>;

/// Something that makes query packs: any function from a pack's name and
/// value to its configuration in JSON.
pub trait GenPack: Send + Sync {
    /// Whether it can be called with every name and value.
    spec fn fit(&self) -> bool;

    /// Whether it may answer `reply` to `name` and `value`.
    spec fn may_give(
        &self,
        name: Seq<char>,
        value: Seq<char>,
        reply: Result<Seq<char>, error::ErrorView>,
    ) -> bool;

    /// Makes the pack `name`.
    fn gen_pack(&mut self, name: &str, value: &str) -> (r: Result<String, Error>)
        requires
            old(self).fit(),
        ensures
            final(self).fit(),
            old(self).may_give(name@, value@, error::outcome(r)),
            forall|n: Seq<char>, v: Seq<char>, reply: Result<Seq<char>, error::ErrorView>| #[trigger]
                final(self).may_give(n, v, reply) == old(self).may_give(n, v, reply),
    ;
}

/// Whether `gen_pack` can be called with every name and value.
pub open spec fn takes_any_pack<F: FnMut(&str, &str) -> Result<String, Error>>(
    gen_pack: F,
) -> bool {
    forall|name: &str, value: &str| #[trigger] gen_pack.requires((name, value))
}

/// Whether `gen_pack` may answer `reply` to `name` and `value`.
pub open spec fn pack_may_come<F: FnMut(&str, &str) -> Result<String, Error>>(
    gen_pack: F,
    name: Seq<char>,
    value: Seq<char>,
    reply: Result<Seq<char>, error::ErrorView>,
) -> bool {
    exists|n: &str, v: &str, made: Result<String, Error>|
        {
            &&& n@ == name
            &&& v@ == value
            &&& #[trigger] gen_pack.ensures((n, v), made)
            &&& error::outcome(made) == reply
        }
}

impl<F: FnMut(&str, &str) -> Result<String, Error> + Send + Sync> GenPack for F {
    open spec fn fit(&self) -> bool {
        takes_any_pack(*self)
    }

    open spec fn may_give(
        &self,
        name: Seq<char>,
        value: Seq<char>,
        reply: Result<Seq<char>, error::ErrorView>,
    ) -> bool {
        pack_may_come(*self, name, value, reply)
    }

    fn gen_pack(&mut self, name: &str, value: &str) -> (r: Result<String, Error>) {
        self(name, value)
    }
}

/// A plugin that configures osquery.
pub struct ConfigPlugin<GenFunc: FnMut() -> Result<Config, Error>> {
    name: String,
    generate: GenFunc,
    gen_pack: Option<Box<dyn GenPack>>,
    log: Ghost<Seq<server::PluginEvent>>,
}

/// The answer to a request for the configuration, given what was made of it:
/// a status passes through, and any other error is put in context.
pub open spec fn config_reply(made: Result<row::RowView, error::ErrorView>) -> Result<
    Seq<row::RowView>,
    error::ErrorView,
> {
    match made {
        Ok(config) => Ok(seq![config]),
        Err(e) => match e {
            error::ErrorView::Status { .. } => Err(e),
            _ => Err(e.in_context("error getting config"@)),
        },
    }
}

/// The answer to a request for the pack `name`, given what was made of it.
pub open spec fn pack_reply(
    name: Seq<char>,
    made: Result<Seq<char>, error::ErrorView>,
) -> Result<Seq<row::RowView>, error::ErrorView> {
    match made {
        Ok(pack) => Ok(seq![Map::<Seq<char>, Seq<char>>::empty().insert(name, pack)]),
        Err(e) => match e {
            error::ErrorView::Status { .. } => Err(e),
            _ => Err(e.in_context("error generating pack"@)),
        },
    }
}

/// Turns a configuration into the answer to osquery.
pub fn reply_with_config(made: Result<Config, Error>) -> (r: Result<PluginResponse, Error>)
    ensures
        error::outcome(r) == config_reply(error::outcome(made)),
{
    match made {
        Ok(config) => Ok(mutation::one_row(config)),
        Err(e) => match e {
            Error::Status { code, message } => Err(Error::Status { code, message }),
            e => Err(e.context("error getting config")),
        },
    }
}

/// Turns the pack `name` into the answer to osquery.
pub fn reply_with_pack(name: &str, made: Result<String, Error>) -> (r: Result<
    PluginResponse,
    Error,
>)
    ensures
        error::outcome(r) == pack_reply(name@, error::outcome(made)),
{
    match made {
        Ok(pack) => {
            let mut row = row::empty_row();
            row::set_field(&mut row, name, pack);
            Ok(mutation::one_row(row))
        },
        Err(e) => match e {
            Error::Status { code, message } => Err(Error::Status { code, message }),
            e => Err(e.context("error generating pack")),
        },
    }
}

impl<GenFunc: FnMut() -> Result<Config, Error>> ConfigPlugin<GenFunc> {
    /// The plugin's name.
    pub closed spec fn called(&self) -> Seq<char> {
        self.name@
    }

    /// The function that makes the configuration.
    pub closed spec fn generator(&self) -> GenFunc {
        self.generate
    }

    /// Whether the plugin makes packs.
    pub closed spec fn packs(&self) -> bool {
        self.gen_pack is Some
    }

    /// Whether what makes the packs, if anything, is fit for use.
    pub closed spec fn packs_fit(&self) -> bool {
        self.gen_pack matches Some(g) ==> g.fit()
    }

    /// Whether what makes the packs may answer `reply` to `name` and `value`.
    pub closed spec fn pack_may_be(
        &self,
        name: Seq<char>,
        value: Seq<char>,
        reply: Result<Seq<char>, error::ErrorView>,
    ) -> bool {
        self.gen_pack matches Some(g) && g.may_give(name, value, reply)
    }

    /// What was asked of the plugin so far, and what it answered.
    pub closed spec fn asked(&self) -> Seq<server::PluginEvent> {
        self.log@
    }

    /// A plugin whose configuration `generate` makes. It makes no packs.
    pub fn new(name: &str, generate: GenFunc) -> (r: Self)
        ensures
            r.called() == name@,
            r.generator() == generate,
            !r.packs(),
            r.packs_fit(),
            r.asked() == Seq::<server::PluginEvent>::empty(),
    {
        ConfigPlugin { name: name.to_string(), generate, gen_pack: None, log: Ghost(Seq::empty()) }
    }

    /// The plugin that also makes packs, by `gen_pack`.
    ///
    /// osquery asks for a pack when its configuration refers to one that the
    /// extension is to resolve. Without this, it is told that packs are not
    /// supported.
    #[must_use]
    pub fn with_gen_pack<F: FnMut(&str, &str) -> Result<String, Error> + Send + Sync + 'static>(
        self,
        gen_pack: F,
    ) -> (r: Self)
        ensures
            r.called() == self.called(),
            r.generator() == self.generator(),
            r.asked() == self.asked(),
            r.packs(),
            r.packs_fit() == takes_any_pack(gen_pack),
            forall|name: Seq<char>, value: Seq<char>, reply: Result<Seq<char>, error::ErrorView>|
                #[trigger] r.pack_may_be(name, value, reply) == pack_may_come(
                    gen_pack,
                    name,
                    value,
                    reply,
                ),
    {
        ConfigPlugin { gen_pack: Some(Box::new(gen_pack)), ..self }
    }

    /// Whether `reply` answers a request for the pack `name`.
    pub open spec fn pack_answers(
        &self,
        name: Seq<char>,
        value: Seq<char>,
        reply: Result<Seq<row::RowView>, error::ErrorView>,
    ) -> bool {
        exists|made: Result<Seq<char>, error::ErrorView>|
            {
                &&& #[trigger] self.pack_may_be(name, value, made)
                &&& reply == pack_reply(name, made)
            }
    }

    /// Whether `reply` answers `request`.
    pub open spec fn answers(
        &self,
        request: row::RowView,
        reply: Result<Seq<row::RowView>, error::ErrorView>,
    ) -> bool {
        match row::at(request, "action"@) {
            None => reply == Err::<Seq<row::RowView>, _>(
                error::ErrorView::Other("missing action"@),
            ),
            Some(action) => if action == "genConfig"@ {
                exists|made: Result<Config, Error>|
                    {
                        &&& #[trigger] self.generator().ensures((), made)
                        &&& reply == config_reply(error::outcome(made))
                    }
            } else if action == "genPack"@ {
                match row::at(request, "name"@) {
                    None => reply == Err::<Seq<row::RowView>, _>(
                        error::ErrorView::Other("missing name in genPack request"@),
                    ),
                    Some(name) => match row::at(request, "value"@) {
                        None => reply == Err::<Seq<row::RowView>, _>(
                            error::ErrorView::Other("missing value in genPack request"@),
                        ),
                        Some(value) => if self.packs() {
                            self.pack_answers(name, value, reply)
                        } else {
                            reply == Err::<Seq<row::RowView>, _>(
                                error::ErrorView::Other("genPack not supported"@),
                            )
                        },
                    },
                }
            } else {
                reply == Err::<Seq<row::RowView>, _>(
                    error::ErrorView::Other("unknown action: "@ + action),
                )
            },
        }
    }

    fn answer(&mut self, req: &PluginRequest) -> (r: Result<PluginResponse, Error>)
        requires
            old(self).generator().requires(()),
            old(self).packs_fit(),
        ensures
            final(self).packs_fit(),
            same_functions(*old(self), *final(self)),
            final(self).called() == old(self).called(),
            final(self).asked() == old(self).asked(),
            old(self).answers(req.deep_view(), error::outcome(r)),
    {
        let action = match row::field(req, "action") {
            None => return Err(Error::Other("missing action".to_string())),
            Some(action) => action,
        };
        if text::text_eq(action, "genConfig") {
            let made = (self.generate)();
            reply_with_config(made)
        } else if text::text_eq(action, "genPack") {
            let name = match row::field(req, "name") {
                None => {
                    return Err(Error::Other("missing name in genPack request".to_string()));
                },
                Some(name) => name,
            };
            let value = match row::field(req, "value") {
                None => {
                    return Err(Error::Other("missing value in genPack request".to_string()));
                },
                Some(value) => value,
            };
            match self.gen_pack.as_mut() {
                None => Err(Error::Other("genPack not supported".to_string())),
                Some(gen_pack) => {
                    let made = gen_pack.gen_pack(name, value);
                    assert(old(self).pack_may_be(name@, value@, error::outcome(made)));
                    reply_with_pack(name, made)
                },
            }
        } else {
            Err(Error::Other(text::concat("unknown action: ", action)))
        }
    }
}

/// Whether `after` makes its configuration and its packs by the functions that
/// `before` makes them by.
pub open spec fn same_functions<GenFunc: FnMut() -> Result<Config, Error>>(
    before: ConfigPlugin<GenFunc>,
    after: ConfigPlugin<GenFunc>,
) -> bool {
    &&& after.generator() == before.generator()
    &&& after.packs() == before.packs()
    &&& forall|name: Seq<char>, value: Seq<char>, reply: Result<Seq<char>, error::ErrorView>|
        #[trigger]
        after.pack_may_be(name, value, reply) == before.pack_may_be(name, value, reply)
}

impl<GenFunc: FnMut() -> Result<Config, Error> + Send + Sync> OsqueryPlugin for ConfigPlugin<
    GenFunc,
> {
    open spec fn ready(&self) -> bool {
        self.generator().requires(()) && self.packs_fit()
    }

    open spec fn plugin_name(&self) -> Seq<char> {
        self.called()
    }

    open spec fn registry(&self) -> RegistryName {
        RegistryName::Config
    }

    open spec fn history(&self) -> Seq<server::PluginEvent> {
        self.asked()
    }

    open spec fn health_may_be(&self, reply: Result<(), error::ErrorView>) -> bool {
        reply is Ok
    }

    open spec fn may_answer(
        &self,
        request: row::RowView,
        reply: Result<Seq<row::RowView>, error::ErrorView>,
    ) -> bool {
        self.answers(request, reply)
    }

    open spec fn may_offer(&self, rows: Seq<row::RowView>) -> bool {
        rows == Seq::<row::RowView>::empty()
    }

    open spec fn steady(&self) -> bool {
        true
    }

    fn name(&self) -> (r: &str) {
        self.name.as_str()
    }

    fn registry_name(&self) -> (r: RegistryName) {
        RegistryName::Config
    }

    /// A config plugin has no routes.
    fn routes(&mut self) -> (r: PluginResponse)
        ensures
            r.deep_view() == Seq::<row::RowView>::empty(),
            same_functions(*old(self), *final(self)),
    {
        let r: PluginResponse = Vec::new();
        proof {
            assert(r.deep_view() =~= Seq::<row::RowView>::empty());
            self.log@ = self.log@.push(server::PluginEvent::Routes(r.deep_view()));
            lemma_same_answers(*old(self), *self);
        }
        r
    }

    /// A config plugin is always well.
    fn ping(&mut self) -> (r: Result<(), Error>)
        ensures
            r is Ok,
            *final(self) == *old(self),
    {
        Ok(())
    }

    fn call(&mut self, req: PluginRequest) -> (r: Result<PluginResponse, Error>)
        ensures
            old(self).answers(req.deep_view(), error::outcome(r)),
            same_functions(*old(self), *final(self)),
    {
        let r = self.answer(&req);
        let ghost answered = *self;
        proof {
            self.log@ = self.log@.push(
                server::PluginEvent::Call { request: req.deep_view(), reply: error::outcome(r) },
            );
            assert forall|
                name: Seq<char>,
                value: Seq<char>,
                reply: Result<Seq<char>, error::ErrorView>,
            | #[trigger]
                self.pack_may_be(name, value, reply) == answered.pack_may_be(
                    name,
                    value,
                    reply,
                ) by {}
            lemma_same_answers(*old(self), *self);
        }
        r
    }

    fn shutdown(&mut self)
        ensures
            same_functions(*old(self), *final(self)),
    {
        proof {
            self.log@ = self.log@.push(server::PluginEvent::Shutdown);
            lemma_same_answers(*old(self), *self);
        }
    }
}

/// A config plugin is ready for requests when its functions can be called. It
/// is in the config registry under the name that it was given.
pub proof fn config_plugins_are_ready<GenFunc: FnMut() -> Result<Config, Error> + Send + Sync>(
    plugin: ConfigPlugin<GenFunc>,
)
    ensures
        plugin.ready() == (plugin.generator().requires(()) && plugin.packs_fit()),
        plugin.plugin_name() == plugin.called(),
        plugin.registry() == RegistryName::Config,
        plugin.history() == plugin.asked(),
        forall|reply: Result<(), error::ErrorView>| #[trigger]
            plugin.health_may_be(reply) <==> reply is Ok,
        forall|request: row::RowView, reply: Result<Seq<row::RowView>, error::ErrorView>| #[trigger]
            plugin.may_answer(request, reply) <==> plugin.answers(request, reply),
        forall|rows: Seq<row::RowView>| #[trigger]
            plugin.may_offer(rows) <==> rows == Seq::<row::RowView>::empty(),
        plugin.steady(),
{
}

/// A plugin that keeps its functions answers every further request by them.
pub proof fn the_functions_answer_every_time<GenFunc: FnMut() -> Result<Config, Error>>(
    before: ConfigPlugin<GenFunc>,
    after: ConfigPlugin<GenFunc>,
    request: row::RowView,
    reply: Result<Seq<row::RowView>, error::ErrorView>,
)
    requires
        same_functions(before, after),
    ensures
        after.answers(request, reply) == before.answers(request, reply),
{
    match (row::at(request, "name"@), row::at(request, "value"@)) {
        (Some(name), Some(value)) => {
            if before.pack_answers(name, value, reply) {
                let made = choose|made: Result<Seq<char>, error::ErrorView>|
                    #[trigger] before.pack_may_be(name, value, made) && reply == pack_reply(
                        name,
                        made,
                    );
                assert(after.pack_may_be(name, value, made));
            }
        },
        _ => {},
    }
}

proof fn lemma_same_answers<GenFunc: FnMut() -> Result<Config, Error>>(
    before: ConfigPlugin<GenFunc>,
    after: ConfigPlugin<GenFunc>,
)
    requires
        same_functions(before, after),
    ensures
        forall|request: row::RowView, reply: Result<Seq<row::RowView>, error::ErrorView>| #[trigger]
            after.answers(request, reply) == before.answers(request, reply),
{
    assert forall|request: row::RowView, reply: Result<Seq<row::RowView>, error::ErrorView>|
        #[trigger] after.answers(request, reply) == before.answers(request, reply) by {
        the_functions_answer_every_time(before, after, request, reply);
    }
}

/// A status that a generator reports reaches osquery with its code and words;
/// any other error keeps its kind.
pub proof fn statuses_pass_through(
    name: Seq<char>,
    config: Result<row::RowView, error::ErrorView>,
    pack: Result<Seq<char>, error::ErrorView>,
)
    ensures
        config is Err && config->Err_0 is Status ==> config_reply(config) == Err::<
            Seq<row::RowView>,
            _,
        >(config->Err_0),
        pack is Err && pack->Err_0 is Status ==> pack_reply(name, pack) == Err::<
            Seq<row::RowView>,
            _,
        >(pack->Err_0),
        config matches Err(e) ==> (e is Transport <==> config_reply(config)->Err_0 is Transport),
        pack matches Err(e) ==> (e is Transport <==> pack_reply(name, pack)->Err_0 is Transport),
{
}

/// A pack comes back under the name that it was asked for.
pub proof fn packs_come_under_their_name(name: Seq<char>, pack: Seq<char>)
    ensures
        pack_reply(name, Ok(pack)) matches Ok(rows) && rows.len() == 1 && row::at(rows[0], name)
            == Some(pack),
{
}

/// A configuration is answered as one row, as it was made. An error that is no
/// status keeps its kind, with where it comes from before its words.
pub proof fn configurations_are_the_answer(config: row::RowView, words: Seq<char>, code: i32)
    ensures
        config_reply(Ok(config)) == Ok::<_, error::ErrorView>(seq![config]),
        config_reply(Err(error::ErrorView::Transport(words))) == Err::<Seq<row::RowView>, _>(
            error::ErrorView::Transport("error getting config - "@ + words),
        ),
        config_reply(Err(error::ErrorView::Other(words))) == Err::<Seq<row::RowView>, _>(
            error::ErrorView::Other("error getting config - "@ + words),
        ),
        config_reply(Err((error::ErrorView::Status { code, message: words }))) == Err::<
            Seq<row::RowView>,
            _,
        >((error::ErrorView::Status { code, message: words })),
{
    reveal_strlit("error getting config - ");
    reveal_strlit("error getting config");
    reveal_strlit(" - ");
    assert("error getting config"@ + " - "@ =~= "error getting config - "@);
}

/// A pack is answered as one row that holds nothing but the pack, under its
/// name. An error that is no status keeps its kind, with where it comes from
/// before its words.
pub proof fn packs_are_the_answer(
    name: Seq<char>,
    pack: Seq<char>,
    other: Seq<char>,
    words: Seq<char>,
    code: i32,
)
    ensures
        pack_reply(name, Ok(pack)) matches Ok(rows) && rows.len() == 1 && row::at(rows[0], name)
            == Some(pack) && (other != name ==> row::at(rows[0], other) is None),
        pack_reply(name, Err(error::ErrorView::Transport(words))) == Err::<Seq<row::RowView>, _>(
            error::ErrorView::Transport("error generating pack - "@ + words),
        ),
        pack_reply(name, Err(error::ErrorView::Other(words))) == Err::<Seq<row::RowView>, _>(
            error::ErrorView::Other("error generating pack - "@ + words),
        ),
        pack_reply(name, Err((error::ErrorView::Status { code, message: words }))) == Err::<
            Seq<row::RowView>,
            _,
        >((error::ErrorView::Status { code, message: words })),
{
    reveal_strlit("error generating pack - ");
    reveal_strlit("error generating pack");
    reveal_strlit(" - ");
    assert("error generating pack"@ + " - "@ =~= "error generating pack - "@);
}

/// A request for the configuration is answered with what the generator makes,
/// and only with that.
pub proof fn the_generator_makes_the_configuration<GenFunc: FnMut() -> Result<Config, Error>>(
    plugin: ConfigPlugin<GenFunc>,
    request: row::RowView,
    made: Result<Config, Error>,
    reply: Result<Seq<row::RowView>, error::ErrorView>,
)
    requires
        row::at(request, "action"@) == Some("genConfig"@),
    ensures
        plugin.generator().ensures((), made) && made is Ok ==> plugin.answers(
            request,
            Ok(seq![made->Ok_0.deep_view()]),
        ),
        plugin.answers(request, reply) && reply is Ok ==> exists|config: Config| #[trigger]
            plugin.generator().ensures((), Ok::<Config, Error>(config)) && reply->Ok_0
                == seq![config.deep_view()],
        plugin.answers(request, reply) && reply is Err ==> exists|e: Error| #[trigger]
            plugin.generator().ensures((), Err::<Config, Error>(e)) && (e.deep_view() is Status
                ==> reply->Err_0 == e.deep_view()),
{
    lemma_config_actions();
    if plugin.generator().ensures((), made) && made is Ok {
        assert(config_reply(error::outcome(made)) == Ok::<_, error::ErrorView>(
            seq![made->Ok_0.deep_view()],
        ));
    }
    if plugin.answers(request, reply) {
        let given = choose|given: Result<Config, Error>|
            #[trigger] plugin.generator().ensures((), given) && reply == config_reply(
                error::outcome(given),
            );
        match given {
            Ok(config) => {
                assert(plugin.generator().ensures((), Ok::<Config, Error>(config)));
            },
            Err(e) => {
                assert(plugin.generator().ensures((), Err::<Config, Error>(e)));
            },
        }
    }
}

/// A request for a pack is answered with what the pack function makes of its
/// name and value, and only with that.
pub proof fn the_pack_function_makes_the_pack<GenFunc: FnMut() -> Result<Config, Error>>(
    plugin: ConfigPlugin<GenFunc>,
    request: row::RowView,
    name: Seq<char>,
    value: Seq<char>,
    pack: Seq<char>,
    reply: Result<Seq<row::RowView>, error::ErrorView>,
)
    requires
        row::at(request, "action"@) == Some("genPack"@),
        row::at(request, "name"@) == Some(name),
        row::at(request, "value"@) == Some(value),
    ensures
        plugin.packs() && plugin.pack_may_be(name, value, Ok(pack)) ==> plugin.answers(
            request,
            Ok(seq![Map::<Seq<char>, Seq<char>>::empty().insert(name, pack)]),
        ),
        plugin.packs() && plugin.answers(request, reply) && reply is Ok ==> exists|
            made: Seq<char>,
        | #[trigger]
            plugin.pack_may_be(name, value, Ok(made)) && reply->Ok_0 == seq![
                Map::<Seq<char>, Seq<char>>::empty().insert(name, made),
            ],
        plugin.packs() && plugin.answers(request, reply) && reply is Err ==> exists|
            e: error::ErrorView,
        | #[trigger]
            plugin.pack_may_be(name, value, Err(e)) && (e is Status ==> reply->Err_0 == e),
        !plugin.packs() ==> (plugin.answers(request, reply) <==> reply == Err::<
            Seq<row::RowView>,
            _,
        >(error::ErrorView::Other("genPack not supported"@))),
{
    lemma_config_actions();
    if plugin.packs() && plugin.pack_may_be(name, value, Ok(pack)) {
        assert(pack_reply(name, Ok(pack)) == Ok::<_, error::ErrorView>(
            seq![Map::<Seq<char>, Seq<char>>::empty().insert(name, pack)],
        ));
    }
    if plugin.packs() && plugin.answers(request, reply) {
        assert(plugin.pack_answers(name, value, reply));
        let made = choose|made: Result<Seq<char>, error::ErrorView>|
            #[trigger] plugin.pack_may_be(name, value, made) && reply == pack_reply(name, made);
        match made {
            Ok(pack) => {
                assert(plugin.pack_may_be(name, value, Ok(pack)));
            },
            Err(e) => {
                assert(plugin.pack_may_be(name, value, Err(e)));
            },
        }
    }
}

proof fn lemma_config_actions()
    ensures
        "genConfig"@ != "genPack"@,
{
    reveal_strlit("genConfig");
    reveal_strlit("genPack");
    assert("genConfig"@.len() == 9);
    assert("genPack"@.len() == 7);
}

/// A request that lacks a part or asks for something else is refused, and the
/// refusal names what is wrong.
pub proof fn other_requests_are_refused<GenFunc: FnMut() -> Result<Config, Error>>(
    plugin: ConfigPlugin<GenFunc>,
    request: row::RowView,
    action: Seq<char>,
    reply: Result<Seq<row::RowView>, error::ErrorView>,
)
    requires
        plugin.answers(request, reply),
    ensures
        row::at(request, "action"@) is None ==> reply == Err::<Seq<row::RowView>, _>(
            error::ErrorView::Other("missing action"@),
        ),
        row::at(request, "action"@) == Some("genPack"@) && row::at(request, "name"@) is None
            ==> reply == Err::<Seq<row::RowView>, _>(
            error::ErrorView::Other("missing name in genPack request"@),
        ),
        row::at(request, "action"@) == Some("genPack"@) && row::at(request, "name"@) is Some
            && row::at(request, "value"@) is None ==> reply == Err::<Seq<row::RowView>, _>(
            error::ErrorView::Other("missing value in genPack request"@),
        ),
        row::at(request, "action"@) == Some(action) && action != "genConfig"@ && action
            != "genPack"@ ==> reply == Err::<Seq<row::RowView>, _>(
            error::ErrorView::Other("unknown action: "@ + action),
        ),
{
    lemma_config_actions();
}

/// A function that takes a name and a value makes packs: it may give what it
/// may return for them.
pub proof fn pack_by_function<F: FnMut(&str, &str) -> Result<String, Error> + Send + Sync>(
    f: F,
    name: &str,
    value: &str,
    made: Result<String, Error>,
    reply: Result<Seq<char>, error::ErrorView>,
)
    ensures
        f.fit() <==> forall|n: &str, v: &str| #[trigger] f.requires((n, v)),
        f.ensures((name, value), made) ==> f.may_give(name@, value@, error::outcome(made)),
        f.may_give(name@, value@, reply) ==> exists|n: &str, v: &str, given: Result<String, Error>|
            #[trigger] f.ensures((n, v), given) && n@ == name@ && v@ == value@ && reply
                == error::outcome(given),
{
}

} // verus!
