//! The extension manager server: it registers an extension with osquery,
//! answers for its plugins, and takes it away again.

use crate::client;
use crate::client::wire;
use crate::client::wire::{ExtensionResponse, ExtensionStatus};
use crate::client::ExtensionManager;
use crate::error;
use crate::error::Error;
use crate::number;
use crate::row::{ExtensionUuid, PluginRequest};
use crate::server;
use crate::server::registry;
use crate::server::registry::{PluginRegistry, Registered};
use crate::server::teardown;
use crate::server::teardown::{ShutdownAction, ShutdownState};
use crate::server::watch;
use crate::server::OsqueryPlugin;
use crate::text;
use vstd::prelude::*;
use vstd::string::*;
use vstd::utf8::*;

verus! {

broadcast use vstd::string::group_string_axioms;

/// The longest path of a socket, in bytes. osquery's extensions listen on a
/// path with a dot and a number behind it, and Unix allows little over a
/// hundred bytes.
pub const MAX_SOCKET_PATH_CHARACTERS: usize = 97;

/// The sending end of a bounded channel of the standard library.
#[verifier::external_type_specification]
#[verifier::external_body]
#[verifier::reject_recursive_types(T)]
pub struct ExSyncSender<T>(std::sync::mpsc::SyncSender<T>);

/// The receiving end of a channel of the standard library.
#[verifier::external_type_specification]
#[verifier::external_body]
#[verifier::reject_recursive_types(T)]
pub struct ExReceiver<T>(std::sync::mpsc::Receiver<T>);

/// Whether the two are ends of one channel: what is sent at `sender` arrives,
/// in order, at `receiver`.
pub uninterp spec fn one_channel(
    sender: std::sync::mpsc::SyncSender<Option<Error>>,
    receiver: std::sync::mpsc::Receiver<Option<Error>>,
) -> bool;

/// How many signals wait in the channel before a sender has to.
pub uninterp spec fn room(sender: std::sync::mpsc::SyncSender<Option<Error>>) -> nat;

/// Makes a channel by `std::sync::mpsc::sync_channel`. The contract claims that
/// the two are ends of one channel, which has room for `bound` signals. When
/// signals go through it depends on other threads and is not claimed.
#[verifier::external_body]
fn signal_channel(bound: usize) -> (r: (
    std::sync::mpsc::SyncSender<Option<Error>>,
    std::sync::mpsc::Receiver<Option<Error>>,
))
    ensures
        one_channel(r.0, r.1),
        room(r.0) == bound,
{
    std::sync::mpsc::sync_channel(bound)
}

/// Offers a signal by `SyncSender::try_send`, which does not wait. Whether it
/// is taken depends on other threads; the contract claims that a signal that
/// is not taken comes back.
#[verifier::external_body]
fn offer(
    sender: &std::sync::mpsc::SyncSender<Option<Error>>,
    signal: Option<Error>,
) -> (r: Result<(), Option<Error>>)
    ensures
        r matches Err(back) ==> back == signal,
{
    match sender.try_send(signal) {
        Ok(()) => Ok(()),
        Err(std::sync::mpsc::TrySendError::Full(back)) => Err(back),
        Err(std::sync::mpsc::TrySendError::Disconnected(back)) => Err(back),
    }
}

/// Another sender, by the `Clone` of `SyncSender`. A sender is taken for the
/// channel that it sends into, and the contract claims that the other one sends
/// into the same channel.
#[verifier::external_body]
fn another(sender: &std::sync::mpsc::SyncSender<Option<Error>>) -> (r:
    std::sync::mpsc::SyncSender<Option<Error>>)
    ensures
        r == *sender,
{
    sender.clone()
}

/// A handle by which any thread can ask the server to shut down.
#[derive(Debug)]
pub struct ShutdownHandle {
    sender: std::sync::mpsc::SyncSender<Option<Error>>,
}

impl ShutdownHandle {
    /// A handle that signals through `sender`.
    pub fn new(sender: std::sync::mpsc::SyncSender<Option<Error>>) -> (r: Self)
        ensures
            r.channel() == sender,
    {
        ShutdownHandle { sender }
    }

    /// The channel that the handle signals through.
    pub closed spec fn channel(&self) -> std::sync::mpsc::SyncSender<Option<Error>> {
        self.sender
    }

    /// Asks the server to shut down. It leaves osquery, stops listening and
    /// closes its client.
    ///
    /// It may be asked more than once: while one request waits, others are
    /// dropped. Whether this one is taken depends on other threads, so the
    /// call has no contract.
    pub fn shutdown(&self) {
        let _ = self.ask();
    }

    /// Offers the signal for a shutdown, and gives it back where it is not
    /// taken.
    fn ask(&self) -> (r: Result<(), Option<Error>>)
        ensures
            r matches Err(back) ==> back is None,
    {
        offer(&self.sender, clean_signal())
    }
}

/// The signal by which somebody asks for a shutdown. Any other signal is an
/// error that the server cannot go on with.
pub fn clean_signal() -> (r: Option<Error>)
    ensures
        r is None,
        watch::signal_meaning(Some(r)) is Ok,
{
    None
}

impl Clone for ShutdownHandle {
    fn clone(&self) -> (r: Self)
        ensures
            r.channel() == self.channel(),
    {
        ShutdownHandle { sender: another(&self.sender) }
    }
}

/// A span of time.
#[derive(Clone, Copy, Debug, PartialEq, Eq, Structural)]
pub struct Interval {
    pub secs: u64,
    pub nanos: u32,
}

/// Whether the server made its client, and so closes it.
#[derive(Clone, Copy, Debug, Eq, PartialEq, Structural)]
pub enum ClientOwnership {
    /// The server made the client and closes it on shutdown.
    Owned,
    /// Somebody else gave the client; the server leaves it open.
    Borrowed,
}

/// What stops the server from listening: any function without arguments.
pub trait OnStop: Send {
    /// Whether it can be called.
    spec fn fit(&self) -> bool;

    /// What it promises of a call, as its contract has it.
    spec fn promise(&self) -> bool;

    /// Stops listening.
    fn stop(&mut self)
        requires
            old(self).fit(),
        ensures
            final(self).fit(),
            final(self).promise() == old(self).promise(),
            old(self).promise(),
    ;
}

impl<F: FnMut() + Send> OnStop for F {
    open spec fn fit(&self) -> bool {
        self.requires(())
    }

    open spec fn promise(&self) -> bool {
        self.ensures((), ())
    }

    fn stop(&mut self) {
        self()
    }
}

/// Puts together an [`ExtensionManagerServer`] with options.
pub struct ExtensionManagerServerBuilder<C: ExtensionManager> {
    name: String,
    socket_path: String,
    version: Option<String>,
    timeout: Interval,
    ping_interval: Interval,
    client: Option<C>,
}

/// The options of a server in terms of their characters.
pub struct OptionsView {
    pub name: Seq<char>,
    pub socket_path: Seq<char>,
    pub version: Option<Seq<char>>,
    pub timeout: Interval,
    pub ping_interval: Interval,
}

/// The extension manager server. Plugins register with it, and it talks to
/// osquery for them.
pub struct ExtensionManagerServer<P: OsqueryPlugin, C: ExtensionManager> {
    name: String,
    version: Option<String>,
    osquery_client: Option<C>,
    // The client after the server closed it; nothing uses it any more.
    retired: Option<C>,
    client_ownership: ClientOwnership,
    registry: PluginRegistry<P>,
    socket_path: String,
    listen_path: Option<String>,
    uuid: Option<ExtensionUuid>,
    stop: Option<Box<dyn OnStop>>,
    ping_interval: Interval,
    shutdown_tx: std::sync::mpsc::SyncSender<Option<Error>>,
    shutdown_rx: Option<std::sync::mpsc::Receiver<Option<Error>>>,
    course: Ghost<Seq<ShutdownAction>>,
}

/// What is fixed about a server once it is made.
pub struct ServerView {
    pub name: Seq<char>,
    pub version: Option<Seq<char>>,
    pub socket_path: Seq<char>,
    pub client_ownership: ClientOwnership,
    pub ping_interval: Interval,
}

/// What is said of a socket path that is too long.
pub open spec fn path_too_long(path: Seq<char>) -> Seq<char> {
    "socket path "@ + path + " ("@ + number::int_text(encode_utf8(path).len() as int)
        + " characters) exceeded the maximum socket path character length of "@
        + number::int_text(MAX_SOCKET_PATH_CHARACTERS as int)
}

impl<C: ExtensionManager> ExtensionManagerServerBuilder<C> {
    /// The options so far.
    pub closed spec fn options(&self) -> OptionsView {
        OptionsView {
            name: self.name@,
            socket_path: self.socket_path@,
            version: self.version.deep_view(),
            timeout: self.timeout,
            ping_interval: self.ping_interval,
        }
    }

    /// The client that was given, where one was.
    pub closed spec fn given_client(&self) -> Option<C> {
        self.client
    }

    fn new(name: &str, socket_path: &str) -> (r: Self)
        ensures
            r.options() == (OptionsView {
                name: name@,
                socket_path: socket_path@,
                version: None,
                timeout: Interval { secs: 1, nanos: 0 },
                ping_interval: Interval { secs: 5, nanos: 0 },
            }),
            r.given_client() is None,
    {
        ExtensionManagerServerBuilder {
            name: name.to_string(),
            socket_path: socket_path.to_string(),
            version: None,
            timeout: Interval { secs: 1, nanos: 0 },
            ping_interval: Interval { secs: 5, nanos: 0 },
            client: None,
        }
    }

    /// Sets the version that osquery is told.
    #[must_use]
    pub fn version(self, version: &str) -> (r: Self)
        ensures
            r.options() == (OptionsView { version: Some(version@), ..self.options() }),
            r.given_client() == self.given_client(),
    {
        ExtensionManagerServerBuilder { version: Some(version.to_string()), ..self }
    }

    /// Sets how long to wait for osquery's socket. An extension may start
    /// before osquery has made it.
    #[must_use]
    pub fn timeout(self, timeout: Interval) -> (r: Self)
        ensures
            r.options() == (OptionsView { timeout, ..self.options() }),
            r.given_client() == self.given_client(),
    {
        ExtensionManagerServerBuilder { timeout, ..self }
    }

    /// Sets how often osquery is pinged.
    #[must_use]
    pub fn ping_interval(self, interval: Interval) -> (r: Self)
        ensures
            r.options() == (OptionsView { ping_interval: interval, ..self.options() }),
            r.given_client() == self.given_client(),
    {
        ExtensionManagerServerBuilder { ping_interval: interval, ..self }
    }

    /// Uses this client in place of a new one. The server does not close it.
    #[must_use]
    pub fn client(self, client: C) -> (r: Self)
        ensures
            r.options() == self.options(),
            r.given_client() == Some(client),
    {
        ExtensionManagerServerBuilder { client: Some(client), ..self }
    }

    /// Makes the server. Where no client was given, `connect` makes one from
    /// the socket's path and the time to wait for it.
    pub fn build<P: OsqueryPlugin, F>(self, connect: F) -> (r: Result<
        ExtensionManagerServer<P, C>,
        Error,
    >) where F: FnOnce(&str, Interval) -> Result<C, Error>
        requires
            self.given_client() matches Some(c) ==> c.usable(),
            forall|path: &str| #[trigger]
                path@ == self.options().socket_path ==> connect.requires(
                    (path, self.options().timeout),
                ),
            forall|path: &str, c: C| #[trigger]
                connect.ensures((path, self.options().timeout), Ok(c)) ==> c.usable(),
        ensures
            built(self.options(), self.given_client(), connect, r),
    {
        let path = self.socket_path.as_str();
        let path_len: usize = path.as_bytes().len();
        if path_len > MAX_SOCKET_PATH_CHARACTERS {
            let s = text::concat("socket path ", path);
            let s = text::concat(s.as_str(), " (");
            let n = number::u64_text(path_len as u64);
            let s = text::concat(s.as_str(), n.as_str());
            let s = text::concat(
                s.as_str(),
                " characters) exceeded the maximum socket path character length of ",
            );
            let n = number::u64_text(MAX_SOCKET_PATH_CHARACTERS as u64);
            let s = text::concat(s.as_str(), n.as_str());
            return Err(Error::Other(s));
        }
        let client_ownership: ClientOwnership;
        let client: C;
        match self.client {
            Some(c) => {
                client = c;
                client_ownership = ClientOwnership::Borrowed;
            },
            None => {
                let made = connect(path, self.timeout);
                match made {
                    Err(e) => return Err(e),
                    Ok(c) => {
                        client = c;
                        client_ownership = ClientOwnership::Owned;
                    },
                }
            },
        }
        let (shutdown_tx, shutdown_rx) = signal_channel(1);
        Ok(
            ExtensionManagerServer {
                name: self.name,
                version: self.version,
                osquery_client: Some(client),
                retired: None,
                client_ownership,
                registry: PluginRegistry::new(),
                socket_path: self.socket_path,
                listen_path: None,
                uuid: None,
                stop: None,
                ping_interval: self.ping_interval,
                shutdown_tx,
                shutdown_rx: Some(shutdown_rx),
                course: Ghost(Seq::empty()),
            },
        )
    }
}

/// Whether `server` is new: with these options and this client, without
/// plugins, and not yet registered or run. A request to shut down that is sent
/// before the run waits for it.
pub open spec fn fresh<P: OsqueryPlugin, C: ExtensionManager>(
    server: ExtensionManagerServer<P, C>,
    options: OptionsView,
    ownership: ClientOwnership,
    client: C,
) -> bool {
    &&& server.fixed() == (ServerView {
        name: options.name,
        version: options.version,
        socket_path: options.socket_path,
        client_ownership: ownership,
        ping_interval: options.ping_interval,
    })
    &&& server.client() == Some(client)
    &&& server.closed_client() is None
    &&& server.plugins() == Seq::<Registered<P>>::empty()
    &&& server.assigned() is None
    &&& server.listens_on() is None
    &&& !server.can_stop()
    &&& server.course() == Seq::<ShutdownAction>::empty()
    &&& server.not_run()
    &&& one_channel(server.channel(), server.signals()->0)
    &&& room(server.channel()) == 1
    &&& server.sound()
}

/// Whether `outcome` is what [`ExtensionManagerServerBuilder::build`] makes. A
/// socket path that is too long is refused before anything else; a client that
/// was given is used as it is; else `connect` decides.
pub open spec fn built<
    P: OsqueryPlugin,
    C: ExtensionManager,
    F: FnOnce(&str, Interval) -> Result<C, Error>,
>(
    options: OptionsView,
    given: Option<C>,
    connect: F,
    outcome: Result<ExtensionManagerServer<P, C>, Error>,
) -> bool {
    if encode_utf8(options.socket_path).len() > MAX_SOCKET_PATH_CHARACTERS {
        outcome matches Err(e) && e.deep_view() == error::ErrorView::Other(
            path_too_long(options.socket_path),
        )
    } else {
        match given {
            Some(c) => outcome matches Ok(server) && fresh(
                server,
                options,
                ClientOwnership::Borrowed,
                c,
            ),
            None => exists|path: &str, made: Result<C, Error>|
                {
                    &&& path@ == options.socket_path
                    &&& #[trigger] connect.ensures((path, options.timeout), made)
                    &&& match made {
                        Err(e) => outcome == Err::<ExtensionManagerServer<P, C>, _>(e),
                        Ok(c) => outcome matches Ok(server) && fresh(
                            server,
                            options,
                            ClientOwnership::Owned,
                            c,
                        ),
                    }
                },
        }
    }
}

impl<P: OsqueryPlugin, C: ExtensionManager> ExtensionManagerServer<P, C> {
    /// What is fixed about the server.
    pub closed spec fn fixed(&self) -> ServerView {
        ServerView {
            name: self.name@,
            version: self.version.deep_view(),
            socket_path: self.socket_path@,
            client_ownership: self.client_ownership,
            ping_interval: self.ping_interval,
        }
    }

    /// The client, as long as there is one.
    pub closed spec fn client(&self) -> Option<C> {
        self.osquery_client
    }

    /// The client that the server closed, once it did.
    pub closed spec fn closed_client(&self) -> Option<C> {
        self.retired
    }

    /// The plugins, in the order of their registration.
    pub closed spec fn plugins(&self) -> Seq<Registered<P>> {
        self.registry.entries()
    }

    /// The uuid that osquery assigned, while the extension is registered.
    pub closed spec fn assigned(&self) -> Option<ExtensionUuid> {
        self.uuid
    }

    /// The path that the extension listens on, once it was registered.
    pub closed spec fn listens_on(&self) -> Option<Seq<char>> {
        self.listen_path.deep_view()
    }

    /// Whether there is something that stops the listening.
    pub closed spec fn can_stop(&self) -> bool {
        self.stop is Some
    }

    /// What is promised of a call that stops the listening: nothing, where
    /// there is nothing to call.
    pub closed spec fn stop_promise(&self) -> bool {
        self.stop matches Some(s) ==> s.promise()
    }

    /// What was done so far to shut the server down, in order.
    pub closed spec fn course(&self) -> Seq<ShutdownAction> {
        self.course@
    }

    /// The channel that requests to shut down are sent into.
    pub closed spec fn channel(&self) -> std::sync::mpsc::SyncSender<Option<Error>> {
        self.shutdown_tx
    }

    /// The end of the channel where requests to shut down arrive, until
    /// somebody takes it.
    pub closed spec fn signals(&self) -> Option<std::sync::mpsc::Receiver<Option<Error>>> {
        self.shutdown_rx
    }

    /// Whether nobody has taken the shutdown signals yet.
    pub open spec fn not_run(&self) -> bool {
        self.signals() is Some
    }

    /// Whether what stops the listening, if anything, can be called.
    pub closed spec fn stop_fits(&self) -> bool {
        self.stop matches Some(s) ==> s.fit()
    }

    /// Whether everything that the server holds is fit for use: the plugins
    /// are well kept, the client is usable, and a request to shut down arrives
    /// where the run waits for it.
    pub open spec fn sound(&self) -> bool {
        &&& registry::well_kept(self.plugins())
        &&& (self.client() matches Some(c) ==> c.usable())
        &&& self.stop_fits()
        &&& (self.signals() matches Some(signals) ==> one_channel(self.channel(), signals))
        &&& room(self.channel()) == 1
    }
}

/// Whether `after` differs from `before` in its plugins alone.
pub open spec fn only_plugins_differ<P: OsqueryPlugin, C: ExtensionManager>(
    before: ExtensionManagerServer<P, C>,
    after: ExtensionManagerServer<P, C>,
) -> bool {
    &&& after.fixed() == before.fixed()
    &&& after.client() == before.client()
    &&& after.closed_client() == before.closed_client()
    &&& after.assigned() == before.assigned()
    &&& after.listens_on() == before.listens_on()
    &&& after.can_stop() == before.can_stop()
    &&& after.stop_promise() == before.stop_promise()
    &&& after.course() == before.course()
    &&& after.channel() == before.channel()
    &&& after.signals() == before.signals()
}

/// The error that a refused registration ends in: a status that osquery
/// reports is named with its words, and anything else passes.
pub open spec fn registration_failure(e: error::ErrorView) -> error::ErrorView {
    match e {
        error::ErrorView::Status { code, message } => error::ErrorView::Other(
            "status "@ + number::int_text(code as int) + " registering extension: "@ + message,
        ),
        _ => e,
    }
}

/// The path that an extension with this uuid listens on.
pub open spec fn listen_path_for(socket_path: Seq<char>, uuid: ExtensionUuid) -> Seq<char> {
    socket_path + "."@ + number::int_text(uuid as int)
}

/// Whether `outcome` is what a registration makes of the server. Every plugin
/// is asked for its routes. Where there is a client, it is asked once to
/// register the extension with exactly these routes, and its answer decides:
/// only a uuid makes the extension registered, and tells where it listens.
pub open spec fn registration<P: OsqueryPlugin, C: ExtensionManager>(
    before: ExtensionManagerServer<P, C>,
    after: ExtensionManagerServer<P, C>,
    outcome: Result<ExtensionUuid, error::ErrorView>,
) -> bool {
    &&& registry::all_routes_asked(before.plugins(), after.plugins())
    &&& after.fixed() == before.fixed()
    &&& after.closed_client() == before.closed_client()
    &&& after.can_stop() == before.can_stop()
    &&& after.stop_promise() == before.stop_promise()
    &&& after.course() == before.course()
    &&& after.channel() == before.channel()
    &&& after.signals() == before.signals()
    &&& match before.client() {
        None => {
            &&& after.client() is None
            &&& after.assigned() == before.assigned()
            &&& after.listens_on() == before.listens_on()
            &&& outcome == Err::<ExtensionUuid, _>(
                error::ErrorView::Other("cannot start, shutdown in progress"@),
            )
        },
        Some(c) => {
            &&& after.client() matches Some(d)
            &&& d.asked().len() == c.asked().len() + 1
            &&& d.asked().drop_last() == c.asked()
            &&& d.asked().last() matches client::manager::ClientEvent::Register {
                name,
                version,
                offered,
                uuid,
            }
            &&& name == before.fixed().name
            &&& version == before.fixed().version
            &&& offered == registry::advertised(registry::slots_of(after.plugins()))
            &&& match uuid {
                Ok(id) => {
                    &&& outcome == Ok::<_, error::ErrorView>(id)
                    &&& after.assigned() == Some(id)
                    &&& after.listens_on() == Some(
                        listen_path_for(before.fixed().socket_path, id),
                    )
                },
                Err(e) => {
                    &&& outcome == Err::<ExtensionUuid, _>(registration_failure(e))
                    &&& after.assigned() == before.assigned()
                    &&& after.listens_on() == before.listens_on()
                },
            }
        },
    }
}

/// Whether shutting down leads from `before` to `after`. A server that is not
/// registered is left as it is. Any other leaves osquery, stops listening, so
/// that what the function for it promises of a call holds, tells each of its
/// plugins once, and closes a client of its own, all in that order.
pub open spec fn shut_down<P: OsqueryPlugin, C: ExtensionManager>(
    before: ExtensionManagerServer<P, C>,
    after: ExtensionManagerServer<P, C>,
) -> bool {
    match before.assigned() {
        None => after == before,
        Some(uuid) => {
            &&& after.assigned() is None
            &&& after.course() == before.course() + teardown::full_course(
                before.fixed().client_ownership,
            )
            &&& !after.can_stop()
            &&& before.stop_promise()
            &&& registry::all_told_to_stop(before.plugins(), after.plugins())
            &&& after.fixed() == before.fixed()
            &&& after.listens_on() == before.listens_on()
            &&& after.channel() == before.channel()
            &&& after.signals() == before.signals()
            &&& match before.client() {
                None => {
                    &&& after.client() is None
                    &&& after.closed_client() == before.closed_client()
                },
                Some(c) => match before.fixed().client_ownership {
                    ClientOwnership::Owned => {
                        &&& after.client() is None
                        &&& after.closed_client() matches Some(d)
                        &&& told_goodbye_and_closed(c, d, uuid)
                    },
                    ClientOwnership::Borrowed => {
                        &&& after.client() matches Some(d)
                        &&& told_goodbye(c, d, uuid)
                        &&& after.closed_client() == before.closed_client()
                    },
                },
            }
        },
    }
}

/// Whether the client was asked once, between `before` and `after`, to take
/// the extension away.
pub open spec fn told_goodbye<C: ExtensionManager>(
    before: C,
    after: C,
    uuid: ExtensionUuid,
) -> bool {
    &&& after.asked().len() == before.asked().len() + 1
    &&& after.asked().drop_last() == before.asked()
    &&& after.asked().last() matches client::manager::ClientEvent::Deregister { from, .. }
    &&& from == uuid
}

/// Whether the client was asked, between `before` and `after`, to take the
/// extension away and was then closed.
pub open spec fn told_goodbye_and_closed<C: ExtensionManager>(
    before: C,
    after: C,
    uuid: ExtensionUuid,
) -> bool {
    let asked = after.asked();
    &&& asked.len() == before.asked().len() + 2
    &&& asked.take(before.asked().len() as int) == before.asked()
    &&& asked[asked.len() - 2] matches client::manager::ClientEvent::Deregister { from, .. }
    &&& from == uuid
    &&& asked.last() is Close
}

/// Whether doing `action` leads from `before` to `after`. It is put down in
/// the course, and changes what it is about and nothing else.
pub open spec fn performed<P: OsqueryPlugin, C: ExtensionManager>(
    before: ExtensionManagerServer<P, C>,
    after: ExtensionManagerServer<P, C>,
    action: ShutdownAction,
    uuid: ExtensionUuid,
) -> bool {
    &&& after.fixed() == before.fixed()
    &&& after.assigned() == before.assigned()
    &&& after.listens_on() == before.listens_on()
    &&& after.channel() == before.channel()
    &&& after.signals() == before.signals()
    &&& after.course() == if action is Finish {
        before.course()
    } else {
        before.course().push(action)
    }
    &&& match action {
        ShutdownAction::TakeAway => match before.client() {
            None => after.client() is None,
            Some(c) => after.client() matches Some(d) && told_goodbye(c, d, uuid),
        },
        ShutdownAction::CloseClient => after.client() is None,
        _ => after.client() == before.client(),
    }
    &&& match (action, before.client()) {
        (ShutdownAction::CloseClient, Some(c)) => after.closed_client() matches Some(d)
            && d.asked() == c.asked().push(client::manager::ClientEvent::Close),
        _ => after.closed_client() == before.closed_client(),
    }
    &&& if action is StopListening {
        !after.can_stop() && before.stop_promise()
    } else {
        after.can_stop() == before.can_stop() && after.stop_promise() == before.stop_promise()
    }
    &&& if action is TellPlugins {
        registry::all_told_to_stop(before.plugins(), after.plugins())
    } else {
        after.plugins() == before.plugins()
    }
}

/// Whether a shutdown that began at `start` and stands at `state` has come to
/// `now`.
spec fn on_the_way_down<P: OsqueryPlugin, C: ExtensionManager>(
    start: ExtensionManagerServer<P, C>,
    now: ExtensionManagerServer<P, C>,
    state: ShutdownState,
    uuid: ExtensionUuid,
) -> bool {
    let ownership = start.fixed().client_ownership;
    &&& now.fixed() == start.fixed()
    &&& now.assigned() == start.assigned()
    &&& now.listens_on() == start.listens_on()
    &&& now.channel() == start.channel()
    &&& now.signals() == start.signals()
    &&& now.course() == start.course() + teardown::done_at(state, ownership)
    &&& match start.client() {
        None => now.client() is None && now.closed_client() == start.closed_client(),
        Some(c) => if state is Down && ownership is Owned {
            &&& now.client() is None
            &&& now.closed_client() matches Some(d)
            &&& told_goodbye_and_closed(c, d, uuid)
        } else {
            &&& now.closed_client() == start.closed_client()
            &&& if state is Registered {
                now.client() == start.client()
            } else {
                now.client() matches Some(d) && told_goodbye(c, d, uuid)
            }
        },
    }
    &&& if state is Registered || state is TakenAway {
        now.can_stop() == start.can_stop() && now.stop_promise() == start.stop_promise()
    } else {
        !now.can_stop() && start.stop_promise()
    }
    &&& if state is Told || state is Down {
        registry::all_told_to_stop(start.plugins(), now.plugins())
    } else {
        now.plugins() == start.plugins()
    }
}

proof fn lemma_one_step_down<P: OsqueryPlugin, C: ExtensionManager>(
    start: ExtensionManagerServer<P, C>,
    before: ExtensionManagerServer<P, C>,
    after: ExtensionManagerServer<P, C>,
    state: ShutdownState,
    uuid: ExtensionUuid,
)
    requires
        !(state is Down),
        on_the_way_down(start, before, state, uuid),
        performed(
            before,
            after,
            teardown::next_step(state, start.fixed().client_ownership).1,
            uuid,
        ),
    ensures
        on_the_way_down(
            start,
            after,
            teardown::next_step(state, start.fixed().client_ownership).0,
            uuid,
        ),
{
    let ownership = start.fixed().client_ownership;
    let (next, action) = teardown::next_step(state, ownership);
    teardown::steps_make_the_course(state, ownership);
    assert(after.course() =~= start.course() + teardown::done_at(next, ownership));
    if action is CloseClient && start.client() is Some {
        let c = start.client()->0;
        let told = before.client()->0;
        let closed = after.closed_client()->0;
        assert(closed.asked().take(c.asked().len() as int) =~= told.asked().drop_last());
        assert(told.asked()[told.asked().len() - 1] == told.asked().last());
    }
}

fn say_goodbye<C: ExtensionManager>(client: &mut C, uuid: ExtensionUuid)
    requires
        old(client).usable(),
    ensures
        final(client).usable(),
        told_goodbye(*old(client), *final(client), uuid),
{
    let ghost before = client.asked();
    let _ = client.deregister_extension(uuid);
    assert(client.asked().drop_last() =~= before);
}

impl<P: OsqueryPlugin, C: ExtensionManager> ExtensionManagerServer<P, C> {
    /// A server that talks to osquery over the socket at `socket_path`. It
    /// waits up to a second for the socket; for other options use
    /// [`ExtensionManagerServer::builder`].
    pub fn new<F>(name: &str, socket_path: &str, connect: F) -> (r: Result<Self, Error>) where
        F: FnOnce(&str, Interval) -> Result<C, Error>,

        requires
            forall|path: &str| #[trigger]
                path@ == socket_path@ ==> connect.requires((path, (Interval { secs: 1, nanos: 0 }))),
            forall|path: &str, c: C| #[trigger]
                connect.ensures((path, (Interval { secs: 1, nanos: 0 })), Ok(c)) ==> c.usable(),
        ensures
            built(
                (OptionsView {
                    name: name@,
                    socket_path: socket_path@,
                    version: None,
                    timeout: Interval { secs: 1, nanos: 0 },
                    ping_interval: Interval { secs: 5, nanos: 0 },
                }),
                None,
                connect,
                r,
            ),
    {
        Self::builder(name, socket_path).build(connect)
    }

    /// A builder for a server with options.
    pub fn builder(name: &str, socket_path: &str) -> (r: ExtensionManagerServerBuilder<C>)
        ensures
            r.options() == (OptionsView {
                name: name@,
                socket_path: socket_path@,
                version: None,
                timeout: Interval { secs: 1, nanos: 0 },
                ping_interval: Interval { secs: 5, nanos: 0 },
            }),
            r.given_client() is None,
    {
        ExtensionManagerServerBuilder::new(name, socket_path)
    }

    /// The uuid that osquery assigned, while the extension is registered.
    #[must_use]
    pub fn uuid(&self) -> (r: Option<ExtensionUuid>)
        ensures
            r == self.assigned(),
    {
        self.uuid
    }

    /// The path that the extension listens on, once it was registered.
    #[must_use]
    pub fn listen_path(&self) -> (r: Option<&str>)
        ensures
            r.deep_view() == self.listens_on(),
    {
        match &self.listen_path {
            Some(path) => Some(path.as_str()),
            None => None,
        }
    }

    /// How often osquery is to be pinged.
    #[must_use]
    pub fn ping_interval(&self) -> (r: Interval)
        ensures
            r == self.fixed().ping_interval,
    {
        self.ping_interval
    }

    /// The version that osquery is told.
    #[must_use]
    pub fn version(&self) -> (r: Option<&str>)
        ensures
            r.deep_view() == self.fixed().version,
    {
        match &self.version {
            Some(version) => Some(version.as_str()),
            None => None,
        }
    }

    /// Whether the server made its client.
    #[must_use]
    pub fn client_ownership(&self) -> (r: ClientOwnership)
        ensures
            r == self.fixed().client_ownership,
    {
        self.client_ownership
    }

    /// Whether the plugin `name` is registered in `registry`.
    pub fn has_plugin(&self, registry: server::RegistryName, name: &str) -> (r: bool)
        ensures
            r == registry::has_plugin(self.plugins(), registry, name@),
    {
        self.registry.contains(registry, name)
    }

    /// Registers a plugin, unless its registry has one of its name.
    pub fn register_plugin(&mut self, plugin: P) -> (r: Result<(), Error>)
        requires
            old(self).sound(),
            plugin.ready(),
        ensures
            final(self).sound(),
            only_plugins_differ(*old(self), *final(self)),
            if registry::has_plugin(old(self).plugins(), plugin.registry(), plugin.plugin_name()) {
                &&& final(self).plugins() == old(self).plugins()
                &&& wire::plain_outcome(r) == Err::<(), _>(
                    error::ErrorView::Other(
                        registry::name_taken(plugin.plugin_name(), plugin.registry()),
                    ),
                )
            } else {
                &&& r is Ok
                &&& final(self).plugins().len() == old(self).plugins().len() + 1
                &&& final(self).plugins().drop_last() == old(self).plugins()
                &&& registry::is_entry_for(final(self).plugins().last(), plugin)
            },
    {
        self.registry.add(plugin)
    }

    /// Registers plugins in order, up to the first whose name is taken.
    pub fn register_plugins(&mut self, plugins: Vec<P>) -> (r: Result<(), Error>)
        requires
            old(self).sound(),
            forall|i: int| 0 <= i < plugins@.len() ==> (#[trigger] plugins@[i]).ready(),
        ensures
            final(self).sound(),
            only_plugins_differ(*old(self), *final(self)),
            registry::added_all(
                old(self).plugins(),
                plugins@,
                final(self).plugins(),
                wire::plain_outcome(r),
            ),
            r is Ok <==> !registry::clash(old(self).plugins(), plugins@),
    {
        self.registry.add_all(plugins)
    }

    /// Registers the extension and its plugins with osquery.
    pub fn register_extension(&mut self) -> (r: Result<ExtensionUuid, Error>)
        requires
            old(self).sound(),
        ensures
            final(self).sound(),
            registration(*old(self), *final(self), wire::plain_outcome(r)),
    {
        let ghost start = *self;
        let offered = self.registry.gen_registry();
        let version: Option<&str> = match &self.version {
            Some(version) => Some(version.as_str()),
            None => None,
        };
        let answer = match self.osquery_client.as_mut() {
            None => return Err(Error::Other("cannot start, shutdown in progress".to_string())),
            Some(client) => {
                let ghost before = client.asked();
                let answer = client.register_extension(self.name.as_str(), version, offered);
                assert(client.asked().drop_last() =~= before);
                answer
            },
        };
        match answer {
            Err(e) => match e {
                Error::Status { code, message } => {
                    let n = number::i64_text(code as i64);
                    let s = text::concat("status ", n.as_str());
                    let s = text::concat(s.as_str(), " registering extension: ");
                    Err(Error::Other(text::concat(s.as_str(), message.as_str())))
                },
                e => Err(e),
            },
            Ok(uuid) => {
                self.uuid = Some(uuid);
                let s = text::concat(self.socket_path.as_str(), ".");
                let n = number::i64_text(uuid);
                self.listen_path = Some(text::concat(s.as_str(), n.as_str()));
                Ok(uuid)
            },
        }
    }

    /// Keeps what stops the listening, for shutdown.
    pub fn set_stop<F: FnMut() + Send + 'static>(&mut self, stop: F)
        requires
            old(self).sound(),
            stop.requires(()),
        ensures
            final(self).sound(),
            final(self).can_stop(),
            final(self).stop_promise() == stop.ensures((), ()),
            final(self).course() == old(self).course(),
            final(self).plugins() == old(self).plugins(),
            final(self).fixed() == old(self).fixed(),
            final(self).client() == old(self).client(),
            final(self).closed_client() == old(self).closed_client(),
            final(self).assigned() == old(self).assigned(),
            final(self).listens_on() == old(self).listens_on(),
            final(self).channel() == old(self).channel(),
            final(self).signals() == old(self).signals(),
    {
        self.stop = Some(Box::new(stop));
    }

    /// Takes the extension away from osquery, stops listening, tells the
    /// plugins, and closes a client of the server's own.
    ///
    /// It may be called more than once. It does what it can: an error of the
    /// client's, such as that another thread keeps it busy, does not keep the
    /// server from going on, and it never fails.
    pub fn shutdown(&mut self) -> (r: Result<(), Error>)
        requires
            old(self).sound(),
        ensures
            final(self).sound(),
            r is Ok,
            shut_down(*old(self), *final(self)),
    {
        let uuid: ExtensionUuid = match self.uuid.take() {
            None => return Ok(()),
            Some(uuid) => uuid,
        };
        let ghost start = *self;
        let ownership = self.client_ownership;
        let mut state = ShutdownState::Registered;
        assert(start.course() + teardown::done_at(state, ownership) =~= start.course());
        while state != ShutdownState::Down
            invariant
                self.sound(),
                start.sound(),
                ownership == start.fixed().client_ownership,
                on_the_way_down(start, *self, state, uuid),
            decreases teardown::steps_left(state),
        {
            let ghost now = *self;
            let (next, action) = teardown::shutdown_step(state, ownership);
            self.perform(action, uuid);
            proof {
                teardown::steps_make_the_course(state, ownership);
                lemma_one_step_down(start, now, *self, state, uuid);
            }
            state = next;
        }
        Ok(())
    }

    /// Does what comes next in a shutdown.
    fn perform(&mut self, action: ShutdownAction, uuid: ExtensionUuid)
        requires
            old(self).sound(),
        ensures
            final(self).sound(),
            performed(*old(self), *final(self), action, uuid),
    {
        match action {
            ShutdownAction::TakeAway => {
                if let Some(client) = self.osquery_client.as_mut() {
                    say_goodbye(client, uuid);
                }
            },
            ShutdownAction::StopListening => {
                if let Some(stop) = self.stop.as_mut() {
                    stop.stop();
                }
                self.stop = None;
            },
            ShutdownAction::TellPlugins => {
                self.registry.shutdown_all();
            },
            ShutdownAction::CloseClient => {
                if let Some(client) = self.osquery_client.take() {
                    let mut client = client;
                    client.close();
                    self.retired = Some(client);
                }
            },
            ShutdownAction::Finish => {
                return;
            },
        }
        proof {
            self.course@ = self.course@.push(action);
        }
    }

    /// A handle by which any thread can ask the server to shut down.
    #[must_use]
    pub fn shutdown_handle(&self) -> (r: ShutdownHandle)
        ensures
            r.channel() == self.channel(),
    {
        ShutdownHandle { sender: another(&self.shutdown_tx) }
    }

    /// A sender of signals to shut down, for whoever finds that the server
    /// cannot go on and why.
    #[must_use]
    pub fn signal_sender(&self) -> (r: std::sync::mpsc::SyncSender<Option<Error>>)
        ensures
            r == self.channel(),
    {
        another(&self.shutdown_tx)
    }

    /// Takes the end of the channel where requests to shut down arrive. It can
    /// be taken once.
    pub fn take_signals(&mut self) -> (r: Result<std::sync::mpsc::Receiver<Option<Error>>, Error>)
        requires
            old(self).sound(),
        ensures
            final(self).sound(),
            !final(self).not_run(),
            final(self).channel() == old(self).channel(),
            final(self).plugins() == old(self).plugins(),
            final(self).fixed() == old(self).fixed(),
            final(self).client() == old(self).client(),
            final(self).closed_client() == old(self).closed_client(),
            final(self).assigned() == old(self).assigned(),
            final(self).listens_on() == old(self).listens_on(),
            final(self).can_stop() == old(self).can_stop(),
            final(self).stop_promise() == old(self).stop_promise(),
            final(self).course() == old(self).course(),
            match r {
                Ok(signals) => {
                    &&& old(self).signals() == Some(signals)
                    &&& one_channel(old(self).channel(), signals)
                },
                Err(e) => !old(self).not_run() && e.deep_view() == error::ErrorView::Other(
                    "run() has already been called"@,
                ),
            },
    {
        match self.shutdown_rx.take() {
            Some(signals) => Ok(signals),
            None => Err(Error::Other("run() has already been called".to_string())),
        }
    }

    /// The plugin that a request for the plugin `item` of `registry` goes to,
    /// or the refusal that it goes nowhere. Where plugins can be shared, they
    /// can so be called without keeping the server.
    pub fn find(&self, registry: &str, item: &str) -> (r: Result<&P, ExtensionResponse>)
        ensures
            match r {
                Ok(plugin) => registry::route_for(self.plugins(), registry@, item@) matches Ok(
                    place,
                ) && registry::plugin_at(self.plugins(), place.0, place.1, *plugin),
                Err(response) => registry::route_for(self.plugins(), registry@, item@) matches Err(
                    words,
                ) && response.deep_view() == wire::refusal(words),
            },
    {
        self.registry.find(registry, item)
    }

    /// Answers a request of osquery for the plugin `item` of `registry`.
    pub fn handle_call(&mut self, registry: &str, item: &str, request: PluginRequest) -> (r:
        ExtensionResponse)
        requires
            old(self).sound(),
        ensures
            final(self).sound(),
            only_plugins_differ(*old(self), *final(self)),
            registry::call_answer(
                old(self).plugins(),
                final(self).plugins(),
                registry@,
                item@,
                request.deep_view(),
                r.deep_view(),
            ),
    {
        self.registry.handle_call(registry, item, request)
    }
}

/// The answer to osquery's ping: the extension is there.
pub fn handle_ping() -> (r: ExtensionStatus)
    ensures
        r.deep_view() == (wire::StatusView { code: Some(0i32), message: Some("OK"@), uuid: None }),
{
    ExtensionStatus { code: Some(0), message: Some("OK".to_string()), uuid: None }
}

/// The answer to osquery's request to shut down, given whether the signal for
/// it could be sent.
pub fn handle_shutdown(sent: bool) -> (r: Result<(), Error>)
    ensures
        wire::plain_outcome(r) == if sent {
            Ok(())
        } else {
            Err(error::ErrorView::Other("could not send shutdown signal"@))
        },
{
    if sent {
        Ok(())
    } else {
        Err(Error::Other("could not send shutdown signal".to_string()))
    }
}

/// A request that goes in at a handle of a server comes out where the run of
/// that server waits for it, and there is room for it before the run waits.
pub proof fn handles_reach_their_run<P: OsqueryPlugin, C: ExtensionManager>(
    handle: ShutdownHandle,
    server: ExtensionManagerServer<P, C>,
)
    requires
        server.sound(),
        server.not_run(),
        handle.channel() == server.channel(),
    ensures
        one_channel(handle.channel(), server.signals()->0),
        room(handle.channel()) > 0,
{
}

/// Shutting down twice is shutting down once: the second time changes nothing,
/// and asks nothing of osquery or of the plugins.
pub proof fn shutdown_is_idempotent<P: OsqueryPlugin, C: ExtensionManager>(
    before: ExtensionManagerServer<P, C>,
    once: ExtensionManagerServer<P, C>,
    twice: ExtensionManagerServer<P, C>,
)
    requires
        shut_down(before, once),
        shut_down(once, twice),
    ensures
        twice == once,
{
}

/// In every shutdown the plugins are told only after the server stopped
/// listening, and that comes after osquery was asked to take the extension
/// away. A client is closed last.
pub proof fn plugins_are_told_after_the_listening_stopped<P: OsqueryPlugin, C: ExtensionManager>(
    before: ExtensionManagerServer<P, C>,
    after: ExtensionManagerServer<P, C>,
    n: int,
)
    requires
        shut_down(before, after),
        before.course().len() <= n < after.course().len(),
    ensures
        after.course()[n] is TellPlugins ==> exists|m: int|
            before.course().len() <= m < n && (#[trigger] after.course()[m]) is StopListening,
        after.course()[n] is StopListening ==> exists|m: int|
            before.course().len() <= m < n && (#[trigger] after.course()[m]) is TakeAway,
        after.course()[n] is CloseClient ==> n == after.course().len() - 1 && exists|m: int|
            before.course().len() <= m < n && (#[trigger] after.course()[m]) is TellPlugins,
{
    let start = before.course().len() as int;
    let done = teardown::full_course(before.fixed().client_ownership);
    assert(after.course()[start] == done[0]);
    assert(after.course()[start + 1] == done[1]);
    assert(after.course()[start + 2] == done[2]);
    assert(after.course()[n] == done[n - start]);
}

/// A server that shut down while it was registered cannot register again with
/// a client of its own: it is told that a shutdown is in progress.
pub proof fn no_registration_after_shutdown<P: OsqueryPlugin, C: ExtensionManager>(
    before: ExtensionManagerServer<P, C>,
    stopped: ExtensionManagerServer<P, C>,
    after: ExtensionManagerServer<P, C>,
    outcome: Result<ExtensionUuid, error::ErrorView>,
)
    requires
        before.assigned() is Some,
        before.fixed().client_ownership is Owned,
        shut_down(before, stopped),
        registration(stopped, after, outcome),
    ensures
        outcome == Err::<ExtensionUuid, _>(
            error::ErrorView::Other("cannot start, shutdown in progress"@),
        ),
        after.assigned() is None,
{
}

/// A registration that succeeds gives the uuid that shutdown takes back, and
/// one that fails leaves the server unregistered if it was.
pub proof fn registration_decides_the_uuid<P: OsqueryPlugin, C: ExtensionManager>(
    before: ExtensionManagerServer<P, C>,
    after: ExtensionManagerServer<P, C>,
    outcome: Result<ExtensionUuid, error::ErrorView>,
)
    requires
        registration(before, after, outcome),
    ensures
        outcome matches Ok(uuid) ==> after.assigned() == Some(uuid),
        outcome is Err ==> after.assigned() == before.assigned(),
{
}

/// Extensions with different uuids listen on different paths.
pub proof fn uuids_listen_apart(socket_path: Seq<char>, a: ExtensionUuid, b: ExtensionUuid)
    requires
        listen_path_for(socket_path, a) == listen_path_for(socket_path, b),
    ensures
        a == b,
{
    let head = socket_path + "."@;
    let x = number::int_text(a as int);
    let y = number::int_text(b as int);
    assert(listen_path_for(socket_path, a).skip(head.len() as int) =~= x);
    assert(listen_path_for(socket_path, b).skip(head.len() as int) =~= y);
    number::int_text_injective(a, b);
}

/// A socket path that is short enough leaves room for a dot and a uuid of up
/// to five digits: the path that the extension listens on has at most 103
/// bytes.
pub proof fn listen_paths_stay_short(socket_path: Seq<char>, uuid: ExtensionUuid)
    requires
        encode_utf8(socket_path).len() <= MAX_SOCKET_PATH_CHARACTERS,
        0 <= uuid <= 99999,
    ensures
        encode_utf8(listen_path_for(socket_path, uuid)).len() <= 103,
{
    reveal_strlit(".");
    is_ascii_chars_encode_utf8("."@);
    number::short_numbers_are_short(uuid);
    text::utf8_of_concat(socket_path, "."@);
    text::utf8_of_concat(socket_path + "."@, number::int_text(uuid as int));
}

/// A server is refused a socket path of more than 97 bytes, whether a client
/// was given or not, and the refusal names the path and its length.
pub proof fn long_socket_paths_are_refused<
    P: OsqueryPlugin,
    C: ExtensionManager,
    F: FnOnce(&str, Interval) -> Result<C, Error>,
>(
    options: OptionsView,
    given: Option<C>,
    connect: F,
    outcome: Result<ExtensionManagerServer<P, C>, Error>,
)
    requires
        built(options, given, connect, outcome),
        encode_utf8(options.socket_path).len() > 97,
    ensures
        outcome is Err,
        outcome->Err_0.deep_view() == error::ErrorView::Other(
            "socket path "@ + options.socket_path + " ("@ + number::int_text(
                encode_utf8(options.socket_path).len() as int,
            ) + " characters) exceeded the maximum socket path character length of "@
                + number::int_text(97),
        ),
{
}

/// A server that is made with a client uses it, and it is not the server's to
/// close. The server has the options that were set, no plugins and no uuid.
pub proof fn given_clients_are_used<
    P: OsqueryPlugin,
    C: ExtensionManager,
    F: FnOnce(&str, Interval) -> Result<C, Error>,
>(
    options: OptionsView,
    client: C,
    connect: F,
    outcome: Result<ExtensionManagerServer<P, C>, Error>,
)
    requires
        built(options, Some(client), connect, outcome),
        encode_utf8(options.socket_path).len() <= 97,
    ensures
        outcome is Ok,
        outcome->Ok_0.client() == Some(client),
        outcome->Ok_0.fixed().client_ownership is Borrowed,
        outcome->Ok_0.fixed().name == options.name,
        outcome->Ok_0.fixed().version == options.version,
        outcome->Ok_0.fixed().socket_path == options.socket_path,
        outcome->Ok_0.fixed().ping_interval == options.ping_interval,
        outcome->Ok_0.plugins().len() == 0,
        outcome->Ok_0.assigned() is None,
        outcome->Ok_0.listens_on() is None,
        outcome->Ok_0.closed_client() is None,
        outcome->Ok_0.course().len() == 0,
        outcome->Ok_0.not_run(),
        outcome->Ok_0.sound(),
        room(outcome->Ok_0.channel()) == 1,
{
}

/// A server that is made without a client gets the one that was connected to
/// its socket, within the time that was set, and it is the server's to close.
/// Where none could be connected, the error is the answer.
pub proof fn connected_clients_are_owned<
    P: OsqueryPlugin,
    C: ExtensionManager,
    F: FnOnce(&str, Interval) -> Result<C, Error>,
>(
    options: OptionsView,
    connect: F,
    outcome: Result<ExtensionManagerServer<P, C>, Error>,
)
    requires
        built(options, None::<C>, connect, outcome),
        encode_utf8(options.socket_path).len() <= 97,
    ensures
        outcome is Err ==> exists|path: &str|
            path@ == options.socket_path && #[trigger] connect.ensures(
                (path, options.timeout),
                Err::<C, Error>(outcome->Err_0),
            ),
        outcome is Ok ==> {
            &&& outcome->Ok_0.client() is Some
            &&& exists|path: &str|
                path@ == options.socket_path && #[trigger] connect.ensures(
                    (path, options.timeout),
                    Ok::<C, Error>(outcome->Ok_0.client()->0),
                )
            &&& outcome->Ok_0.fixed().client_ownership is Owned
            &&& outcome->Ok_0.fixed().name == options.name
            &&& outcome->Ok_0.fixed().version == options.version
            &&& outcome->Ok_0.fixed().socket_path == options.socket_path
            &&& outcome->Ok_0.fixed().ping_interval == options.ping_interval
            &&& outcome->Ok_0.plugins().len() == 0
            &&& outcome->Ok_0.assigned() is None
            &&& outcome->Ok_0.listens_on() is None
            &&& outcome->Ok_0.closed_client() is None
            &&& outcome->Ok_0.course().len() == 0
            &&& outcome->Ok_0.not_run()
            &&& outcome->Ok_0.sound()
            &&& room(outcome->Ok_0.channel()) == 1
        },
{
    let (path, made) = choose|path: &str, made: Result<C, Error>|
        {
            &&& path@ == options.socket_path
            &&& #[trigger] connect.ensures((path, options.timeout), made)
            &&& match made {
                Err(e) => outcome == Err::<ExtensionManagerServer<P, C>, _>(e),
                Ok(c) => outcome matches Ok(server) && fresh(
                    server,
                    options,
                    ClientOwnership::Owned,
                    c,
                ),
            }
        };
    match made {
        Err(e) => {
            assert(connect.ensures((path, options.timeout), Err::<C, Error>(e)));
        },
        Ok(c) => {
            assert(connect.ensures((path, options.timeout), Ok::<C, Error>(c)));
        },
    }
}

/// An extension registers under its name and version, with the routes that
/// its plugins give. It is registered where osquery says so, under the uuid
/// that osquery gives, and listens on the socket's path with a dot and the
/// uuid behind it. Where osquery refuses, nothing of that changes.
pub proof fn registrations_tell_the_extension<P: OsqueryPlugin, C: ExtensionManager>(
    before: ExtensionManagerServer<P, C>,
    after: ExtensionManagerServer<P, C>,
    outcome: Result<ExtensionUuid, error::ErrorView>,
)
    requires
        registration(before, after, outcome),
        before.client() is Some,
    ensures
        registry::all_routes_asked(before.plugins(), after.plugins()),
        after.fixed() == before.fixed(),
        after.client() is Some,
        after.client()->0.asked().len() == before.client()->0.asked().len() + 1,
        after.client()->0.asked().drop_last() == before.client()->0.asked(),
        after.client()->0.asked().last() is Register,
        after.client()->0.asked().last()->Register_name == before.fixed().name,
        after.client()->0.asked().last()->Register_version == before.fixed().version,
        after.client()->0.asked().last()->offered == registry::advertised(
            registry::slots_of(after.plugins()),
        ),
        outcome is Ok <==> after.client()->0.asked().last()->Register_uuid is Ok,
        outcome matches Ok(uuid) ==> {
            &&& after.client()->0.asked().last()->Register_uuid == Ok::<_, error::ErrorView>(uuid)
            &&& after.assigned() == Some(uuid)
            &&& after.listens_on() == Some(
                before.fixed().socket_path + "."@ + number::int_text(uuid as int),
            )
        },
        outcome is Err ==> after.assigned() == before.assigned() && after.listens_on()
            == before.listens_on(),
{
}

/// A status by which osquery refuses a registration is told with its code and
/// words; any other error is told as it is.
pub proof fn refused_registrations_are_told(code: i32, words: Seq<char>)
    ensures
        registration_failure((error::ErrorView::Status { code, message: words }))
            == error::ErrorView::Other(
            "status "@ + number::int_text(code as int) + " registering extension: "@ + words,
        ),
        registration_failure(error::ErrorView::Transport(words)) == error::ErrorView::Transport(
            words,
        ),
        registration_failure(error::ErrorView::Other(words)) == error::ErrorView::Other(words),
{
}

/// A server without a client registers nothing and says that it shuts down.
pub proof fn no_client_no_registration<P: OsqueryPlugin, C: ExtensionManager>(
    before: ExtensionManagerServer<P, C>,
    after: ExtensionManagerServer<P, C>,
    outcome: Result<ExtensionUuid, error::ErrorView>,
)
    requires
        registration(before, after, outcome),
        before.client() is None,
    ensures
        outcome == Err::<ExtensionUuid, _>(
            error::ErrorView::Other("cannot start, shutdown in progress"@),
        ),
        after.client() is None,
        after.assigned() == before.assigned(),
        after.listens_on() == before.listens_on(),
{
}

/// A server that shuts down asks osquery to take away the uuid that it was
/// registered under. A client of its own it closes after that and has no more;
/// any other it keeps open.
pub proof fn shutdowns_take_the_extension_away<P: OsqueryPlugin, C: ExtensionManager>(
    before: ExtensionManagerServer<P, C>,
    after: ExtensionManagerServer<P, C>,
)
    requires
        shut_down(before, after),
        before.assigned() is Some,
        before.client() is Some,
    ensures
        after.assigned() is None,
        before.fixed().client_ownership is Owned ==> {
            &&& after.client() is None
            &&& after.closed_client() is Some
            &&& after.closed_client()->0.asked().len() == before.client()->0.asked().len() + 2
            &&& after.closed_client()->0.asked().drop_last().drop_last()
                == before.client()->0.asked()
            &&& after.closed_client()->0.asked().drop_last().last() is Deregister
            &&& after.closed_client()->0.asked().drop_last().last()->from == before.assigned()->0
            &&& after.closed_client()->0.asked().last() is Close
        },
        before.fixed().client_ownership is Borrowed ==> {
            &&& after.client() is Some
            &&& after.closed_client() == before.closed_client()
            &&& after.client()->0.asked().len() == before.client()->0.asked().len() + 1
            &&& after.client()->0.asked().drop_last() == before.client()->0.asked()
            &&& after.client()->0.asked().last() is Deregister
            &&& after.client()->0.asked().last()->from == before.assigned()->0
        },
{
    if before.fixed().client_ownership is Owned {
        let asked = after.closed_client()->0.asked();
        assert(asked.drop_last().drop_last() =~= asked.take(
            before.client()->0.asked().len() as int,
        ));
    }
}

/// A shutdown tells every plugin once and leaves nothing to stop. It keeps
/// what is fixed about the server and the channel of its signals. A server
/// that is not registered stays as it is.
pub proof fn shutdowns_tell_every_plugin<P: OsqueryPlugin, C: ExtensionManager>(
    before: ExtensionManagerServer<P, C>,
    after: ExtensionManagerServer<P, C>,
    i: int,
)
    requires
        shut_down(before, after),
    ensures
        before.assigned() is None ==> after == before,
        before.assigned() is Some ==> {
            &&& after.plugins().len() == before.plugins().len()
            &&& 0 <= i < before.plugins().len() ==> {
                &&& after.plugins()[i].plugin.history().len()
                    == before.plugins()[i].plugin.history().len() + 1
                &&& after.plugins()[i].plugin.history().drop_last()
                    == before.plugins()[i].plugin.history()
                &&& after.plugins()[i].plugin.history().last() is Shutdown
            }
            &&& !after.can_stop()
            &&& before.stop_promise()
            &&& after.fixed() == before.fixed()
            &&& after.channel() == before.channel()
            &&& after.signals() == before.signals()
        },
{
    if before.assigned() is Some && 0 <= i < before.plugins().len() {
        registry::every_plugin_is_told(before.plugins(), after.plugins(), i);
    }
}

/// A server in which only the plugins differ is otherwise the same.
pub proof fn the_rest_stays<P: OsqueryPlugin, C: ExtensionManager>(
    before: ExtensionManagerServer<P, C>,
    after: ExtensionManagerServer<P, C>,
)
    requires
        only_plugins_differ(before, after),
    ensures
        after.fixed() == before.fixed(),
        after.client() == before.client(),
        after.closed_client() == before.closed_client(),
        after.assigned() == before.assigned(),
        after.listens_on() == before.listens_on(),
        after.can_stop() == before.can_stop(),
        after.course() == before.course(),
        after.channel() == before.channel(),
        after.signals() == before.signals(),
{
}

} // verus!
