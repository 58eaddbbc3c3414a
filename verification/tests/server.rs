//! The server: registration, calls, shutdown.

use osquery_rs_sdk::client::waiting::Wait;
use osquery_rs_sdk::mock::{MockExtensionManager, MockPlugin};
use osquery_rs_sdk::server::manager::{clean_signal, handle_ping, handle_shutdown};
use osquery_rs_sdk::server::run::{run_step, RunAction, RunEvent, RunState};
use osquery_rs_sdk::server::teardown::{shutdown_step, ShutdownAction, ShutdownState};
use osquery_rs_sdk::server::watch::{
    lock_step, run_outcome, watch_step, LockAttempt, StopSignal, WatchAction, WatchEvent,
};
use osquery_rs_sdk::server::{ClientOwnership, Interval, MAX_SOCKET_PATH_CHARACTERS};
use osquery_rs_sdk::text_map::TextMap;
use osquery_rs_sdk::{
    ColumnDefinition, Error, ExtensionManagerServer, ExtensionRegistry, OsqueryPlugin,
    PluginRequest, QueryContext, RegistryName, ShutdownHandle, TablePlugin,
};
use std::str::FromStr;
use std::sync::{Arc, Mutex};

type Server = ExtensionManagerServer<MockPlugin, MockExtensionManager>;
type AnyPluginServer = ExtensionManagerServer<Box<dyn OsqueryPlugin>, MockExtensionManager>;

fn no_socket(_path: &str, _timeout: Interval) -> Result<MockExtensionManager, Error> {
    Err(Error::Transport("no such socket".to_string()))
}

fn init_server(client: MockExtensionManager) -> Server {
    Server::builder("test_server", "/tmp/s.em")
        .client(client)
        .ping_interval(Interval { secs: 1, nanos: 0 })
        .build(no_socket)
        .unwrap()
}

fn row(pairs: &[(&str, &str)]) -> PluginRequest {
    TextMap::from_pairs(
        pairs
            .iter()
            .map(|(k, v)| (k.to_string(), v.to_string()))
            .collect(),
    )
}

#[test]
fn registry_name() {
    assert_eq!(RegistryName::Table.to_string(), String::from("table"));
    assert_eq!(RegistryName::Logger.to_string(), String::from("logger"));
    assert_eq!(RegistryName::Config.to_string(), String::from("config"));
    assert_eq!(
        RegistryName::Distributed.to_string(),
        String::from("distributed")
    );
}

#[test]
fn registry_names_are_read() {
    for name in [
        RegistryName::Table,
        RegistryName::Logger,
        RegistryName::Config,
        RegistryName::Distributed,
    ] {
        assert_eq!(RegistryName::from_str(&name.to_string()), Ok(name));
    }
    assert_eq!(
        RegistryName::from_str("Table"),
        Err("Unknown registry: Table".to_string())
    );
}

#[test]
fn register_plugin() {
    let name = "test_plugin";
    let plugin = MockPlugin::new(name, RegistryName::Table);
    let mut server = init_server(MockExtensionManager::new());

    server.register_plugin(plugin).unwrap();

    assert!(server.has_plugin(RegistryName::Table, name));
    assert!(!server.has_plugin(RegistryName::Config, name));
    let err = server
        .register_plugin(MockPlugin::new(name, RegistryName::Table))
        .unwrap_err();
    assert_eq!(
        err.to_string(),
        "plugin \"test_plugin\" already registered in table registry"
    );
    server
        .register_plugin(MockPlugin::new(name, RegistryName::Config))
        .unwrap();
}

#[test]
fn gen_registry() {
    let told = Arc::new(Mutex::new(None));
    let told_inside = told.clone();
    let mut client = MockExtensionManager::new();
    client.register_extension_fn = Some(Box::new(
        move |_: &str, _: Option<&str>, registry: ExtensionRegistry| {
            *told_inside.lock().unwrap() = Some(registry);
            Ok(1)
        },
    ));
    let mut server = init_server(client);
    let mut plugin = MockPlugin::new("test_plugin", RegistryName::Table);
    plugin.routes_fn = Some(Box::new(|| vec![row(&[("id", "column")])]));
    server.register_plugin(plugin).unwrap();
    server
        .register_plugin(MockPlugin::new("other", RegistryName::Table))
        .unwrap();
    server.register_extension().unwrap();
    let registry = told.lock().unwrap().take().unwrap();
    assert!(
        registry.contains_key("table"),
        "test_plugin should in registry"
    );
    let table = registry.get("table").unwrap();
    assert!(
        table.contains_key("test_plugin"),
        "test_plugin should in registry"
    );
    assert_eq!(
        table.get("test_plugin").unwrap(),
        &vec![row(&[("id", "column")])]
    );
    assert_eq!(table.get("other").unwrap(), &vec![]);
    assert_eq!(registry.len(), 1);
    assert_eq!(table.len(), 2);
}

#[test]
fn register_extension() {
    let plugin = TablePlugin::new(
        "test_register_ext",
        vec![ColumnDefinition::text("col1")],
        "linux",
        |_ctx: QueryContext| Ok(vec![]),
    );
    let mut client = MockExtensionManager::new();
    client.register_extension_fn = Some(Box::new(
        |name: &str, version: Option<&str>, _: ExtensionRegistry| {
            assert_eq!(name, "ext");
            assert_eq!(version, Some("1.2"));
            Ok(42)
        },
    ));
    let mut server: AnyPluginServer = AnyPluginServer::builder("ext", "/tmp/osquery.em")
        .client(client)
        .version("1.2")
        .build(no_socket)
        .unwrap();
    server.register_plugin(Box::new(plugin)).unwrap();
    assert_eq!(server.uuid(), None);
    let uuid = server.register_extension();

    assert!(
        uuid.is_ok(),
        "extension plugin should be in registry: {:?}",
        uuid.err()
    );
    assert!(
        server.uuid().is_some(),
        "uuid should be set by register_extension"
    );
    assert!(
        server.listen_path().is_some(),
        "listen_path should be set by register_extension"
    );
    assert_eq!(server.uuid(), Some(42));
    assert_eq!(server.listen_path(), Some("/tmp/osquery.em.42"));
}

#[test]
fn refused_registration() {
    let mut client = MockExtensionManager::new();
    client.register_extension_fn = Some(Box::new(
        |_: &str, _: Option<&str>, _: ExtensionRegistry| {
            Err(Error::Status {
                code: 3,
                message: "duplicate".to_string(),
            })
        },
    ));
    let mut server = init_server(client);
    assert_eq!(
        server.register_extension().unwrap_err().to_string(),
        "status 3 registering extension: duplicate"
    );
    assert_eq!(server.uuid(), None);
    assert_eq!(server.listen_path(), None);

    let mut client = MockExtensionManager::new();
    client.register_extension_fn = Some(Box::new(
        |_: &str, _: Option<&str>, _: ExtensionRegistry| Err(Error::Transport("gone".to_string())),
    ));
    let mut server = init_server(client);
    assert_eq!(
        server.register_extension(),
        Err(Error::Transport("gone".to_string()))
    );
}

#[test]
fn shutdown() {
    let stopped = Arc::new(Mutex::new(0));
    let asked = Arc::new(Mutex::new(Vec::new()));
    let (stopped_inside, asked_inside, closed_inside) =
        (stopped.clone(), asked.clone(), asked.clone());
    let mut mock = MockExtensionManager::new();
    mock.deregister_extension_fn = Some(Box::new(move |uuid: i64| {
        asked_inside.lock().unwrap().push(format!("deregister {uuid}"));
        Err(Error::other("already gone"))
    }));
    mock.close_fn = Some(Box::new(move || {
        closed_inside.lock().unwrap().push("close".to_string());
    }));
    let mut mock = Some(mock);
    let mut server: Server = ExtensionManagerServer::new("s", "/tmp/x.em", |path, timeout| {
        assert_eq!(path, "/tmp/x.em");
        assert_eq!(timeout, Interval { secs: 1, nanos: 0 });
        Ok(mock.take().unwrap())
    })
    .unwrap();
    assert_eq!(server.client_ownership(), ClientOwnership::Owned);

    assert!(
        server.shutdown().is_ok(),
        "shutdown without uuid should succeed (idempotent)"
    );
    assert!(asked.lock().unwrap().is_empty());

    let told = Arc::new(Mutex::new(0));
    for name in ["a", "b"] {
        let told_inside = told.clone();
        let mut plugin = MockPlugin::new(name, RegistryName::Logger);
        plugin.shutdown_fn = Some(Box::new(move || *told_inside.lock().unwrap() += 1));
        server.register_plugin(plugin).unwrap();
    }
    server.register_extension().unwrap();
    server.set_stop(move || *stopped_inside.lock().unwrap() += 1);

    let shutdown_err = server.shutdown().err();
    assert!(
        shutdown_err.is_none(),
        "shutdown should be ok: {shutdown_err:?}"
    );
    assert_eq!(*told.lock().unwrap(), 2);
    assert_eq!(*stopped.lock().unwrap(), 1);
    assert_eq!(*asked.lock().unwrap(), vec!["deregister 1", "close"]);
    assert_eq!(server.uuid(), None);

    let shutdown_err = server.shutdown().err();
    assert!(
        shutdown_err.is_none(),
        "second shutdown should be ok (idempotent): {shutdown_err:?}"
    );
    assert_eq!(*told.lock().unwrap(), 2);
    assert_eq!(*stopped.lock().unwrap(), 1);
    assert_eq!(asked.lock().unwrap().len(), 2);
    assert_eq!(
        server.register_extension().unwrap_err().to_string(),
        "cannot start, shutdown in progress"
    );
}

#[test]
fn a_given_client_stays_open() {
    let closed = Arc::new(Mutex::new(false));
    let closed_inside = closed.clone();
    let mut mock = MockExtensionManager::new();
    mock.close_fn = Some(Box::new(move || *closed_inside.lock().unwrap() = true));
    let mut server = init_server(mock);
    assert_eq!(server.client_ownership(), ClientOwnership::Borrowed);
    assert_eq!(server.ping_interval(), Interval { secs: 1, nanos: 0 });
    server.register_extension().unwrap();
    server.shutdown().unwrap();
    assert!(!*closed.lock().unwrap());
    // The client is still there, so the extension can register again.
    assert!(server.register_extension().is_ok());
}

#[test]
fn handle_call() {
    let mut server = init_server(MockExtensionManager::new());
    let res = server.handle_call("table", "", PluginRequest::new());

    let status = res.status.unwrap();
    assert_eq!(
        status.code.unwrap(),
        1,
        "status code should be 1 if table not found"
    );
    assert_eq!(status.message.unwrap(), "Unknown registry: table");
    let name = "test_plugin";
    let mut plugin = MockPlugin::new(name, RegistryName::Table);
    plugin.call_fn = Some(Box::new(|req: PluginRequest| {
        if req.contains_key("fail") {
            Err(Error::Status {
                code: 64,
                message: "asked to".to_string(),
            })
        } else if req.contains_key("break") {
            Err(Error::other("broken"))
        } else {
            Ok(vec![req])
        }
    }));
    server.register_plugin(plugin).unwrap();

    let res = server.handle_call("table", name, row(&[("fail", "")]));
    let status = res.status.unwrap();
    assert_eq!(status.code, Some(64));
    assert_eq!(status.message.unwrap(), "asked to");
    assert_eq!(res.response, None);

    let res = server.handle_call("table", name, row(&[("break", "")]));
    let status = res.status.unwrap();
    assert_eq!(status.code, Some(1));
    assert_eq!(status.message.unwrap(), "broken");

    let res = server.handle_call("table", name, row(&[("a", "b")]));
    let status = res.status.unwrap();
    assert_eq!(status.code, Some(0));
    assert_eq!(status.message.unwrap(), "OK");
    assert_eq!(res.response, Some(vec![row(&[("a", "b")])]));

    let res = server.handle_call("table", "hello", PluginRequest::new());
    assert_eq!(
        res.status.unwrap().message.unwrap(),
        "Unknown registry item: hello",
        "hello should not be found"
    );
    let res = server.handle_call("config", name, PluginRequest::new());
    assert_eq!(
        res.status.unwrap().message.unwrap(),
        "Unknown registry: config"
    );
    let res = server.handle_call("nonsense", name, PluginRequest::new());
    assert_eq!(
        res.status.unwrap().message.unwrap(),
        "Unknown registry: nonsense"
    );
}

#[test]
fn socket_path_too_long() {
    let long_path = "a".repeat(MAX_SOCKET_PATH_CHARACTERS + 1);
    let result = Server::new("test", &long_path, no_socket);
    match result {
        Err(e) => {
            assert!(
                e.to_string()
                    .contains("exceeded the maximum socket path character length"),
                "should report socket path length error, got: {}",
                e.to_string()
            );
            assert_eq!(
                e.to_string(),
                format!("socket path {long_path} (98 characters) exceeded the maximum socket path character length of 97")
            );
        }
        Ok(_) => panic!("expected error for long socket path"),
    }
}

#[test]
fn socket_path_at_limit() {
    // A path exactly at the limit should not fail with a length error.
    // It will fail trying to connect (no such socket), which is expected.
    let limit_path = "a".repeat(MAX_SOCKET_PATH_CHARACTERS);
    let result = Server::new("test", &limit_path, no_socket);
    match result {
        Err(e) => assert!(
            !e.to_string()
                .contains("exceeded the maximum socket path character length"),
            "should not be a path length error, got: {}",
            e.to_string()
        ),
        Ok(_) => panic!("expected connection error for non-existent socket"),
    }
}

#[test]
fn socket_path_counts_bytes() {
    // Fifty characters of two bytes each.
    let path = "\u{e9}".repeat(50);
    let err = Server::new("test", &path, no_socket).err().unwrap();
    assert!(err.to_string().contains("(100 characters)"));
}

#[test]
fn builder_custom_options() {
    let server: Server = Server::builder("test_opts", "/tmp/o.em")
        .version("1.0.0")
        .timeout(Interval { secs: 2, nanos: 0 })
        .ping_interval(Interval { secs: 10, nanos: 0 })
        .build(|_: &str, timeout: Interval| {
            assert_eq!(timeout, Interval { secs: 2, nanos: 0 });
            Ok(MockExtensionManager::new())
        })
        .unwrap();
    assert_eq!(server.version(), Some("1.0.0"));
    assert_eq!(server.ping_interval(), Interval { secs: 10, nanos: 0 });
    assert!(
        server.client_ownership() == ClientOwnership::Owned,
        "server-created client should be marked as Owned"
    );
}

#[test]
fn register_plugins_batch() {
    let mut server = init_server(MockExtensionManager::new());
    let plugins = vec![
        MockPlugin::new("plugin_a", RegistryName::Table),
        MockPlugin::new("plugin_b", RegistryName::Logger),
        MockPlugin::new("plugin_c", RegistryName::Config),
    ];
    server.register_plugins(plugins).unwrap();

    assert!(
        server.has_plugin(RegistryName::Table, "plugin_a"),
        "plugin_a should be in table registry"
    );
    assert!(
        server.has_plugin(RegistryName::Logger, "plugin_b"),
        "plugin_b should be in logger registry"
    );
    assert!(
        server.has_plugin(RegistryName::Config, "plugin_c"),
        "plugin_c should be in config registry"
    );

    // What comes before a name that is taken is registered, the rest is not.
    let err = server
        .register_plugins(vec![
            MockPlugin::new("plugin_d", RegistryName::Table),
            MockPlugin::new("plugin_b", RegistryName::Logger),
            MockPlugin::new("plugin_e", RegistryName::Table),
        ])
        .unwrap_err();
    assert_eq!(
        err.to_string(),
        "plugin \"plugin_b\" already registered in logger registry"
    );
    assert!(server.has_plugin(RegistryName::Table, "plugin_d"));
    assert!(!server.has_plugin(RegistryName::Table, "plugin_e"));
}

#[test]
fn shutdown_handle_sends_signal() {
    let (tx, rx) = std::sync::mpsc::sync_channel(1);
    let handle = ShutdownHandle::new(tx);
    handle.shutdown();
    assert!(
        rx.recv().unwrap().is_none(),
        "shutdown handle should send None (clean shutdown)"
    );
}

#[test]
fn shutdown_handle_is_clone() {
    let (tx, rx) = std::sync::mpsc::sync_channel(1);
    let handle = ShutdownHandle::new(tx);
    let handle2 = handle.clone();
    drop(handle);
    handle2.shutdown();
    assert!(
        rx.recv().unwrap().is_none(),
        "cloned handle should send shutdown signal"
    );
}

#[test]
fn shutdown_handle_multiple_calls_safe() {
    let (tx, rx) = std::sync::mpsc::sync_channel(1);
    let handle = ShutdownHandle::new(tx);
    handle.shutdown();
    // Second call should silently fail (channel already has a message)
    handle.shutdown();
    assert!(
        rx.recv().unwrap().is_none(),
        "first shutdown should be clean"
    );
    assert!(rx.try_recv().is_err());
}

fn assert_send_sync<T: Send + Sync>() {}

#[test]
fn shutdown_handle_is_send_sync() {
    assert_send_sync::<ShutdownHandle>();
}

#[test]
fn shutdown_handle_from_server() {
    let mut server = init_server(MockExtensionManager::new());
    let handle = server.shutdown_handle();
    let handle2 = handle.clone();
    drop(handle2);
    let signals = server.take_signals().unwrap();
    handle.shutdown();
    assert!(signals.recv().unwrap().is_none());
    drop(handle);
    assert_eq!(
        server.take_signals().err().unwrap().to_string(),
        "run() has already been called"
    );
}

#[test]
fn shutdown_invokes_plugin_shutdown_hooks() {
    let flushed = Arc::new(Mutex::new(false));
    let flushed_in_hook = flushed.clone();
    let mut server = init_server(MockExtensionManager::new());
    let mut plugin = MockPlugin::new("hook_logger", RegistryName::Logger);
    plugin.shutdown_fn = Some(Box::new(move || *flushed_in_hook.lock().unwrap() = true));
    server.register_plugin(plugin).unwrap();
    server.register_extension().unwrap();
    server.shutdown().unwrap();
    assert!(
        *flushed.lock().unwrap(),
        "plugin shutdown hook should fire during server shutdown"
    );
}

#[test]
fn pings_and_requests_to_shut_down() {
    let status = handle_ping();
    assert_eq!(status.code, Some(0));
    assert_eq!(status.message, Some("OK".to_string()));
    assert_eq!(status.uuid, None);
    assert_eq!(handle_shutdown(true), Ok(()));
    assert_eq!(
        handle_shutdown(false).unwrap_err().to_string(),
        "could not send shutdown signal"
    );
}

#[test]
fn the_client_lock() {
    assert_eq!(lock_step(LockAttempt::Locked, true), Wait::Ready);
    assert_eq!(lock_step(LockAttempt::Poisoned, false), Wait::GiveUp);
    assert_eq!(lock_step(LockAttempt::Busy, false), Wait::Again);
    assert_eq!(lock_step(LockAttempt::Busy, true), Wait::GiveUp);
}

fn failure(event: WatchEvent) -> Option<String> {
    match watch_step(event) {
        WatchAction::Fail(e) => Some(e.to_string()),
        _ => None,
    }
}

#[test]
fn the_watcher() {
    assert!(matches!(watch_step(WatchEvent::PingDue), WatchAction::Ping));
    assert!(matches!(
        watch_step(WatchEvent::StopRequested),
        WatchAction::Stop
    ));
    assert!(matches!(watch_step(WatchEvent::ClientGone), WatchAction::Stop));
    assert!(matches!(
        watch_step(WatchEvent::Pinged(Ok(()))),
        WatchAction::Sleep
    ));
    assert_eq!(
        failure(WatchEvent::ClientPoisoned),
        Some("could not lock osquery client for ping".to_string())
    );
    assert_eq!(
        failure(WatchEvent::Pinged(Err(Error::Transport("eof".to_string())))),
        Some("extension ping failed - eof".to_string())
    );
    assert_eq!(
        failure(WatchEvent::Pinged(Err(Error::Status {
            code: -5,
            message: "x".to_string(),
        }))),
        Some("ping returned status -5".to_string())
    );
}

#[test]
fn how_a_run_ends() {
    assert_eq!(run_outcome(Ok(()), StopSignal::Clean), Ok(()));
    assert_eq!(
        run_outcome(Ok(()), StopSignal::Failed(Error::other("ping"))),
        Err(Error::other("ping"))
    );
    assert_eq!(
        run_outcome(Ok(()), StopSignal::Lost).unwrap_err().to_string(),
        "shutdown signal error"
    );
    assert_eq!(
        run_outcome(Err(Error::other("first")), StopSignal::Lost),
        Err(Error::other("first"))
    );
}

#[test]
fn the_course_of_a_run() {
    let (state, action) = run_step(RunState::Idle, RunEvent::Called(Ok(())));
    assert!(matches!(action, RunAction::Start));
    let (state, action) = run_step(state, RunEvent::Started(Ok(())));
    assert!(matches!(action, RunAction::AwaitSignal));
    // A watcher cannot have ended yet.
    let (state, action) = run_step(state, RunEvent::WatcherWaitedFor { ended: true });
    assert!(matches!(action, RunAction::Ignore));
    let failed = StopSignal::Failed(Error::other("ping"));
    let (state, action) = run_step(state, RunEvent::Signalled(failed));
    assert!(matches!(action, RunAction::TellWatcher));
    let (state, action) = run_step(state, RunEvent::WatcherTold);
    assert!(matches!(action, RunAction::ShutDown));
    let (state, action) = run_step(state, RunEvent::ShutDown(Ok(())));
    assert!(matches!(action, RunAction::AwaitWatcher));
    let (state, action) = run_step(state, RunEvent::WatcherWaitedFor { ended: false });
    match action {
        RunAction::Finish { join, outcome } => {
            assert!(!join);
            assert_eq!(outcome, Err(Error::other("ping")));
        }
        other => panic!("{other:?}"),
    }
    let (_, action) = run_step(state, RunEvent::Called(Ok(())));
    assert!(matches!(action, RunAction::Ignore));
}

#[test]
fn a_run_that_cannot_start() {
    let (_, action) = run_step(
        RunState::Idle,
        RunEvent::Called(Err(Error::other("run() has already been called"))),
    );
    assert!(matches!(
        action,
        RunAction::Finish {
            join: false,
            outcome: Err(_)
        }
    ));
    let (state, _) = run_step(RunState::Idle, RunEvent::Called(Ok(())));
    let (state, action) = run_step(state, RunEvent::Started(Err(Error::other("no"))));
    assert!(matches!(state, RunState::Over));
    match action {
        RunAction::Finish { outcome, .. } => assert_eq!(outcome, Err(Error::other("no"))),
        other => panic!("{other:?}"),
    }
}

#[test]
fn listen_paths() {
    let mut client = MockExtensionManager::new();
    client.register_extension_fn = Some(Box::new(
        |_: &str, _: Option<&str>, _: ExtensionRegistry| Ok(99999),
    ));
    let path = "p".repeat(MAX_SOCKET_PATH_CHARACTERS);
    let mut server: Server = Server::builder("s", &path)
        .client(client)
        .build(no_socket)
        .unwrap();
    server.register_extension().unwrap();
    assert_eq!(server.listen_path().unwrap().len(), 103);
}

#[test]
fn finding_a_plugin() {
    let mut server = init_server(MockExtensionManager::new());
    server
        .register_plugin(MockPlugin::new("p", RegistryName::Config))
        .unwrap();
    assert_eq!(server.find("config", "p").unwrap().name(), "p");
    let refusal = server.find("config", "q").err().unwrap();
    assert_eq!(
        refusal.status.unwrap().message.unwrap(),
        "Unknown registry item: q"
    );
    let sender = server.signal_sender();
    let signals = server.take_signals().unwrap();
    sender.send(Some(Error::other("x"))).unwrap();
    assert_eq!(signals.recv().unwrap(), Some(Error::other("x")));
}

#[test]
fn a_request_before_the_run_waits_for_it() {
    let mut server = init_server(MockExtensionManager::new());
    server.shutdown_handle().shutdown();
    let signals = server.take_signals().unwrap();
    let received = signals.try_recv().ok();
    assert!(matches!(StopSignal::received(received), StopSignal::Clean));
    assert!(signals.try_recv().is_err());
}

#[test]
fn what_signals_mean() {
    assert!(clean_signal().is_none());
    assert!(matches!(
        StopSignal::received(Some(clean_signal())),
        StopSignal::Clean
    ));
    assert!(matches!(
        StopSignal::received(Some(Some(Error::other("gone")))),
        StopSignal::Failed(e) if e.to_string() == "gone"
    ));
    assert!(matches!(StopSignal::received(None), StopSignal::Lost));
}

#[test]
fn plugins_of_a_batch_clash_with_each_other() {
    let mut server = init_server(MockExtensionManager::new());
    let err = server
        .register_plugins(vec![
            MockPlugin::new("a", RegistryName::Table),
            MockPlugin::new("a", RegistryName::Logger),
            MockPlugin::new("a", RegistryName::Table),
        ])
        .unwrap_err();
    assert_eq!(
        err.to_string(),
        "plugin \"a\" already registered in table registry"
    );
    assert!(server.has_plugin(RegistryName::Table, "a"));
    assert!(server.has_plugin(RegistryName::Logger, "a"));
}

#[test]
fn a_shutdown_goes_in_order() {
    let order: Arc<Mutex<Vec<&str>>> = Arc::new(Mutex::new(Vec::new()));
    let deregistered = order.clone();
    let closed = order.clone();
    let mut server = Server::new("test", "/tmp/s.em", move |_: &str, _: Interval| {
        let mut mock = MockExtensionManager::new();
        mock.deregister_extension_fn = Some(Box::new(move |_| {
            deregistered.lock().unwrap().push("deregistered");
            Err(Error::other("osquery does not care"))
        }));
        mock.close_fn = Some(Box::new(move || closed.lock().unwrap().push("closed")));
        Ok(mock)
    })
    .unwrap();
    let told = order.clone();
    let mut plugin = MockPlugin::new("p", RegistryName::Table);
    plugin.shutdown_fn = Some(Box::new(move || told.lock().unwrap().push("told")));
    server.register_plugin(plugin).unwrap();
    server.register_extension().unwrap();
    let stopped = order.clone();
    server.set_stop(move || stopped.lock().unwrap().push("stopped"));
    server.shutdown().unwrap();
    assert_eq!(
        *order.lock().unwrap(),
        vec!["deregistered", "stopped", "told", "closed"]
    );
}

#[test]
fn the_steps_of_a_shutdown() {
    for (ownership, last) in [
        (ClientOwnership::Owned, ShutdownAction::CloseClient),
        (ClientOwnership::Borrowed, ShutdownAction::Finish),
    ] {
        let mut state = ShutdownState::Registered;
        for expected in [
            ShutdownAction::TakeAway,
            ShutdownAction::StopListening,
            ShutdownAction::TellPlugins,
            last,
            ShutdownAction::Finish,
        ] {
            let (next, action) = shutdown_step(state, ownership);
            assert_eq!(action, expected);
            state = next;
        }
        assert_eq!(state, ShutdownState::Down);
    }
}
