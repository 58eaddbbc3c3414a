//! The mocks.

use osquery_rs_sdk::mock::{MockExtensionManager, MockPlugin};
use osquery_rs_sdk::text_map::TextMap;
use osquery_rs_sdk::{
    Error, ExtensionManager, ExtensionRegistry, OsqueryPlugin, PluginRequest, RegistryName,
};

#[test]
fn mock_extension_manager_defaults() {
    let mut mock = MockExtensionManager::new();

    // All invoked flags start false
    assert!(!mock.ping_invoked());
    assert!(!mock.call_invoked());
    assert!(!mock.close_invoked());

    // Ping succeeds by default
    mock.ping().unwrap();
    assert!(mock.ping_invoked());

    // Call returns empty rows by default
    let rows = mock.call("table", "test", PluginRequest::new()).unwrap();
    assert!(rows.is_empty());
    assert!(mock.call_invoked());

    // Register returns uuid 1
    let uuid = mock
        .register_extension("test", None, ExtensionRegistry::new())
        .unwrap();
    assert_eq!(uuid, 1);
    assert!(mock.register_extension_invoked());

    assert!(mock.extensions().unwrap().is_empty());
    assert!(mock.extensions_invoked());
    assert!(mock.options().unwrap().is_empty());
    assert!(mock.options_invoked());
    mock.deregister_extension(1).unwrap();
    assert!(mock.deregister_extension_invoked());
    assert!(mock.query("SELECT 1").unwrap().is_empty());
    assert!(mock.get_query_columns("SELECT 1").unwrap().is_empty());
    assert!(mock.get_query_columns_invoked());
    assert_eq!(mock.ping_call_count, 1);
}

#[test]
fn mock_extension_manager_custom_fns() {
    let mut mock = MockExtensionManager::new();
    mock.ping_fn = Some(Box::new(|| {
        Err(Error::Status {
            code: 1,
            message: "custom error".to_string(),
        })
    }));

    let err = mock.ping().unwrap_err();
    assert!(
        matches!(err, Error::Status { code: 1, .. }),
        "should surface the injected status error"
    );
    assert!(mock.ping_invoked());
}

#[test]
fn mock_extension_manager_query() {
    let mut mock = MockExtensionManager::new();
    mock.query_fn = Some(Box::new(|sql: &str| {
        assert_eq!(sql, "SELECT 1");
        Ok(vec![TextMap::from_pairs(vec![(
            "1".to_string(),
            "1".to_string(),
        )])])
    }));

    let rows = mock.query("SELECT 1").unwrap();
    assert!(mock.query_invoked());
    assert_eq!(rows.len(), 1);
}

#[test]
fn mock_extension_manager_close_tracking() {
    let mut mock = MockExtensionManager::new();
    assert!(!mock.close_invoked());
    mock.close();
    assert!(mock.close_invoked());
}

#[test]
fn mock_extension_manager_passes_arguments() {
    let mut mock = MockExtensionManager::default();
    mock.call_fn = Some(Box::new(|registry: &str, item: &str, request: PluginRequest| {
        Err(Error::other(&format!("{registry} {item} {}", request.len())))
    }));
    mock.register_extension_fn = Some(Box::new(
        |name: &str, version: Option<&str>, _: ExtensionRegistry| {
            assert_eq!((name, version), ("ext", Some("2")));
            Ok(17)
        },
    ));
    mock.deregister_extension_fn = Some(Box::new(|uuid: i64| {
        assert_eq!(uuid, 17);
        Ok(())
    }));
    assert_eq!(
        mock.call("table", "t", PluginRequest::new())
            .unwrap_err()
            .to_string(),
        "table t 0"
    );
    let uuid = mock.register_extension("ext", Some("2"), ExtensionRegistry::new());
    assert_eq!(uuid, Ok(17));
    assert_eq!(mock.deregister_extension(17), Ok(()));
    mock.close_call_count = usize::MAX;
    mock.close();
    assert_eq!(mock.close_call_count, 0);
}

#[test]
fn mock_plugin_defaults() {
    let mut plugin = MockPlugin::new("test_table", RegistryName::Table);

    assert_eq!(plugin.name(), "test_table");
    assert_eq!(plugin.registry_name(), RegistryName::Table);

    // Call returns empty rows by default
    let rows = plugin.call(PluginRequest::new()).unwrap();
    assert!(rows.is_empty());
    assert!(plugin.call_invoked());

    assert!(!plugin.routes_invoked());
    assert!(plugin.routes().is_empty());
    assert!(plugin.routes_invoked());
    assert!(plugin.ping().is_ok());
    assert!(plugin.ping_invoked());
    plugin.shutdown();
    assert!(plugin.shutdown_invoked());
}

#[test]
fn mock_plugin_custom_call() {
    let mut plugin = MockPlugin::new("test_table", RegistryName::Table);
    plugin.call_fn = Some(Box::new(|_req: PluginRequest| {
        Err(Error::Status {
            code: 42,
            message: "custom".to_string(),
        })
    }));

    let err = plugin.call(PluginRequest::new()).unwrap_err();
    assert!(matches!(err, Error::Status { code: 42, .. }));
    assert!(plugin.call_invoked());
}

#[test]
fn boxed_plugins_answer_pings_themselves() {
    let mut plugin = MockPlugin::new("sick", RegistryName::Table);
    plugin.ping_fn = Some(Box::new(|| Err(Error::other("out of disk"))));
    let mut boxed: Box<dyn OsqueryPlugin> = Box::new(plugin);
    assert_eq!(boxed.ping().unwrap_err().to_string(), "out of disk");

    let mut boxed: Box<dyn OsqueryPlugin> =
        Box::new(MockPlugin::new("well", RegistryName::Table));
    assert!(boxed.ping().is_ok());
}

#[test]
fn mocks_keep_their_functions() {
    let mut mock = MockExtensionManager::new();
    mock.ping_fn = Some(Box::new(|| Err(Error::other("gone"))));
    for n in 1..4 {
        assert_eq!(mock.ping().unwrap_err().to_string(), "gone");
        assert_eq!(mock.ping_call_count, n);
    }
}
