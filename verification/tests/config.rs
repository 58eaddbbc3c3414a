//! Config plugins.

use osquery_rs_sdk::text_map::TextMap;
use osquery_rs_sdk::{ConfigPlugin, Error, OsqueryPlugin, PluginRequest, RegistryName};

fn row(pairs: &[(&str, &str)]) -> PluginRequest {
    TextMap::from_pairs(
        pairs
            .iter()
            .map(|(k, v)| (k.to_string(), v.to_string()))
            .collect(),
    )
}

#[test]
fn config_plugin() {
    let mut called = false;

    let mut plugin = ConfigPlugin::new("mock", || {
        called = true;
        Ok(row(&[("conf1", "foobar")]))
    });

    assert_eq!(plugin.name(), "mock");
    assert_eq!(plugin.registry_name(), RegistryName::Config);

    let rows = plugin.call(row(&[("action", "genConfig")])).unwrap();

    assert!(called, "generate function never called");
    assert_eq!(rows, vec![row(&[("conf1", "foobar")])]);
}

#[test]
fn config_plugin_error() {
    let mut plugin = ConfigPlugin::new("mock", || Err(Error::other("foobar")));

    let err = plugin.call(row(&[("action", "genConfig")])).unwrap_err();
    assert_eq!(err.to_string(), "error getting config - foobar");
}

#[test]
fn config_status_error_passes_through() {
    let mut plugin = ConfigPlugin::new("mock", || {
        Err(Error::Status {
            code: 7,
            message: "custom code".to_string(),
        })
    });
    let err = plugin.call(row(&[("action", "genConfig")])).unwrap_err();
    assert!(
        matches!(err, Error::Status { code: 7, .. }),
        "Status errors must keep their code"
    );
}

#[test]
fn config_plugin_gen_pack() {
    let mut plugin = ConfigPlugin::new("mock", || Ok(TextMap::new())).with_gen_pack(
        |name: &str, value: &str| Ok(format!(r#"{{"pack":"{name}","src":"{value}"}}"#)),
    );

    let rows = plugin
        .call(row(&[
            ("action", "genPack"),
            ("name", "my_pack"),
            ("value", "/etc/osquery/packs/my_pack.conf"),
        ]))
        .unwrap();

    assert_eq!(
        rows,
        vec![row(&[(
            "my_pack",
            r#"{"pack":"my_pack","src":"/etc/osquery/packs/my_pack.conf"}"#,
        )])]
    );
}

#[test]
fn config_plugin_gen_pack_not_supported() {
    let mut plugin = ConfigPlugin::new("mock", || Ok(TextMap::new()));

    let err = plugin
        .call(row(&[
            ("action", "genPack"),
            ("name", "my_pack"),
            ("value", "target"),
        ]))
        .unwrap_err();
    assert_eq!(err.to_string(), "genPack not supported");
}

#[test]
fn config_plugin_gen_pack_missing_name() {
    let mut plugin = ConfigPlugin::new("mock", || Ok(TextMap::new()))
        .with_gen_pack(|_: &str, _: &str| Ok(String::new()));

    let err = plugin
        .call(row(&[("action", "genPack"), ("value", "target")]))
        .unwrap_err();
    assert_eq!(err.to_string(), "missing name in genPack request");
}

#[test]
fn config_plugin_gen_pack_missing_value() {
    let mut plugin = ConfigPlugin::new("mock", || Ok(TextMap::new()))
        .with_gen_pack(|_: &str, _: &str| Ok(String::new()));

    let err = plugin
        .call(row(&[("action", "genPack"), ("name", "my_pack")]))
        .unwrap_err();
    assert_eq!(err.to_string(), "missing value in genPack request");
}

#[test]
fn config_plugin_gen_pack_error() {
    let mut plugin = ConfigPlugin::new("mock", || Ok(TextMap::new()))
        .with_gen_pack(|_: &str, _: &str| Err(Error::other("pack error")));

    let err = plugin
        .call(row(&[
            ("action", "genPack"),
            ("name", "my_pack"),
            ("value", "target"),
        ]))
        .unwrap_err();
    assert_eq!(err.to_string(), "error generating pack - pack error");
}

#[test]
fn config_plugin_other_requests() {
    let mut plugin = ConfigPlugin::new("mock", || Err(Error::Transport("gone".to_string())))
        .with_gen_pack(|_: &str, _: &str| {
            Err(Error::Status {
                code: 4,
                message: "no pack".to_string(),
            })
        });
    assert!(plugin.routes().is_empty());
    assert!(plugin.ping().is_ok());
    assert_eq!(
        plugin.call(row(&[])).unwrap_err().to_string(),
        "missing action"
    );
    assert_eq!(
        plugin
            .call(row(&[("action", "genconfig")]))
            .unwrap_err()
            .to_string(),
        "unknown action: genconfig"
    );
    // Any other error keeps its kind.
    assert_eq!(
        plugin.call(row(&[("action", "genConfig")])),
        Err(Error::Transport("error getting config - gone".to_string()))
    );
    assert_eq!(
        plugin.call(row(&[("action", "genPack"), ("name", "a"), ("value", "b")])),
        Err(Error::Status {
            code: 4,
            message: "no pack".to_string(),
        })
    );
    plugin.shutdown();
}

#[test]
fn config_plugin_answers_again_and_again() {
    let mut plugin = ConfigPlugin::new("mock", || {
        Ok(TextMap::from_pairs(vec![(
            "main".to_string(),
            "{}".to_string(),
        )]))
    })
    .with_gen_pack(|name: &str, _: &str| Ok(name.to_uppercase()));
    for _ in 0..3 {
        assert!(plugin.routes().is_empty());
        assert_eq!(
            plugin.call(row(&[("action", "genConfig")])).unwrap(),
            vec![row(&[("main", "{}")])]
        );
        assert_eq!(
            plugin
                .call(row(&[("action", "genPack"), ("name", "p"), ("value", "")]))
                .unwrap(),
            vec![row(&[("p", "P")])]
        );
    }
}
