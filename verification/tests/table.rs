//! Tables that are only read, their columns and their contexts.

use osquery_rs_sdk::json::JsonValue;
use osquery_rs_sdk::plugin::mutation::{mutation_rows, parse_json_value_array};
use osquery_rs_sdk::text_map::TextMap;
use osquery_rs_sdk::{
    ColumnDefinition, ColumnType, Constraint, ConstraintList, Error, MutationResult, Operator,
    OsqueryPlugin, Platform, PluginRequest, PluginResponse, QueryContext, RegistryName,
    TablePlugin,
};

const OS: &str = "linux";

fn row(pairs: &[(&str, &str)]) -> PluginRequest {
    TextMap::from_pairs(
        pairs
            .iter()
            .map(|(k, v)| (k.to_string(), v.to_string()))
            .collect(),
    )
}

fn four_columns() -> Vec<ColumnDefinition> {
    vec![
        ColumnDefinition::text("text"),
        ColumnDefinition::integer("integer"),
        ColumnDefinition::big_int("big_int"),
        ColumnDefinition::double("double"),
    ]
}

fn route(name: &str, typ: &str) -> PluginRequest {
    row(&[("id", "column"), ("name", name), ("type", typ), ("op", "0")])
}

#[test]
fn table_plugin() {
    let seen = std::sync::Arc::new(std::sync::Mutex::new(None));
    let seen_inside = seen.clone();
    let mut plugin = TablePlugin::new("mock", four_columns(), OS, move |qctx: QueryContext| {
        *seen_inside.lock().unwrap() = Some(qctx);
        Ok(vec![row(&[
            ("text", "hello world"),
            ("integer", "123"),
            ("big_int", "-1234567890"),
            ("double", "3.14159"),
        ])])
    });

    let tresp: PluginResponse = vec![
        route("text", "TEXT"),
        route("integer", "INTEGER"),
        route("big_int", "BIGINT"),
        route("double", "DOUBLE"),
    ];

    assert_eq!(plugin.name(), "mock");
    assert_eq!(plugin.registry_name(), RegistryName::Table);
    assert_eq!(tresp, plugin.routes());

    let rows = plugin.call(row(&[("action", "columns")])).unwrap();
    assert_eq!(tresp, rows);

    let rows = plugin
        .call(row(&[("action", "generate"), ("context", "{}")]))
        .unwrap();
    let called_query_ctx = seen.lock().unwrap().take().unwrap();
    assert_eq!(called_query_ctx.len(), QueryContext::default().len());
    assert_eq!(
        vec![row(&[
            ("big_int", "-1234567890"),
            ("double", "3.14159"),
            ("integer", "123"),
            ("text", "hello world"),
        ])],
        rows
    );
}

#[test]
fn table_plugin_errors() {
    let called = std::sync::Arc::new(std::sync::Mutex::new(0));
    let called_inside = called.clone();
    let mut plugin = TablePlugin::new("mock", four_columns(), OS, move |_: QueryContext| {
        *called_inside.lock().unwrap() += 1;
        Err(Error::other("foobar"))
    });
    let err = plugin.call(PluginRequest::new()).unwrap_err();
    assert_eq!(err.to_string(), "missing action");
    let err = plugin.call(row(&[("action", "bad")])).unwrap_err();
    assert_eq!(err.to_string(), "unknown action: bad");
    // Bad context JSON
    let err = plugin
        .call(row(&[("action", "generate"), ("context", "{[]}")]))
        .unwrap_err();
    assert!(err.to_string().starts_with("error parsing context JSON: key must be a string"));
    // No context
    let err = plugin.call(row(&[("action", "generate")])).unwrap_err();
    assert_eq!(err.to_string(), "missing query context");
    // generate returns Err
    let err = plugin
        .call(row(&[("action", "generate"), ("context", "{}")]))
        .unwrap_err();
    assert_eq!(
        "error generating table: foobar".to_string(),
        err.to_string()
    );
    assert_eq!(
        *called.lock().unwrap(),
        1,
        "generate should have been called only once"
    );
}

#[test]
fn generate_status_error_passes_through() {
    let mut plugin = TablePlugin::new(
        "mock",
        vec![ColumnDefinition::text("c")],
        OS,
        |_: QueryContext| {
            Err(Error::Status {
                code: 5,
                message: "custom code".to_string(),
            })
        },
    );
    let err = plugin
        .call(row(&[("action", "generate"), ("context", "{}")]))
        .unwrap_err();
    assert!(
        matches!(err, Error::Status { code: 5, .. }),
        "Status errors must keep their code"
    );
}

#[test]
fn generate_with_new_and_unknown_operators() {
    let seen = std::sync::Arc::new(std::sync::Mutex::new(Vec::new()));
    let seen_inside = seen.clone();
    let mut plugin = TablePlugin::new(
        "mock",
        vec![ColumnDefinition::text("result")],
        OS,
        move |qctx: QueryContext| {
            *seen_inside.lock().unwrap() = qctx
                .get("result")
                .map(|list| list.constraints().to_vec())
                .unwrap_or_default();
            Ok(vec![row(&[("result", "passed")])])
        },
    );

    let context = r#"{"constraints": [
            {
                "name": "result",
                "affinity": "TEXT",
                "list": [
                    {"op": 68, "expr": "pending"},
                    {"op": 73, "expr": "3"},
                    {"op": 9999, "expr": "ignored"}
                ]
            }
        ]}"#;
    let rows = plugin
        .call(row(&[("action", "generate"), ("context", context)]))
        .unwrap();
    assert_eq!(1, rows.len());
    assert_eq!(
        vec![
            Constraint {
                operator: Operator::NotEquals,
                expression: "pending".to_string(),
            },
            Constraint {
                operator: Operator::Limit,
                expression: "3".to_string(),
            },
        ],
        *seen.lock().unwrap()
    );
}

#[test]
fn column_type() {
    let test_cases = vec![
        (ColumnType::BigInt, r#"{ "affinity":"BIGINT" }"#),
        (ColumnType::Double, r#"{  "affinity":"DOUBLE" }"#),
        (ColumnType::Integer, r#"{ "affinity":"INTEGER" }"#),
        (ColumnType::Text, r#"{ "affinity":"TEXT" }"#),
    ];
    for (typ, data) in test_cases {
        let value = JsonValue::read(data).unwrap();
        let read = ColumnType::from_json(value.member("affinity").unwrap()).unwrap();
        assert_eq!(typ, read);
    }
}

#[test]
fn column_type_errors() {
    let told = |text: &str| ColumnType::from_json(&JsonValue::read(text).unwrap());
    assert_eq!(told(r#""UNSIGNED BIGINT""#), Ok(ColumnType::UnsignedBigInt));
    assert_eq!(told(r#"{"BLOB": null}"#), Ok(ColumnType::Blob));
    assert_eq!(
        told(r#""text""#),
        Err("unknown variant `text`, expected one of `UNKNOWN`, `TEXT`, `INTEGER`, `BIGINT`, `UNSIGNED BIGINT`, `DOUBLE`, `BLOB`".to_string())
    );
    assert_eq!(
        told("{}"),
        Err("invalid value: map, expected map with a single key".to_string())
    );
    assert_eq!(
        told(r#"{"TEXT": "a\nb"}"#),
        Err("invalid type: string \"a\\nb\", expected unit".to_string())
    );
    assert_eq!(
        told("1.5"),
        Err("invalid type: floating point `1.5`, expected string or map".to_string())
    );
    assert_eq!(
        told("7"),
        Err("invalid type: integer `7`, expected string or map".to_string())
    );
    assert_eq!(
        told("true"),
        Err("invalid type: boolean `true`, expected string or map".to_string())
    );
    assert_eq!(
        told("null"),
        Err("invalid type: null, expected string or map".to_string())
    );
    assert_eq!(
        told("[]"),
        Err("invalid type: sequence, expected string or map".to_string())
    );
}

#[test]
fn operator() {
    let test_cases = vec![
        // from int
        (false, Operator::Equals, r#"{ "op": 2 }"#),
        (false, Operator::GreaterThan, r#"{  "op": 4 }"#),
        (false, Operator::LessThanOrEquals, r#"{ "op": 8 }"#),
        (false, Operator::LessThan, r#"{ "op": 16 }"#),
        (false, Operator::GreaterThanOrEquals, r#"{ "op": 32 }"#),
        (false, Operator::Match, r#"{ "op": 64 }"#),
        (false, Operator::Like, r#"{ "op": 65 }"#),
        (false, Operator::Glob, r#"{ "op": 66 }"#),
        (false, Operator::Regexp, r#"{ "op": 67 }"#),
        (false, Operator::Unique, r#"{ "op": 1 }"#),
        (false, Operator::In, r#"{ "op": 3 }"#),
        (false, Operator::NotEquals, r#"{ "op": 68 }"#),
        (false, Operator::IsNot, r#"{ "op": 69 }"#),
        (false, Operator::IsNotNull, r#"{ "op": 70 }"#),
        (false, Operator::IsNull, r#"{ "op": 71 }"#),
        (false, Operator::Is, r#"{ "op": 72 }"#),
        (false, Operator::Limit, r#"{ "op": 73 }"#),
        (false, Operator::Offset, r#"{ "op": 74 }"#),
        (true, Operator::Unique, r#"{ "op": 9999 }"#),
        // from &str
        (false, Operator::Equals, r#"{ "op": "2" }"#),
        (false, Operator::GreaterThan, r#"{  "op": "4" }"#),
        (false, Operator::LessThanOrEquals, r#"{ "op": "8" }"#),
        (false, Operator::LessThan, r#"{ "op": "16" }"#),
        (false, Operator::GreaterThanOrEquals, r#"{ "op": "32" }"#),
        (false, Operator::Match, r#"{ "op": "64" }"#),
        (false, Operator::Like, r#"{ "op": "65" }"#),
        (false, Operator::Glob, r#"{ "op": "66" }"#),
        (false, Operator::Regexp, r#"{ "op": "67" }"#),
        (false, Operator::Unique, r#"{ "op": "1" }"#),
        (false, Operator::NotEquals, r#"{ "op": "68" }"#),
        (false, Operator::Limit, r#"{ "op": "73" }"#),
        (true, Operator::Unique, r#"{ "op": "9999" }"#),
    ];
    for (should_err, typ, data) in test_cases {
        let value = JsonValue::read(data).unwrap();
        match Operator::from_json(value.member("op").unwrap()) {
            Ok(op) => {
                assert!(!should_err);
                assert_eq!(typ, op);
            }
            Err(e) => {
                assert!(
                    e.contains("invalid operator value: 9999"),
                    "unexpected error: {e}"
                );
                assert!(should_err);
            }
        }
    }
    let invalid_op = JsonValue::read(r#"{ "op": [] }"#).unwrap();
    let err = Operator::from_json(invalid_op.member("op").unwrap())
        .expect_err("should be invalid operator value");
    assert_eq!(err, "invalid value [], expected int");
}

#[test]
fn operator_errors() {
    let told = |text: &str| Operator::from_json(&JsonValue::read(text).unwrap());
    assert_eq!(
        told(r#""""#),
        Err("invalid value \"\", expected int".to_string())
    );
    assert_eq!(
        told(r#""+""#),
        Err("invalid digit found in string".to_string())
    );
    assert_eq!(
        told(r#""99999999999999999999""#),
        Err("number too large to fit in target type".to_string())
    );
    assert_eq!(
        told(r#""-99999999999999999999""#),
        Err("number too small to fit in target type".to_string())
    );
    assert_eq!(
        told("2.0"),
        Err("invalid value 2.0, expected int".to_string())
    );
    assert_eq!(
        told("18446744073709551615"),
        Err("invalid value 18446744073709551615, expected int".to_string())
    );
    assert_eq!(
        told("{\"a\": null}"),
        Err("invalid value {\"a\":null}, expected int".to_string())
    );
}

#[test]
fn operator_numbers() {
    for n in -3i64..200 {
        match Operator::try_from(n) {
            Ok(op) => assert_eq!(op.number(), n),
            Err(e) => assert_eq!(e.to_string(), format!("invalid operator value: {n}")),
        }
    }
    assert_eq!((0..100).filter(|n| Operator::try_from(*n).is_ok()).count(), 18);
    assert_eq!(Operator::IsNotNull.to_string(), "IS NOT NULL");
    assert_eq!(Operator::Equals.to_string(), "=");
}

#[test]
fn deserialize_constraint_list() {
    let test_cases = vec![
        (true, r"bad", None),
        (true, r#"{"foo": "bar"}"#, None),
        (false, r#"{"affinity":"BIGINT"}"#, Some(Vec::new())),
        (
            false,
            r#"{"affinity":"BIGINT", "list": "" }"#,
            Some(Vec::new()),
        ),
        (
            false,
            r#"{"affinity":"BIGINT", "list": [{"op":"2","expr":"foo"}] }"#,
            Some(vec![Constraint {
                operator: Operator::Equals,
                expression: "foo".to_string(),
            }]),
        ),
        (
            false,
            r#"{"affinity":"TEXT", "list": [{"op":68,"expr":"pending"}] }"#,
            Some(vec![Constraint {
                operator: Operator::NotEquals,
                expression: "pending".to_string(),
            }]),
        ),
        (
            false,
            r#"{"affinity":"INTEGER", "list": [{"op":73,"expr":"3"}] }"#,
            Some(vec![Constraint {
                operator: Operator::Limit,
                expression: "3".to_string(),
            }]),
        ),
        // unknown operators are skipped, not fatal
        (
            false,
            r#"{"affinity":"TEXT", "list": [{"op":9999,"expr":"x"},{"op":2,"expr":"foo"}] }"#,
            Some(vec![Constraint {
                operator: Operator::Equals,
                expression: "foo".to_string(),
            }]),
        ),
    ];
    for (should_err, data, constraints) in test_cases {
        match JsonValue::read(data).and_then(|v| ConstraintList::from_json(&v)) {
            Ok(val) => {
                assert!(!should_err);
                assert_eq!(val.constraints(), constraints.unwrap().as_slice());
            }
            Err(_) => assert!(should_err),
        }
    }
}

#[test]
fn constraint_list_errors() {
    let told = |text: &str| ConstraintList::from_json(&JsonValue::read(text).unwrap());
    assert_eq!(told("{}"), Err("missing field `affinity`".to_string()));
    assert_eq!(
        told(r#"{"list": 5}"#),
        Err("unexpected context list: invalid value 5, expected array".to_string())
    );
    assert_eq!(
        told(r#"{"affinity": 5, "list": 5}"#),
        Err("invalid type: integer `5`, expected string or map".to_string())
    );
    assert_eq!(
        told("[]"),
        Err("invalid length 0, expected struct ConstraintList with 2 elements".to_string())
    );
    assert_eq!(
        told(r#"["TEXT", "", 1]"#),
        Err("invalid length 3, expected fewer elements in array".to_string())
    );
    assert_eq!(
        told("null"),
        Err("invalid type: null, expected struct ConstraintList".to_string())
    );
    let list = told(r#"["TEXT", [[2, "a"], [2], "x", {"op": 4, "expr": "b", "more": 1}]]"#).unwrap();
    assert_eq!(*list.affinity(), ColumnType::Text);
    assert_eq!(list.constraints().len(), 2);
    assert_eq!(*list.constraints()[0].operator(), Operator::Equals);
    assert_eq!(list.constraints()[0].expression(), "a");
    assert_eq!(*list.constraints()[1].operator(), Operator::GreaterThan);
    assert_eq!(list.constraints()[1].expression(), "b");
}

fn list(affinity: ColumnType, constraints: &[(Operator, &str)]) -> ConstraintList {
    ConstraintList {
        affinity,
        constraints: constraints
            .iter()
            .map(|(operator, expression)| Constraint {
                operator: *operator,
                expression: expression.to_string(),
            })
            .collect(),
    }
}

#[test]
fn deserialize_query_context() {
    let test_cases = vec![
        (true, r"bad", vec![]),
        (false, r#"{"foo": "bar"}"#, vec![]),
        (
            false,
            r#"
                {"constraints": [
                    {
                        "name":"double",
                        "list":"",
                        "affinity":"DOUBLE"
                      }
                ]}
            "#,
            vec![("double", list(ColumnType::Double, &[]))],
        ),
        (
            false,
            r#"
                {"constraints": [
                    {
                        "name":"big_int",
                        "list":[{"op":"2","expr":"foo"}],
                        "affinity":"BIGINT"
                      }
                ]}
            "#,
            vec![(
                "big_int",
                list(ColumnType::BigInt, &[(Operator::Equals, "foo")]),
            )],
        ),
        (
            false,
            r#"
                {"constraints": [
                    {
                        "name":"big_int",
                        "list":"",
                        "affinity":"BIGINT"
                    },
                    {
                        "name":"text",
                        "list":"",
                        "affinity":"TEXT"
                    }
                ]}
            "#,
            vec![
                ("big_int", list(ColumnType::BigInt, &[])),
                ("text", list(ColumnType::Text, &[])),
            ],
        ),
    ];
    for (should_err, data, constraints) in test_cases {
        match QueryContext::parse(data) {
            Ok(ctxs) => {
                assert!(!should_err);
                assert_eq!(ctxs.len(), constraints.len());
                for (k, expected) in &constraints {
                    assert!(ctxs.contains_key(k));
                    assert_eq!(ctxs.get(k).unwrap(), expected);
                }
            }
            Err(_) => assert!(should_err),
        }
    }
}

#[test]
fn query_context_errors() {
    let told = |text: &str| QueryContext::parse(text).map(|c| c.len());
    assert_eq!(told("7"), Ok(0));
    assert_eq!(told(r#"{"constraints": null}"#), Ok(0));
    assert_eq!(
        told(r#"{"constraints": "x"}"#),
        Err("constraints: invalid value \"x\", expected array".to_string())
    );
    assert_eq!(
        told(r#"{"constraints": [{}]}"#),
        Err("name: invalid value null, expected string".to_string())
    );
    assert_eq!(
        told(r#"{"constraints": [{"name": [1.5, {"b": 1, "a": 2}]}]}"#),
        Err("name: invalid value [1.5,{\"a\":2,\"b\":1}], expected string".to_string())
    );
    assert_eq!(
        told(r#"{"constraints": [{"name": "c"}]}"#),
        Err("missing field `affinity`".to_string())
    );
    // What stands behind the value is looked at last.
    assert_eq!(
        told(r#"{"constraints": 1} x"#),
        Err("constraints: invalid value 1, expected array".to_string())
    );
    assert_eq!(
        told("{} x"),
        Err("trailing characters at line 1 column 4".to_string())
    );
    assert_eq!(
        told(""),
        Err("EOF while parsing a value at line 1 column 0".to_string())
    );
    // The later of two lists for a column stands.
    let twice = QueryContext::parse(
        r#"{"constraints":[{"name":"a","affinity":"TEXT"},{"name":"a","affinity":"BLOB"}]}"#,
    )
    .unwrap();
    assert_eq!(twice.len(), 1);
    assert_eq!(*twice.get("a").unwrap().affinity(), ColumnType::Blob);
}

#[test]
fn query_context_by_hand() {
    let mut context = QueryContext::default();
    assert!(context.is_empty());
    assert!(context
        .insert("b".to_string(), list(ColumnType::Text, &[]))
        .is_none());
    assert!(context
        .insert("a".to_string(), list(ColumnType::Double, &[]))
        .is_none());
    let before = context
        .insert("b".to_string(), list(ColumnType::Blob, &[(Operator::In, "x")]))
        .unwrap();
    assert_eq!(before.affinity, ColumnType::Text);
    context
        .entry("c".to_string(), list(ColumnType::Integer, &[]))
        .constraints
        .push(Constraint {
            operator: Operator::Is,
            expression: "y".to_string(),
        });
    context
        .entry("a".to_string(), list(ColumnType::Integer, &[]))
        .affinity = ColumnType::BigInt;
    let names: Vec<&str> = context.iter().iter().map(|(k, _)| k.as_str()).collect();
    assert_eq!(names, vec!["a", "b", "c"]);
    assert_eq!(context.get("a").unwrap().affinity, ColumnType::BigInt);
    assert_eq!(context.get("c").unwrap().constraints.len(), 1);
    assert!(context.get("d").is_none());
    assert_eq!(context.len(), 3);
    assert_eq!(context.clone(), context);
}

#[test]
fn column_options_bitmask() {
    // Option bitmask values: Index=1, Required=2, Additional=4, Optimized=8, Hidden=16
    let column = || ColumnDefinition::new("c", ColumnType::Text);
    assert_eq!(0, ColumnDefinition::text("c").options());
    assert_eq!(1, column().index().options());
    assert_eq!(2, column().required().options());
    assert_eq!(4, column().additional().options());
    assert_eq!(8, column().optimized().options());
    assert_eq!(16, column().hidden().options());
    // Combined: Index + Hidden = 17
    assert_eq!(17, column().index().hidden().options());
    // All options = 31
    assert_eq!(
        31,
        column()
            .index()
            .required()
            .additional()
            .optimized()
            .hidden()
            .options()
    );
}

#[test]
fn column_options_in_routes() {
    let mut plugin = TablePlugin::new(
        "mock",
        vec![
            ColumnDefinition::new("indexed", ColumnType::Text).index(),
            ColumnDefinition::new("required", ColumnType::Integer)
                .required()
                .index(),
            ColumnDefinition::text("plain"),
        ],
        OS,
        |_: QueryContext| Ok(vec![]),
    );
    let routes = plugin.routes();
    assert_eq!(routes[0].get("op").unwrap(), "1"); // Index
    assert_eq!(routes[1].get("op").unwrap(), "3"); // Required + Index
    assert_eq!(routes[2].get("op").unwrap(), "0"); // no options
}

#[test]
fn column_type_display() {
    assert_eq!("UNKNOWN", ColumnType::Unknown.to_string());
    assert_eq!("TEXT", ColumnType::Text.to_string());
    assert_eq!("INTEGER", ColumnType::Integer.to_string());
    assert_eq!("BIGINT", ColumnType::BigInt.to_string());
    assert_eq!("UNSIGNED BIGINT", ColumnType::UnsignedBigInt.to_string());
    assert_eq!("DOUBLE", ColumnType::Double.to_string());
    assert_eq!("BLOB", ColumnType::Blob.to_string());
}

#[test]
fn column_type_json_serialization() {
    assert_eq!(r#""unknown""#, ColumnType::Unknown.to_json());
    assert_eq!(r#""text""#, ColumnType::Text.to_json());
    assert_eq!(r#""unsigned_bigint""#, ColumnType::UnsignedBigInt.to_json());
    assert_eq!(r#""blob""#, ColumnType::Blob.to_json());
}

#[test]
fn column_description_and_notes() {
    let col = ColumnDefinition::text("c")
        .with_description("A description")
        .with_notes("Some notes");
    assert_eq!(col.description, "A description");
    assert_eq!(col.notes, "Some notes");
}

#[test]
fn column_kinds() {
    assert_eq!(ColumnDefinition::blob("c").col_type, ColumnType::Blob);
    assert_eq!(
        ColumnDefinition::unsigned_big_int("c").col_type,
        ColumnType::UnsignedBigInt
    );
    let plain = ColumnDefinition::default();
    assert_eq!(plain.name, "");
    assert_eq!(plain.col_type, ColumnType::Text);
    assert_eq!(plain.clone().options(), 0);
}

#[test]
fn table_spec_generation() {
    let plugin = TablePlugin::new(
        "test_table",
        vec![
            ColumnDefinition::new("id", ColumnType::Integer).index(),
            ColumnDefinition::text("name").with_description("The name"),
        ],
        OS,
        |_: QueryContext| Ok(vec![]),
    )
    .description("A test table")
    .url("https://example.com")
    .example("SELECT * FROM test_table")
    .platforms(vec![Platform::Darwin, Platform::Linux]);
    let spec = plugin.spec();
    assert_eq!(spec.name, "test_table");
    assert_eq!(spec.description, "A test table");
    assert_eq!(spec.url, "https://example.com");
    assert_eq!(spec.platforms, vec![Platform::Darwin, Platform::Linux]);
    assert_eq!(spec.examples, vec!["SELECT * FROM test_table"]);
    assert_eq!(spec.columns.len(), 2);
    assert!(!spec.evented);
    assert!(!spec.cacheable);

    let json = spec.to_json();
    assert!(json.contains(r#""name":"test_table""#));
    assert!(json.contains(r#""platforms":["darwin","linux"]"#));
    assert_eq!(
        json,
        concat_lines(&[
            r#"{"name":"test_table","description":"A test table","url":"https://example.com","#,
            r#""platforms":["darwin","linux"],"evented":false,"cacheable":false,"#,
            r#""examples":["SELECT * FROM test_table"],"columns":["#,
            r#"{"name":"id","type":"integer","index":true,"required":false,"additional":false,"optimized":false,"hidden":false},"#,
            r#"{"name":"name","type":"text","description":"The name","index":false,"required":false,"additional":false,"optimized":false,"hidden":false}"#,
            r#"]}"#,
        ])
    );
}

fn concat_lines(lines: &[&str]) -> String {
    lines.concat()
}

#[test]
fn table_spec_quotes_text() {
    let plugin = TablePlugin::new("t", vec![], OS, |_: QueryContext| Ok(vec![]))
        .notes("say \"hi\"\n");
    assert_eq!(
        plugin.spec().to_json(),
        "{\"name\":\"t\",\"description\":\"\",\"url\":\"\",\"platforms\":[\"linux\"],\"evented\":false,\"cacheable\":false,\"notes\":\"say \\\"hi\\\"\\n\",\"columns\":[]}"
    );
}

#[test]
fn table_spec_default_platform() {
    let plugin = TablePlugin::new("default_platform", vec![], OS, |_: QueryContext| Ok(vec![]));
    let spec = plugin.spec();
    // Should have auto-detected platform
    assert!(!spec.platforms.is_empty());
}

#[test]
fn platforms_by_system() {
    let on = |os: &str| {
        TablePlugin::new("t", vec![], os, |_: QueryContext| Ok(vec![]))
            .spec()
            .platforms
    };
    assert_eq!(on("macos"), vec![Platform::Darwin]);
    assert_eq!(on("windows"), vec![Platform::Windows]);
    assert_eq!(on("linux"), vec![Platform::Linux]);
    assert_eq!(on("freebsd"), vec![]);
}

#[test]
fn deserialize_varying_query_contexts() {
    let domain = || list(ColumnType::Text, &[(Operator::Equals, "osquery_rs.co")]);
    let email = || list(ColumnType::Text, &[]);
    let path = || list(ColumnType::Text, &[(Operator::Like, "%foobar")]);
    let query = || {
        list(
            ColumnType::Text,
            &[(Operator::Equals, "kMDItemFSName = \"google*\"")],
        )
    };
    let test_cases = vec![
        // Stringy JSON from osquery version < 3
        (
            false,
            r#"{"constraints":[{"name":"domain","list":[{"op":"2","expr":"osquery_rs.co"}],"affinity":"TEXT"},{"name":"email","list":"","affinity":"TEXT"}]}"#,
            vec![("domain", domain()), ("email", email())],
        ),
        // Strongly typed JSON from osquery version > 3
        (
            false,
            r#"{"constraints":[{"name":"domain","list":[{"op":2,"expr":"osquery_rs.co"}],"affinity":"TEXT"},{"name":"email","list":[],"affinity":"TEXT"}]}"#,
            vec![("domain", domain()), ("email", email())],
        ),
        // Stringy (osquery < v3)
        (
            false,
            r#"{"constraints":[{"name":"path","list":[{"op":"65","expr":"%foobar"}],"affinity":"TEXT"},{"name":"query","list":[{"op":"2","expr":"kMDItemFSName = \"google*\""}],"affinity":"TEXT"}]}"#,
            vec![("path", path()), ("query", query())],
        ),
        // Strong (osquery >= v3)
        (
            false,
            r#"{"constraints":[{"name":"path","list":[{"op":65,"expr":"%foobar"}],"affinity":"TEXT"},{"name":"query","list":[{"op":2,"expr":"kMDItemFSName = \"google*\""}],"affinity":"TEXT"}]}"#,
            vec![("path", path()), ("query", query())],
        ),
        // Error cases
        (true, r"{bad json}", vec![]),
        (
            true,
            r#"{"constraints":[{"name":"foo","list":["bar", "baz"],"affinity":"TEXT"}]"#,
            vec![],
        ),
    ];
    for (should_err, data, constraints) in test_cases {
        match QueryContext::parse(data) {
            Ok(ctxs) => {
                assert!(!should_err);
                assert_eq!(ctxs.len(), constraints.len());
                for (k, expected) in &constraints {
                    assert!(ctxs.contains_key(k));
                    assert_eq!(ctxs.get(k).unwrap(), expected);
                }
            }
            Err(_) => assert!(should_err),
        }
    }
}

#[test]
fn parse_json_value_array_basic() {
    let vals = parse_json_value_array(r#"["hello", null, "42"]"#).unwrap();
    assert_eq!(
        vals,
        vec![Some("hello".to_string()), None, Some("42".to_string())]
    );
}

#[test]
fn parse_json_value_array_empty() {
    let vals = parse_json_value_array("[]").unwrap();
    assert!(vals.is_empty());
}

#[test]
fn parse_json_value_array_numeric_values() {
    let vals = parse_json_value_array(r"[123, 3.14, true]").unwrap();
    assert_eq!(
        vals,
        vec![
            Some("123".to_string()),
            Some("3.14".to_string()),
            Some("true".to_string()),
        ]
    );
}

#[test]
fn parse_json_value_array_invalid() {
    assert!(parse_json_value_array("not json").is_err());
    assert!(parse_json_value_array(r#"{"key": "val"}"#).is_err());
    let err = parse_json_value_array("[1,").unwrap_err();
    assert_eq!(
        err.to_string(),
        "invalid json_value_array: EOF while parsing a value at line 1 column 3"
    );
}

#[test]
fn mutation_rows_success() {
    let rows = mutation_rows(MutationResult::Success { row_id: Some(42) });
    let row = &rows[0];
    assert_eq!(row.get("status").unwrap(), "success");
    assert_eq!(row.get("id").unwrap(), "42");
}

#[test]
fn mutation_rows_success_no_rowid() {
    let rows = mutation_rows(MutationResult::Success { row_id: None });
    let row = &rows[0];
    assert_eq!(row.get("status").unwrap(), "success");
    assert!(row.get("id").is_none());
}

#[test]
fn mutation_rows_readonly() {
    let rows = mutation_rows(MutationResult::ReadOnly);
    let row = &rows[0];
    assert_eq!(row.get("status").unwrap(), "readonly");
}

#[test]
fn mutation_rows_failure() {
    let rows = mutation_rows(MutationResult::Failure("bad data".to_string()));
    let row = &rows[0];
    assert_eq!(row.get("status").unwrap(), "failure");
    assert_eq!(row.get("message").unwrap(), "bad data");
    let rows = mutation_rows(MutationResult::Failure(String::new()));
    assert!(rows[0].get("message").is_none());
}

#[test]
fn mutation_rows_constraint() {
    let rows = mutation_rows(MutationResult::Constraint);
    let row = &rows[0];
    assert_eq!(row.get("status").unwrap(), "constraint");
}

#[test]
fn quoted_control_characters() {
    let column = ColumnDefinition::text("c").with_description("\u{8}\t\u{c}\r\\/\u{1}\u{1f}\u{7f}é");
    assert!(column
        .to_json()
        .contains("\"description\":\"\\b\\t\\f\\r\\\\/\\u0001\\u001f\u{7f}é\""));
}

#[test]
fn query_context_counts_its_columns() {
    let mut context = QueryContext::default();
    assert!(context.iter().is_empty());
    for (n, name) in ["b", "A", "a"].iter().enumerate() {
        assert!(!context.contains_key(name));
        assert!(context
            .insert(name.to_string(), list(ColumnType::Text, &[]))
            .is_none());
        assert_eq!(context.len(), n + 1);
        assert!(!context.is_empty());
    }
    assert!(context
        .insert("a".to_string(), list(ColumnType::Blob, &[]))
        .is_some());
    assert_eq!(context.len(), 3);
    let names: Vec<&str> = context.iter().iter().map(|(k, _)| k.as_str()).collect();
    assert_eq!(names, vec!["A", "a", "b"]);
}
