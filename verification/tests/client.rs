//! What travels on the wire, and waiting for osquery.

use osquery_rs_sdk::client::waiting::{
    missing_socket, no_connection, pipe_step, socket_step, PipeAttempt, Wait,
};
use osquery_rs_sdk::client::wire::{
    acknowledged, extension_infos, option_infos, registered_uuid, respond, response_rows,
    single_row, status_ok, ExtensionResponse, ExtensionStatus, InternalExtensionInfo,
    InternalOptionInfo,
};
use osquery_rs_sdk::text_map::TextMap;
use osquery_rs_sdk::{Error, PluginRequest, PluginResponse};

fn row(pairs: &[(&str, &str)]) -> PluginRequest {
    TextMap::from_pairs(
        pairs
            .iter()
            .map(|(k, v)| (k.to_string(), v.to_string()))
            .collect(),
    )
}

fn status(code: Option<i32>, message: &str, uuid: Option<i64>) -> ExtensionStatus {
    ExtensionStatus {
        code,
        message: Some(message.to_string()),
        uuid,
    }
}

#[test]
fn status_ok_folds_codes() {
    assert!(status_ok(None).is_err(), "missing status is an error");
    let ok = status(Some(0), "OK", Some(7));
    assert_eq!(status_ok(Some(ok)).unwrap(), Some(7));
    let fail = status(Some(1), "nope", None);
    match status_ok(Some(fail)).unwrap_err() {
        Error::Status { code, message } => {
            assert_eq!(code, 1);
            assert_eq!(message, "nope");
        }
        other => panic!("expected Error::Status, got {other:?}"),
    }
    let missing_code = status(None, "odd", None);
    assert!(
        matches!(
            status_ok(Some(missing_code)),
            Err(Error::Status { code: -1, .. })
        ),
        "missing code must not be trusted as success"
    );
    assert_eq!(
        status_ok(None).unwrap_err().to_string(),
        "response missing status"
    );
    let silent = ExtensionStatus {
        code: Some(2),
        message: None,
        uuid: None,
    };
    assert_eq!(status_ok(Some(silent)).unwrap_err().to_string(), "status 2: ");
}

#[test]
fn response_rows_folds_status() {
    let rows = || vec![row(&[("a", "1")])];
    let resp = ExtensionResponse {
        status: Some(status(Some(0), "OK", None)),
        response: Some(rows()),
    };
    assert_eq!(response_rows(resp).unwrap(), rows());

    let resp = ExtensionResponse {
        status: Some(status(Some(2), "boom", None)),
        response: Some(rows()),
    };
    assert!(matches!(
        response_rows(resp),
        Err(Error::Status { code: 2, .. })
    ));

    let resp = ExtensionResponse {
        status: Some(status(Some(0), "OK", None)),
        response: None,
    };
    assert_eq!(response_rows(resp), Ok(vec![]));
}

#[test]
fn registration_needs_a_uuid() {
    assert_eq!(registered_uuid(status(Some(0), "OK", Some(12))), Ok(12));
    assert_eq!(
        registered_uuid(status(Some(0), "OK", None))
            .unwrap_err()
            .to_string(),
        "registration returned no uuid"
    );
    assert!(registered_uuid(status(Some(1), "taken", Some(3))).is_err());
    assert_eq!(acknowledged(status(Some(0), "OK", Some(3))), Ok(()));
    assert!(acknowledged(status(Some(8), "no", None)).is_err());
}

#[test]
fn exactly_one_row() {
    assert_eq!(single_row(vec![row(&[("a", "1")])]), Ok(row(&[("a", "1")])));
    assert_eq!(
        single_row(vec![]).unwrap_err().to_string(),
        "expected 1 row, got 0"
    );
    assert_eq!(
        single_row(vec![row(&[]), row(&[])]).unwrap_err().to_string(),
        "expected 1 row, got 2"
    );
}

#[test]
fn lists_fill_in_what_is_missing() {
    let infos = extension_infos(vec![(
        9,
        InternalExtensionInfo {
            name: Some("core".to_string()),
            version: None,
            sdk_version: Some("5".to_string()),
            min_sdk_version: None,
        },
    )]);
    assert_eq!(infos.len(), 1);
    assert_eq!(infos[0].uuid, 9);
    assert_eq!(infos[0].name, "core");
    assert_eq!(infos[0].version, "");
    assert_eq!(infos[0].sdk_version, "5");
    assert_eq!(infos[0].min_sdk_version, "");

    let said = |value: &str| InternalOptionInfo {
        value: Some(value.to_string()),
        default_value: None,
        option_type: Some("bool".to_string()),
    };
    let options = option_infos(vec![
        ("verbose".to_string(), said("true")),
        ("alpha".to_string(), said("false")),
    ]);
    assert_eq!(options.len(), 2);
    assert_eq!(options.get("verbose").unwrap().value, "true");
    assert_eq!(options.get("verbose").unwrap().default_value, "");
    assert_eq!(options.get("alpha").unwrap().option_type, "bool");
    assert_eq!(options.iter()[0].0, "alpha");
}

#[test]
fn answers_are_read_back() {
    let rows: PluginResponse = vec![row(&[("k", "v")])];
    assert_eq!(response_rows(respond(Ok(rows.clone()))), Ok(rows));
    let status = Error::Status {
        code: 12,
        message: "m".to_string(),
    };
    assert_eq!(response_rows(respond(Err(status.clone()))), Err(status));
    assert_eq!(
        response_rows(respond(Err(Error::other("oops")))),
        Err(Error::Status {
            code: 1,
            message: "oops".to_string(),
        })
    );
    // An error of status 0 is success to a client.
    let odd = Error::Status {
        code: 0,
        message: "m".to_string(),
    };
    assert_eq!(response_rows(respond(Err(odd))), Ok(vec![]));
}

#[test]
fn waiting_for_the_socket() {
    assert_eq!(socket_step(true, true), Wait::Ready);
    assert_eq!(socket_step(true, false), Wait::Ready);
    assert_eq!(socket_step(false, true), Wait::GiveUp);
    assert_eq!(socket_step(false, false), Wait::Again);
    assert_eq!(
        missing_socket("1s", "/s"),
        Error::Transport("waiting for socket - timed out after 1s waiting for socket at /s".to_string())
    );
    assert_eq!(
        no_connection("/s", "refused"),
        Error::Transport("connecting to /s - refused".to_string())
    );
}

#[test]
fn opening_a_pipe() {
    assert_eq!(pipe_step(PipeAttempt::Opened), Wait::Ready);
    assert_eq!(pipe_step(PipeAttempt::Busy), Wait::Again);
    assert_eq!(pipe_step(PipeAttempt::Failed), Wait::GiveUp);
    assert_eq!(pipe_step(PipeAttempt::TooLate), Wait::GiveUp);
}
