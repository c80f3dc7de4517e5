//! Tests of the error translation layer.

use oracle::oci::check_error;
use oracle::oci::ErrorRecord;
use oracle::oci::OracleError;

#[test]
fn success_maps_to_ok() {
    assert!(check_error(0, None, "anywhere").is_ok());
}

#[test]
fn error_without_handle() {
    let e = check_error(-1, None, "server_attach").unwrap_err();
    assert_eq!(e.errcode, -1);
    assert_eq!(e.message, "Error with no details");
    assert_eq!(e.location, "server_attach");
}

#[test]
fn success_with_info_without_handle() {
    let e = check_error(1, None, "commit").unwrap_err();
    assert_eq!(e.errcode, 1);
    assert_eq!(e.message, "Success with info");
    assert_eq!(e.location, "commit");
}

#[test]
fn success_with_info_is_still_an_error() {
    // informational success is forwarded as an error result; the caller
    // decides whether to treat it as fatal
    assert!(check_error(1, None, "commit").is_err());
    let rec = ErrorRecord { code: 1405, message: "ORA-01405: fetched column value is NULL".to_string() };
    assert!(check_error(1, Some(&rec), "commit").is_err());
}

#[test]
fn error_takes_detail_from_handle() {
    let rec = ErrorRecord {
        code: 12154,
        message: "ORA-12154: TNS:could not resolve the connect identifier".to_string(),
    };
    let e = check_error(-1, Some(&rec), "server_attach").unwrap_err();
    assert_eq!(e.errcode, 12154);
    assert_eq!(e.message, "ORA-12154: TNS:could not resolve the connect identifier");
    assert_eq!(e.location, "server_attach");
}

#[test]
fn success_with_info_takes_detail_from_handle() {
    let rec = ErrorRecord { code: 24344, message: "success with compilation error".to_string() };
    let e = check_error(1, Some(&rec), "commit").unwrap_err();
    assert_eq!(e.errcode, 24344);
    assert_eq!(e.message, "success with compilation error");
}

#[test]
fn null_in_aggregate_gets_fixed_message() {
    // whatever the handle's retrieved text, detail code 24347 always yields
    // the fixed friendly message
    let rec1 = ErrorRecord { code: 24347, message: "ORA-24347: warning of a NULL column".to_string() };
    let e1 = check_error(-1, Some(&rec1), "fetch").unwrap_err();
    assert_eq!(e1.errcode, 24347);
    assert_eq!(e1.message, "NULL column in a aggregate function");

    let rec2 = ErrorRecord { code: 24347, message: "some entirely different text".to_string() };
    let e2 = check_error(1, Some(&rec2), "fetch").unwrap_err();
    assert_eq!(e2.message, "NULL column in a aggregate function");
}

#[test]
fn fixed_messages_ignore_the_handle() {
    let rec = ErrorRecord { code: 999, message: "should not be consulted".to_string() };
    let e = check_error(100, Some(&rec), "fetch").unwrap_err();
    assert_eq!(e.errcode, 100);
    assert_eq!(e.message, "No data");

    let e = check_error(-2, Some(&rec), "fetch").unwrap_err();
    assert_eq!(e.errcode, -2);
    assert_eq!(e.message, "Invalid handle");

    let e = check_error(99, None, "fetch").unwrap_err();
    assert_eq!(e.errcode, 99);
    assert_eq!(e.message, "Need data");

    let e = check_error(-3123, None, "fetch").unwrap_err();
    assert_eq!(e.errcode, -3123);
    assert_eq!(e.message, "Steel executing");
}

#[test]
fn check_error_is_pure_and_idempotent() {
    // same status code and same handle content give equivalent errors,
    // however often the translation runs
    let rec = ErrorRecord { code: 1017, message: "ORA-01017: invalid username/password".to_string() };
    let e1 = check_error(-1, Some(&rec), "session_begin").unwrap_err();
    let e2 = check_error(-1, Some(&rec), "session_begin").unwrap_err();
    let e3 = check_error(-1, Some(&rec), "session_begin").unwrap_err();
    assert_eq!(e1.errcode, e2.errcode);
    assert_eq!(e1.message, e2.message);
    assert_eq!(e1.location, e2.location);
    assert_eq!(e2.errcode, e3.errcode);
    assert_eq!(e2.message, e3.message);
    assert_eq!(e2.location, e3.location);
}

#[test]
fn oracle_error_new_uses_caller_code() {
    let e = OracleError::new("value conversion failed".to_string(), "fetch");
    assert_eq!(e.errcode, 200);
    assert_eq!(e.message, "value conversion failed");
    assert_eq!(e.location, "fetch");
}

#[test]
fn oracle_error_clone_keeps_fields() {
    let e = OracleError::new("first message".to_string(), "here");
    let c = e.clone();
    assert_eq!(c.errcode, e.errcode);
    assert_eq!(c.message, e.message);
    assert_eq!(c.location, e.location);
}
