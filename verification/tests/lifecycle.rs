//! Tests of the environment singleton and the connection lifecycle, run
//! against the modelled native client with injected failures.

use oracle::connection::connect;
use oracle::connection::EnvCell;
use oracle::connection::Environment;
use oracle::native::NativeClient;

fn fresh() -> (EnvCell, NativeClient) {
    (EnvCell::new(), NativeClient::new())
}

/// A script of `zeros` successes followed by one generic error.
fn failing_at(client: &mut NativeClient, zeros: usize) {
    for _ in 0..zeros {
        client.push_status(0);
    }
    client.push_status(-1);
}

#[test]
fn connect_success_is_fully_wired() {
    let (mut cell, mut client) = fresh();
    let conn = connect(&mut cell, &mut client, "ORCL", "user", "pass").unwrap();
    // environment pair first, then server, service and session handles
    assert_eq!(conn.env.envhp, 1);
    assert_eq!(conn.env.errhp, 2);
    assert_eq!(conn.srvhp, 3);
    assert_eq!(conn.svchp, 4);
    assert_eq!(conn.authp, 5);
    assert_eq!(conn.errhp, conn.env.errhp);
    assert_eq!(client.live, vec![1, 2, 3, 4, 5]);
    // both attributes are wired on the service context
    assert!(client.wirings.contains(&(conn.svchp, oracle::oci::OCI_ATTR_SERVER, conn.srvhp)));
    assert!(client.wirings.contains(&(conn.svchp, oracle::oci::OCI_ATTR_SESSION, conn.authp)));
    assert_eq!(client.env_creates, 1);
    assert_eq!(client.alloc_calls, 5);
    assert_eq!(client.free_calls, 0);
    assert_eq!(client.attach_calls, 1);
    assert_eq!(client.begin_calls, 1);
}

#[test]
fn sequential_connections_are_disjoint() {
    let (mut cell, mut client) = fresh();
    let c1 = connect(&mut cell, &mut client, "ORCL", "user", "pass").unwrap();
    let c2 = connect(&mut cell, &mut client, "ORCL", "other", "word").unwrap();
    let h1 = [c1.srvhp, c1.svchp, c1.authp];
    let h2 = [c2.srvhp, c2.svchp, c2.authp];
    for a in h1.iter() {
        for b in h2.iter() {
            assert_ne!(a, b);
        }
    }
    // both chains wired, both live
    assert!(client.wirings.contains(&(c1.svchp, oracle::oci::OCI_ATTR_SERVER, c1.srvhp)));
    assert!(client.wirings.contains(&(c1.svchp, oracle::oci::OCI_ATTR_SESSION, c1.authp)));
    assert!(client.wirings.contains(&(c2.svchp, oracle::oci::OCI_ATTR_SERVER, c2.srvhp)));
    assert!(client.wirings.contains(&(c2.svchp, oracle::oci::OCI_ATTR_SESSION, c2.authp)));
    for h in h1.iter().chain(h2.iter()) {
        assert!(client.live.contains(h));
    }
    // the singleton served both: one environment creation in total
    assert_eq!(client.env_creates, 1);
}

#[test]
fn environment_accessor_returns_same_instance() {
    let (mut cell, mut client) = fresh();
    let e1 = Environment::get(&mut cell, &mut client).unwrap();
    let calls_after_first = (
        client.env_creates,
        client.alloc_calls,
        client.free_calls,
        client.attach_calls,
    );
    let e2 = Environment::get(&mut cell, &mut client).unwrap();
    // identical singleton, and the second access made no native call
    assert_eq!(e1.envhp, e2.envhp);
    assert_eq!(e1.errhp, e2.errhp);
    assert_eq!(client.env_creates, 1);
    assert_eq!(
        (client.env_creates, client.alloc_calls, client.free_calls, client.attach_calls),
        calls_after_first
    );
}

#[test]
fn environment_initialization_runs_at_most_once() {
    let (mut cell, mut client) = fresh();
    for _ in 0..5 {
        let _ = Environment::get(&mut cell, &mut client);
    }
    assert_eq!(client.env_creates, 1);
    assert_eq!(client.alloc_calls, 2);
}

#[test]
fn environment_failure_is_cached() {
    let (mut cell, mut client) = fresh();
    client.push_status(-1);
    client.set_error_record(604, "ORA-00604: error occurred at recursive SQL level".to_string());
    let e1 = Environment::get(&mut cell, &mut client).unwrap_err();
    assert_eq!(e1.location, "env_create");
    // the failed outcome is cached: no retry, no further native call
    let e2 = Environment::get(&mut cell, &mut client).unwrap_err();
    assert_eq!(e2.errcode, e1.errcode);
    assert_eq!(e2.message, e1.message);
    assert_eq!(e2.location, e1.location);
    assert_eq!(client.env_creates, 1);
    assert!(client.live.is_empty());
}

#[test]
fn environment_unwinds_when_error_handle_fails() {
    let (mut cell, mut client) = fresh();
    client.push_status(0);
    client.push_status(-1);
    let e = Environment::get(&mut cell, &mut client).unwrap_err();
    assert_eq!(e.location, "handle_alloc");
    // the environment handle allocated in the first step was freed again
    assert!(client.live.is_empty());
    assert_eq!(client.alloc_calls, 1);
    assert_eq!(client.free_calls, 1);
}

#[test]
fn every_failure_injection_balances_allocs_and_frees() {
    // inject a failure at each of the nine fallible positions of the
    // connect sequence: environment creation, error-handle allocation,
    // server and service context allocation, attach, server wiring,
    // authentication, session begin, session wiring
    let locations = [
        "env_create",
        "handle_alloc",
        "handle_alloc",
        "handle_alloc",
        "server_attach",
        "attr_set",
        "prepare_auth",
        "session_begin",
        "attr_set",
    ];
    for (step, expected_location) in locations.iter().enumerate() {
        let (mut cell, mut client) = fresh();
        failing_at(&mut client, step);
        let e = connect(&mut cell, &mut client, "ORCL", "user", "pass").unwrap_err();
        assert_eq!(e.location, *expected_location, "failure at position {}", step);
        // every handle allocated before the failure point was freed again,
        // except the environment pair, which the singleton keeps
        let kept = if step >= 2 { 2 } else { 0 };
        assert_eq!(client.live.len(), kept, "failure at position {}", step);
        assert_eq!(
            client.alloc_calls - client.free_calls,
            kept as u64,
            "failure at position {}",
            step
        );
    }
}

#[test]
fn failed_session_begin_leaves_no_connection_handles() {
    let (mut cell, mut client) = fresh();
    failing_at(&mut client, 7);
    client.set_error_record(1017, "ORA-01017: invalid username/password; logon denied".to_string());
    let e = connect(&mut cell, &mut client, "ORCL", "user", "badpass").unwrap_err();
    assert_eq!(e.location, "session_begin");
    assert_eq!(e.errcode, 1017);
    assert_eq!(e.message, "ORA-01017: invalid username/password; logon denied");
    // only the environment pair stays; no server, service or session handle
    assert_eq!(client.live, vec![1, 2]);
    assert_eq!(client.alloc_calls, 5);
    assert_eq!(client.free_calls, 3);
}

#[test]
fn commit_and_rollback_use_the_connection_handles() {
    let (mut cell, mut client) = fresh();
    let conn = connect(&mut cell, &mut client, "ORCL", "user", "pass").unwrap();
    conn.commit(&mut client).unwrap();
    assert_eq!(client.commit_calls, 1);
    assert_eq!(client.last_commit, Some((conn.svchp, conn.env.errhp)));
    conn.rollback(&mut client).unwrap();
    assert_eq!(client.rollback_calls, 1);
    assert_eq!(client.last_rollback, Some((conn.svchp, conn.env.errhp)));
    // each ran exactly one native transaction call
    assert_eq!(client.commit_calls, 1);
}

#[test]
fn failed_commit_and_rollback_become_errors() {
    let (mut cell, mut client) = fresh();
    let conn = connect(&mut cell, &mut client, "ORCL", "user", "pass").unwrap();
    client.set_error_record(2091, "ORA-02091: transaction rolled back".to_string());
    client.push_status(-1);
    let e = conn.commit(&mut client).unwrap_err();
    assert_eq!(e.location, "commit");
    assert_eq!(e.errcode, 2091);
    client.push_status(-1);
    let e = conn.rollback(&mut client).unwrap_err();
    assert_eq!(e.location, "rollback");
    assert_eq!(e.errcode, 2091);
}

#[test]
fn close_releases_the_chain_in_reverse_order() {
    let (mut cell, mut client) = fresh();
    let conn = connect(&mut cell, &mut client, "ORCL", "user", "pass").unwrap();
    conn.close(&mut client);
    // only the environment pair stays live
    assert_eq!(client.live, vec![1, 2]);
    assert_eq!(client.end_calls, 1);
    assert_eq!(client.detach_calls, 1);
    assert_eq!(client.alloc_calls, 5);
    assert_eq!(client.free_calls, 3);
}

#[test]
fn environment_close_releases_everything_and_terminates() {
    let (mut cell, mut client) = fresh();
    let conn = connect(&mut cell, &mut client, "ORCL", "user", "pass").unwrap();
    let env = conn.env;
    conn.close(&mut client);
    env.close(&mut client);
    assert!(client.live.is_empty());
    assert!(client.terminated);
    assert_eq!(client.alloc_calls, client.free_calls);
}

#[test]
fn make_query_carries_the_connection_handles() {
    let (mut cell, mut client) = fresh();
    let conn = connect(&mut cell, &mut client, "ORCL", "user", "pass").unwrap();
    let q = conn.make_query("SELECT id, name FROM users").unwrap();
    assert_eq!(q.svchp, conn.svchp);
    assert_eq!(q.errhp, conn.errhp);
    assert_eq!(q.sql, "SELECT id, name FROM users");
}

#[test]
fn error_message_at_buffer_capacity_flows_through() {
    let (mut cell, mut client) = fresh();
    let long = "x".repeat(2048);
    client.set_error_record(600, long.clone());
    failing_at(&mut client, 4);
    let e = connect(&mut cell, &mut client, "ORCL", "user", "pass").unwrap_err();
    assert_eq!(e.errcode, 600);
    assert_eq!(e.message, long);
    assert_eq!(e.message.len(), 2048);
}
