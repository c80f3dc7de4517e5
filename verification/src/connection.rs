//! The process environment singleton and the connection lifecycle.
//!
//! An [`Environment`] owns the process-wide environment handle and one
//! error-report handle.  A [`Connection`] owns a chain of three further
//! handles (server context, service context, session), built on top of the
//! shared environment by [`connect`] in a fixed order, with every partially
//! allocated chain unwound in reverse order on failure.  The contracts prove,
//! for every possible sequence of native outcomes, that a caller either
//! receives a fully wired connection of fresh handles or observes the native
//! state exactly as it was, with allocate and free calls balanced.

use vstd::prelude::*;

use crate::native::advanced;
use crate::native::code_at;
use crate::native::consumed;
use crate::native::lemma_consumed_consumed;
use crate::native::lemma_push_keeps_contains;
use crate::native::lemma_remove_last_keeps_others;
use crate::native::lemma_remove_last_of_push;
use crate::native::notes_same;
use crate::native::remove_last_occurrence;
use crate::native::NativeClient;
use crate::oci::err_same;
use crate::oci::error_matches;
use crate::oci::OracleError;
use crate::oci::OCI_ATTR_SERVER;
use crate::oci::OCI_ATTR_SESSION;
use crate::oci::OCI_HTYPE_ENV;
use crate::oci::OCI_HTYPE_ERROR;
use crate::oci::OCI_HTYPE_SERVER;
use crate::oci::OCI_HTYPE_SESSION;
use crate::oci::OCI_HTYPE_SVCCTX;
use crate::oci::OCI_SUCCESS;

verus! {

/// Oracle environment: the process-wide root handle and the error-report
/// handle scoped to it.  Shared read-only by every connection; its only
/// mutation after construction goes through the native client's own
/// thread-safety guarantees for read-mostly handle use.
#[derive(Clone, Copy, Debug)]
pub struct Environment {
    /// The native environment handle.
    pub envhp: u64,
    /// The error-report handle allocated under the environment.
    pub errhp: u64,
}

/// The lazily initialized slot holding the process environment: empty until
/// the first access, then fixed forever — a successful environment or the
/// error the one initialization attempt produced.
pub struct EnvCell {
    /// The cached outcome of the one initialization attempt, if it ran.
    pub state: Option<Result<Environment, OracleError>>,
}

impl EnvCell {
    /// An empty slot: the environment has not been created.
    pub fn new() -> (c: EnvCell)
        ensures
            c.state is None,
    {
        EnvCell { state: None }
    }

    /// A cached successful environment is valid for the client.
    pub open spec fn valid(self, client: &NativeClient) -> bool {
        match self.state {
            Some(Ok(env)) => env.valid(client),
            _ => true,
        }
    }
}

/// What a finished environment initialization attempt looks like: exactly
/// one creation attempt ran; on success both handles are fresh, live and
/// recorded; on failure nothing stays allocated and the error names the step
/// that failed.
pub open spec fn env_init_post(
    pre: NativeClient,
    post: NativeClient,
    r: Result<Environment, OracleError>,
) -> bool {
    let e0 = code_at(pre.script@, 0);
    let e1 = code_at(pre.script@, 1);
    &&& post.wf()
    &&& post.wirings@ == pre.wirings@
    &&& notes_same(pre, post)
    &&& (r is Ok <==> e0 == OCI_SUCCESS && e1 == OCI_SUCCESS)
    &&& (r matches Ok(env) ==> {
        &&& env.envhp == pre.next_handle
        &&& env.errhp == pre.next_handle + 1
        &&& !pre.is_live(env.envhp) && !pre.is_live(env.errhp)
        &&& env.valid(&post)
        &&& post.next_handle == pre.next_handle + 2
        &&& post.live@ == pre.live@.push(env.envhp).push(env.errhp)
        &&& post.script@ == consumed(pre.script@, 2)
        &&& advanced(pre, post, 1, 2, 0, 0, 0, 0, 0, 0, 0)
    })
    &&& (r matches Err(e) ==> {
        &&& post.live@ == pre.live@
        &&& (if e0 != OCI_SUCCESS {
            &&& post.script@ == consumed(pre.script@, 1)
            &&& post.next_handle == pre.next_handle
            &&& advanced(pre, post, 1, 0, 0, 0, 0, 0, 0, 0, 0)
            &&& error_matches(e, e0, None, "env_create"@)
        } else {
            &&& post.script@ == consumed(pre.script@, 2)
            &&& post.next_handle == pre.next_handle + 1
            &&& advanced(pre, post, 1, 1, 1, 0, 0, 0, 0, 0, 0)
            &&& error_matches(e, e1, None, "handle_alloc"@)
        })
    })
}

impl Environment {
    /// Both handles exist, are distinct and are currently allocated.
    pub open spec fn valid(self, client: &NativeClient) -> bool {
        &&& self.envhp != 0
        &&& self.errhp != 0
        &&& self.envhp != self.errhp
        &&& client.is_live(self.envhp)
        &&& client.is_live(self.errhp)
    }

    /// Creates a new environment: the native environment handle first, then
    /// one error-report handle under it.  If the error handle cannot be
    /// allocated the environment handle is freed again, so a failed attempt
    /// leaves nothing allocated.
    pub fn new(client: &mut NativeClient) -> (r: Result<Environment, OracleError>)
        requires
            old(client).wf(),
            old(client).has_room(3),
        ensures
            env_init_post(*old(client), *final(client), r),
    {
        let ghost pre = *old(client);
        let envhp = match client.env_create() {
            Ok(h) => h,
            Err(e) => {
                return Err(e);
            },
        };
        proof {
            assert(client.live@ == pre.live@.push(envhp));
            assert(client.live@[pre.live@.len() as int] == envhp);
        }
        let r2 = client.handle_alloc(envhp, OCI_HTYPE_ERROR);
        proof {
            lemma_consumed_consumed(pre.script@, 1, 1);
            lemma_consumed_consumed(pre.script@, 1, 0);
        }
        match r2 {
            Ok(errhp) => {
                proof {
                    assert(pre.live@.push(envhp).push(errhp)[pre.live@.len() as int] == envhp);
                    assert(pre.live@.push(envhp).push(errhp).last() == errhp);
                }
                Ok(Environment { envhp, errhp })
            },
            Err(e) => {
                proof {
                    assert(client.live@ == pre.live@.push(envhp));
                    assert(client.live@.last() == envhp);
                }
                client.handle_free(envhp, OCI_HTYPE_ENV);
                proof {
                    lemma_remove_last_of_push(pre.live@, envhp);
                }
                Err(e)
            },
        }
    }

    /// Returns the process environment, initializing it on first access.
    ///
    /// Law: the initializing call sequence (create environment, then allocate
    /// the error handle) runs at most once per slot — once the slot holds an
    /// outcome, further accesses return that same outcome and make no native
    /// call at all.
    pub fn get(cell: &mut EnvCell, client: &mut NativeClient) -> (r: Result<
        Environment,
        OracleError,
    >)
        requires
            old(client).wf(),
            old(client).has_room(3),
            old(cell).valid(old(client)),
        ensures
            final(client).wf(),
            final(cell).state is Some,
            final(cell).valid(final(client)),
            old(cell).state is Some ==> *final(client) == *old(client) && final(cell).state
                == old(cell).state,
            match old(cell).state {
                Some(Ok(env)) => r matches Ok(e2) && e2 == env,
                Some(Err(err)) => r matches Err(e2) && err_same(e2, err),
                None => {
                    &&& env_init_post(*old(client), *final(client), r)
                    &&& match final(cell).state {
                        Some(Ok(env)) => r matches Ok(e2) && e2 == env,
                        Some(Err(err)) => r matches Err(e2) && err_same(e2, err),
                        None => false,
                    }
                },
            },
    {
        match &cell.state {
            Some(Ok(env)) => {
                return Ok(*env);
            },
            Some(Err(e)) => {
                return Err(e.clone());
            },
            None => {},
        }
        let r = Environment::new(client);
        match r {
            Ok(env) => {
                cell.state = Some(Ok(env));
                Ok(env)
            },
            Err(e) => {
                let copy = e.clone();
                cell.state = Some(Err(e));
                Err(copy)
            },
        }
    }

    /// Releases the environment's handles in reverse order of acquisition —
    /// error handle before environment handle — and runs the global
    /// termination hook.  Runs once, at process teardown.
    pub fn close(self, client: &mut NativeClient)
        requires
            old(client).wf(),
            old(client).has_room(2),
            self.valid(old(client)),
        ensures
            final(client).wf(),
            final(client).live@ == remove_last_occurrence(
                remove_last_occurrence(old(client).live@, self.errhp),
                self.envhp,
            ),
            final(client).terminated,
            final(client).script@ == old(client).script@,
            final(client).next_handle == old(client).next_handle,
            final(client).wirings@ == old(client).wirings@,
            final(client).error_record.content() == old(client).error_record.content(),
            final(client).last_commit == old(client).last_commit,
            final(client).last_rollback == old(client).last_rollback,
            advanced(*old(client), *final(client), 0, 0, 2, 0, 0, 0, 0, 0, 0),
    {
        let ghost pre = *old(client);
        client.handle_free(self.errhp, OCI_HTYPE_ERROR);
        proof {
            lemma_remove_last_keeps_others(pre.live@, self.errhp, self.envhp);
        }
        client.handle_free(self.envhp, OCI_HTYPE_ENV);
        client.terminate();
    }
}

/// Frees the session/authentication handle, skipping a handle that was never
/// allocated.
pub fn free_session_handler(client: &mut NativeClient, authp: u64)
    requires
        old(client).wf(),
        old(client).has_room(1),
        authp != 0 ==> old(client).is_live(authp),
    ensures
        final(client).wf(),
        final(client).live@ == (if authp != 0 {
            remove_last_occurrence(old(client).live@, authp)
        } else {
            old(client).live@
        }),
        final(client).script@ == old(client).script@,
        final(client).next_handle == old(client).next_handle,
        final(client).wirings@ == old(client).wirings@,
        notes_same(*old(client), *final(client)),
        advanced(
            *old(client),
            *final(client),
            0,
            0,
            if authp != 0 {
                1int
            } else {
                0
            },
            0,
            0,
            0,
            0,
            0,
            0,
        ),
{
    if authp != 0 {
        client.handle_free(authp, OCI_HTYPE_SESSION);
    }
}

/// Frees the service-context and server-context handles, in that order,
/// skipping any handle that was never allocated.
pub fn free_server_handlers(client: &mut NativeClient, srvhp: u64, svchp: u64)
    requires
        old(client).wf(),
        old(client).has_room(2),
        svchp != 0 ==> old(client).is_live(svchp),
        srvhp != 0 ==> old(client).is_live(srvhp),
        srvhp != 0 && svchp != 0 ==> srvhp != svchp,
    ensures
        final(client).wf(),
        final(client).live@ == ({
            let after_svc = if svchp != 0 {
                remove_last_occurrence(old(client).live@, svchp)
            } else {
                old(client).live@
            };
            if srvhp != 0 {
                remove_last_occurrence(after_svc, srvhp)
            } else {
                after_svc
            }
        }),
        final(client).script@ == old(client).script@,
        final(client).next_handle == old(client).next_handle,
        final(client).wirings@ == old(client).wirings@,
        notes_same(*old(client), *final(client)),
        advanced(
            *old(client),
            *final(client),
            0,
            0,
            (if svchp != 0 {
                1int
            } else {
                0
            }) + (if srvhp != 0 {
                1int
            } else {
                0
            }),
            0,
            0,
            0,
            0,
            0,
            0,
        ),
{
    let ghost pre = *old(client);
    if svchp != 0 {
        client.handle_free(svchp, OCI_HTYPE_SVCCTX);
    }
    if srvhp != 0 {
        proof {
            if svchp != 0 {
                lemma_remove_last_keeps_others(pre.live@, svchp, srvhp);
            }
        }
        client.handle_free(srvhp, OCI_HTYPE_SERVER);
    }
}

/// The zero-based fallible step of the connection protocol at which the
/// scripted outcomes first inject a failure: allocate server context (0),
/// allocate service context (1), attach server (2), wire server attribute
/// (3), prepare authentication (4), begin session (5), wire session
/// attribute (6); 7 means every step succeeds.
pub open spec fn connect_fail_step(s: Seq<i32>) -> int {
    if code_at(s, 0) != OCI_SUCCESS {
        0
    } else if code_at(s, 1) != OCI_SUCCESS {
        1
    } else if code_at(s, 2) != OCI_SUCCESS {
        2
    } else if code_at(s, 3) != OCI_SUCCESS {
        3
    } else if code_at(s, 4) != OCI_SUCCESS {
        4
    } else if code_at(s, 5) != OCI_SUCCESS {
        5
    } else if code_at(s, 6) != OCI_SUCCESS {
        6
    } else {
        7
    }
}

/// The scripted outcomes let every step of the connection protocol succeed.
pub open spec fn connect_succeeds(s: Seq<i32>) -> bool {
    connect_fail_step(s) == 7
}

/// The location label a failure at the given protocol step carries.
pub open spec fn connect_fail_location(step: int) -> Seq<char> {
    if step == 0 || step == 1 {
        "handle_alloc"@
    } else if step == 2 {
        "server_attach"@
    } else if step == 3 {
        "attr_set"@
    } else if step == 4 {
        "prepare_auth"@
    } else if step == 5 {
        "session_begin"@
    } else {
        "attr_set"@
    }
}

/// How many handles the protocol has allocated when it fails at `step`.
pub open spec fn alloc_delta(step: int) -> int {
    if step == 0 {
        0
    } else if step == 1 {
        1
    } else if step <= 4 {
        2
    } else {
        3
    }
}

/// The error a failed connection attempt returns: the translation of the
/// first failing step's status code, with the error-handle detail where that
/// step consults the error handle, under the failing step's location label.
pub open spec fn connect_error_matches(e: OracleError, s: Seq<i32>, rec: (i32, Seq<char>)) -> bool {
    let step = connect_fail_step(s);
    error_matches(
        e,
        code_at(s, step),
        if step <= 1 {
            None
        } else {
            Some(rec)
        },
        connect_fail_location(step),
    )
}

/// Connection to Oracle and server context.
#[derive(Debug)]
pub struct Connection {
    /// The shared process environment the connection was built on.
    pub env: Environment,
    /// The server-context handle.
    pub srvhp: u64,
    /// The session/authentication handle.
    pub authp: u64,
    /// A copy of the environment's error-report handle.
    pub errhp: u64,
    /// The service-context handle the connection's operations run against.
    pub svchp: u64,
}

impl Connection {
    /// The connection is fully constructed: all of its own handles exist,
    /// are pairwise distinct, distinct from the environment's handles, and
    /// currently allocated; the error handle is the environment's; and the
    /// service context is wired to both the server context and the session.
    pub open spec fn valid(self, client: &NativeClient) -> bool {
        &&& self.srvhp != 0 && self.svchp != 0 && self.authp != 0
        &&& self.srvhp != self.svchp && self.srvhp != self.authp && self.svchp != self.authp
        &&& self.srvhp != self.env.envhp && self.srvhp != self.env.errhp
        &&& self.svchp != self.env.envhp && self.svchp != self.env.errhp
        &&& self.authp != self.env.envhp && self.authp != self.env.errhp
        &&& client.is_live(self.srvhp)
        &&& client.is_live(self.svchp)
        &&& client.is_live(self.authp)
        &&& self.errhp == self.env.errhp
        &&& client.wirings@.contains((self.svchp, OCI_ATTR_SERVER, self.srvhp))
        &&& client.wirings@.contains((self.svchp, OCI_ATTR_SESSION, self.authp))
    }

    fn new(env: Environment, srvhp: u64, authp: u64, errhp: u64, svchp: u64) -> (c: Connection)
        ensures
            c.env == env,
            c.srvhp == srvhp,
            c.authp == authp,
            c.errhp == errhp,
            c.svchp == svchp,
    {
        Connection { env, srvhp, authp, errhp, svchp }
    }

    /// Commits the open transaction, without waiting for further
    /// confirmation beyond the status code: exactly one native transaction
    /// call runs, against this connection's service context and the shared
    /// environment's error handle, and a non-success status becomes an error.
    pub fn commit(&self, client: &mut NativeClient) -> (r: Result<(), OracleError>)
        requires
            old(client).wf(),
            old(client).has_room(1),
            self.valid(old(client)),
            self.env.valid(old(client)),
        ensures
            final(client).wf(),
            self.valid(final(client)),
            self.env.valid(final(client)),
            final(client).last_commit == Some((self.svchp, self.env.errhp)),
            advanced(*old(client), *final(client), 0, 0, 0, 0, 0, 0, 0, 1, 0),
            final(client).script@ == consumed(old(client).script@, 1),
            final(client).next_handle == old(client).next_handle,
            final(client).live@ == old(client).live@,
            final(client).wirings@ == old(client).wirings@,
            final(client).error_record.content() == old(client).error_record.content(),
            final(client).terminated == old(client).terminated,
            final(client).last_rollback == old(client).last_rollback,
            r is Ok <==> code_at(old(client).script@, 0) == OCI_SUCCESS,
            r matches Err(e) ==> error_matches(
                e,
                code_at(old(client).script@, 0),
                Some(old(client).error_record.content()),
                "commit"@,
            ),
    {
        client.commit(self.svchp, self.env.errhp)
    }

    /// Rolls back the open transaction; same error contract as `commit`.
    pub fn rollback(&self, client: &mut NativeClient) -> (r: Result<(), OracleError>)
        requires
            old(client).wf(),
            old(client).has_room(1),
            self.valid(old(client)),
            self.env.valid(old(client)),
        ensures
            final(client).wf(),
            self.valid(final(client)),
            self.env.valid(final(client)),
            final(client).last_rollback == Some((self.svchp, self.env.errhp)),
            advanced(*old(client), *final(client), 0, 0, 0, 0, 0, 0, 0, 0, 1),
            final(client).script@ == consumed(old(client).script@, 1),
            final(client).next_handle == old(client).next_handle,
            final(client).live@ == old(client).live@,
            final(client).wirings@ == old(client).wirings@,
            final(client).error_record.content() == old(client).error_record.content(),
            final(client).terminated == old(client).terminated,
            final(client).last_commit == old(client).last_commit,
            r is Ok <==> code_at(old(client).script@, 0) == OCI_SUCCESS,
            r matches Err(e) ==> error_matches(
                e,
                code_at(old(client).script@, 0),
                Some(old(client).error_record.content()),
                "rollback"@,
            ),
    {
        client.rollback(self.svchp, self.env.errhp)
    }

    /// Prepares a query object bound to this connection: the query carries
    /// the connection's service-context and error handles, through which the
    /// statement layer issues its calls; the connection must outlive it.
    pub fn make_query(&self, sql: &str) -> (r: Result<Query, OracleError>)
        ensures
            r matches Ok(q) && q.svchp == self.svchp && q.errhp == self.errhp && q.sql@ == sql@,
    {
        Ok(Query { svchp: self.svchp, errhp: self.errhp, sql: sql.to_owned() })
    }

    /// Tears the connection down in strict reverse order: end the session,
    /// detach the server, then free the session, service-context and server
    /// handles — each free skipping a handle that was never allocated.
    pub fn close(self, client: &mut NativeClient)
        requires
            old(client).wf(),
            old(client).has_room(5),
            self.valid(old(client)),
            self.env.valid(old(client)),
        ensures
            final(client).wf(),
            final(client).live@ == remove_last_occurrence(
                remove_last_occurrence(
                    remove_last_occurrence(old(client).live@, self.authp),
                    self.svchp,
                ),
                self.srvhp,
            ),
            self.env.valid(final(client)),
            final(client).script@ == consumed(old(client).script@, 2),
            final(client).next_handle == old(client).next_handle,
            final(client).wirings@ == old(client).wirings@,
            notes_same(*old(client), *final(client)),
            advanced(*old(client), *final(client), 0, 0, 3, 0, 0, 1, 1, 0, 0),
    {
        let ghost pre = *old(client);
        let _ = client.session_end(self.svchp, self.env.errhp, self.authp);
        proof {
            lemma_consumed_consumed(pre.script@, 1, 1);
        }
        let _ = client.server_detach(self.srvhp, self.env.errhp);
        free_session_handler(client, self.authp);
        proof {
            lemma_remove_last_keeps_others(pre.live@, self.authp, self.svchp);
            lemma_remove_last_keeps_others(pre.live@, self.authp, self.srvhp);
            lemma_remove_last_keeps_others(pre.live@, self.authp, self.env.envhp);
            lemma_remove_last_keeps_others(pre.live@, self.authp, self.env.errhp);
        }
        free_server_handlers(client, self.srvhp, self.svchp);
        proof {
            let after_auth = remove_last_occurrence(pre.live@, self.authp);
            let after_svc = remove_last_occurrence(after_auth, self.svchp);
            lemma_remove_last_keeps_others(after_auth, self.svchp, self.env.envhp);
            lemma_remove_last_keeps_others(after_auth, self.svchp, self.env.errhp);
            lemma_remove_last_keeps_others(after_svc, self.srvhp, self.env.envhp);
            lemma_remove_last_keeps_others(after_svc, self.srvhp, self.env.errhp);
        }
    }
}

/// A prepared query: the statement layer's view of a connection.  It carries
/// the service-context handle and the error handle it needs to issue its own
/// native calls and route their status codes through the same translation.
pub struct Query {
    /// The owning connection's service-context handle.
    pub svchp: u64,
    /// The owning connection's error-report handle.
    pub errhp: u64,
    /// The statement text the query was prepared from.
    pub sql: String,
}

/// Law: every sequence of successful connection attempts yields connections
/// that each own a disjoint, fully wired handle chain.  Full wiring is part
/// of `connect_post` (the returned connection is `valid`: both attributes
/// set on its service context).  Disjointness holds for any two successful
/// attempts where the second ran from a state no earlier than the first
/// left — the allocation cursor never decreases across any native call —
/// because each attempt's three handles lie below the cursor it leaves and
/// at or above the cursor it found.
pub proof fn lemma_connections_disjoint(
    env1: Environment,
    pre1: NativeClient,
    post1: NativeClient,
    c1: Connection,
    env2: Environment,
    pre2: NativeClient,
    post2: NativeClient,
    c2: Connection,
)
    requires
        connect_post(env1, pre1, post1, Ok(c1)),
        connect_post(env2, pre2, post2, Ok(c2)),
        pre2.next_handle >= post1.next_handle,
    ensures
        c1.srvhp != c2.srvhp && c1.srvhp != c2.svchp && c1.srvhp != c2.authp,
        c1.svchp != c2.srvhp && c1.svchp != c2.svchp && c1.svchp != c2.authp,
        c1.authp != c2.srvhp && c1.authp != c2.svchp && c1.authp != c2.authp,
        c1.valid(&post1),
        c2.valid(&post2),
{
}

/// What a finished connection attempt against a valid environment looks
/// like: on success the returned connection owns three fresh, fully wired
/// handles; on failure every handle allocated before the failing step has
/// been freed again, in reverse order, so the live set is exactly what it
/// was, allocate and free calls balance, and the error identifies the step.
pub open spec fn connect_post(
    env: Environment,
    pre: NativeClient,
    post: NativeClient,
    r: Result<Connection, OracleError>,
) -> bool {
    let s = pre.script@;
    let step = connect_fail_step(s);
    &&& post.wf()
    &&& notes_same(pre, post)
    &&& env.valid(&post)
    &&& (r is Ok <==> connect_succeeds(s))
    &&& (r matches Ok(conn) ==> {
        &&& conn.env == env
        &&& conn.errhp == env.errhp
        &&& conn.srvhp == pre.next_handle
        &&& conn.svchp == pre.next_handle + 1
        &&& conn.authp == pre.next_handle + 2
        &&& !pre.is_live(conn.srvhp) && !pre.is_live(conn.svchp) && !pre.is_live(conn.authp)
        &&& post.next_handle == pre.next_handle + 3
        &&& post.live@ == pre.live@.push(conn.srvhp).push(conn.svchp).push(conn.authp)
        &&& post.wirings@ == pre.wirings@.push((conn.svchp, OCI_ATTR_SERVER, conn.srvhp)).push(
            (conn.svchp, OCI_ATTR_SESSION, conn.authp),
        )
        &&& post.script@ == consumed(s, 7)
        &&& advanced(pre, post, 0, 3, 0, 1, 1, 0, 0, 0, 0)
        &&& conn.valid(&post)
    })
    &&& (r matches Err(e) ==> {
        &&& post.live@ == pre.live@
        &&& post.script@ == consumed(s, step + 1)
        &&& post.next_handle == pre.next_handle + alloc_delta(step)
        &&& connect_error_matches(e, s, pre.error_record.content())
        &&& advanced(
            pre,
            post,
            0,
            alloc_delta(step),
            alloc_delta(step),
            if step >= 2 {
                1int
            } else {
                0
            },
            if step >= 5 {
                1int
            } else {
                0
            },
            0,
            0,
            0,
            0,
        )
        &&& post.wirings@ == (if step >= 4 {
            pre.wirings@.push(((pre.next_handle + 1) as u64, OCI_ATTR_SERVER, pre.next_handle))
        } else {
            pre.wirings@
        })
    })
}

/// Establishes a connection on an already created environment: allocates the
/// server and service contexts, attaches to the server, wires the server
/// attribute, prepares authentication, begins the session and wires the
/// session attribute — unwinding every handle allocated so far, in reverse
/// order, as soon as any step fails.
#[verifier::rlimit(60)]
pub fn connect_with_env(
    env: &Environment,
    client: &mut NativeClient,
    db: &str,
    username: &str,
    passwd: &str,
) -> (r: Result<Connection, OracleError>)
    requires
        old(client).wf(),
        old(client).has_room(6),
        env.valid(old(client)),
    ensures
        connect_post(*env, *old(client), *final(client), r),
{
    let ghost pre = *old(client);
    let ghost s = pre.script@;

    // allocate the server context
    let srvhp = match client.handle_alloc(env.envhp, OCI_HTYPE_SERVER) {
        Ok(h) => h,
        Err(e) => {
            return Err(e);
        },
    };

    proof {
        lemma_push_keeps_contains(pre.live@, env.envhp, srvhp);
        lemma_push_keeps_contains(pre.live@, env.errhp, srvhp);
    }

    // allocate the service context
    let r_svc = client.handle_alloc(env.envhp, OCI_HTYPE_SVCCTX);
    proof {
        lemma_consumed_consumed(s, 1, 1);
        lemma_consumed_consumed(s, 1, 0);
    }
    let svchp = match r_svc {
        Ok(h) => h,
        Err(e) => {
            proof {
                assert(client.live@.last() == srvhp);
            }
            free_server_handlers(client, srvhp, 0);
            proof {
                lemma_remove_last_of_push(pre.live@, srvhp);
            }
            return Err(e);
        },
    };
    proof {
        assert(client.live@ == pre.live@.push(srvhp).push(svchp));
        assert(client.live@[pre.live@.len() as int] == srvhp);
        assert(client.live@.last() == svchp);
        lemma_push_keeps_contains(pre.live@.push(srvhp), env.envhp, svchp);
        lemma_push_keeps_contains(pre.live@.push(srvhp), env.errhp, svchp);
    }

    // attach to the target server
    let r_att = client.server_attach(srvhp, env.errhp, db);
    proof {
        lemma_consumed_consumed(s, 2, 1);
        lemma_consumed_consumed(s, 2, 0);
    }
    if let Err(e) = r_att {
        free_server_handlers(client, srvhp, svchp);
        proof {
            lemma_remove_last_of_push(pre.live@.push(srvhp), svchp);
            lemma_remove_last_of_push(pre.live@, srvhp);
        }
        return Err(e);
    }

    // set attribute server context in the service context
    let r_wire_server = client.attr_set(
        svchp,
        OCI_HTYPE_SVCCTX,
        srvhp,
        OCI_ATTR_SERVER,
        env.errhp,
    );
    proof {
        lemma_consumed_consumed(s, 3, 1);
        lemma_consumed_consumed(s, 3, 0);
    }
    if let Err(e) = r_wire_server {
        free_server_handlers(client, srvhp, svchp);
        proof {
            lemma_remove_last_of_push(pre.live@.push(srvhp), svchp);
            lemma_remove_last_of_push(pre.live@, srvhp);
        }
        return Err(e);
    }

    // prepare the authentication handle from the credentials
    let r_auth = client.prepare_auth(env.envhp, env.errhp, username, passwd);
    proof {
        lemma_consumed_consumed(s, 4, 1);
        lemma_consumed_consumed(s, 4, 0);
    }
    let authp = match r_auth {
        Ok(h) => h,
        Err(e) => {
            free_server_handlers(client, srvhp, svchp);
            proof {
                lemma_remove_last_of_push(pre.live@.push(srvhp), svchp);
                lemma_remove_last_of_push(pre.live@, srvhp);
            }
            return Err(e);
        },
    };
    proof {
        assert(client.live@ == pre.live@.push(srvhp).push(svchp).push(authp));
        assert(client.live@[pre.live@.len() as int] == srvhp);
        assert(client.live@[pre.live@.len() as int + 1] == svchp);
        assert(client.live@.last() == authp);
        lemma_push_keeps_contains(pre.live@.push(srvhp).push(svchp), env.errhp, authp);
    }

    // begin the session
    let r_begin = client.session_begin(svchp, env.errhp, authp);
    proof {
        lemma_consumed_consumed(s, 5, 1);
        lemma_consumed_consumed(s, 5, 0);
    }
    if let Err(e) = r_begin {
        free_session_handler(client, authp);
        proof {
            lemma_remove_last_of_push(pre.live@.push(srvhp).push(svchp), authp);
        }
        free_server_handlers(client, srvhp, svchp);
        proof {
            lemma_remove_last_of_push(pre.live@.push(srvhp), svchp);
            lemma_remove_last_of_push(pre.live@, srvhp);
        }
        return Err(e);
    }

    // set session context in the service context
    let r_wire_session = client.attr_set(
        svchp,
        OCI_HTYPE_SVCCTX,
        authp,
        OCI_ATTR_SESSION,
        env.errhp,
    );
    proof {
        lemma_consumed_consumed(s, 6, 1);
        lemma_consumed_consumed(s, 6, 0);
    }
    if let Err(e) = r_wire_session {
        free_session_handler(client, authp);
        proof {
            lemma_remove_last_of_push(pre.live@.push(srvhp).push(svchp), authp);
        }
        free_server_handlers(client, srvhp, svchp);
        proof {
            lemma_remove_last_of_push(pre.live@.push(srvhp), svchp);
            lemma_remove_last_of_push(pre.live@, srvhp);
        }
        return Err(e);
    }

    proof {
        let w1 = (svchp, OCI_ATTR_SERVER, srvhp);
        let w2 = (svchp, OCI_ATTR_SESSION, authp);
        assert(client.wirings@ == pre.wirings@.push(w1).push(w2));
        assert(client.wirings@[pre.wirings@.len() as int] == w1);
        assert(client.wirings@.last() == w2);
        assert(client.wirings@.contains(w1) && client.wirings@.contains(w2));
        assert(client.live@ == pre.live@.push(srvhp).push(svchp).push(authp));
        assert(client.is_live(srvhp) && client.is_live(svchp) && client.is_live(authp));
        assert(pre.live@.contains(env.envhp) && pre.live@.contains(env.errhp));
        let i = choose|i: int| 0 <= i < pre.live@.len() && pre.live@[i] == env.envhp;
        assert(pre.live@[i] < pre.next_handle);
        let j = choose|j: int| 0 <= j < pre.live@.len() && pre.live@[j] == env.errhp;
        assert(pre.live@[j] < pre.next_handle);
        assert(connect_succeeds(s));
        assert(client.script@ == consumed(s, 7));
    }
    Ok(Connection::new(*env, srvhp, authp, env.errhp, svchp))
}

/// Connects to the database: obtains the process environment — initializing
/// it on first use — and establishes the handle chain on it.  On any failure
/// the native state keeps exactly the handles it had (plus the environment
/// pair, when this very call initialized the singleton), with allocate and
/// free calls balanced; on success the returned connection is fully wired
/// and owns fresh handles disjoint from everything allocated before.
pub fn connect(
    cell: &mut EnvCell,
    client: &mut NativeClient,
    db: &str,
    username: &str,
    passwd: &str,
) -> (r: Result<Connection, OracleError>)
    requires
        old(client).wf(),
        old(client).has_room(8),
        old(cell).valid(old(client)),
    ensures
        final(client).wf(),
        final(cell).state is Some,
        final(cell).valid(final(client)),
        notes_same(*old(client), *final(client)),
        match old(cell).state {
            Some(Ok(env)) => {
                &&& connect_post(env, *old(client), *final(client), r)
                &&& final(cell).state == old(cell).state
            },
            Some(Err(err)) => {
                &&& r matches Err(e2) && err_same(e2, err)
                &&& *final(client) == *old(client)
                &&& final(cell).state == old(cell).state
            },
            None => ({
                let s = old(client).script@;
                let e0 = code_at(s, 0);
                let e1 = code_at(s, 1);
                if e0 != OCI_SUCCESS || e1 != OCI_SUCCESS {
                    &&& r is Err
                    &&& final(cell).state matches Some(Err(_))
                    &&& (r matches Err(e) ==> env_init_post(
                        *old(client),
                        *final(client),
                        Err(e),
                    ))
                } else {
                    match final(cell).state {
                        Some(Ok(env)) => ({
                            let s2 = consumed(s, 2);
                            let step = connect_fail_step(s2);
                            &&& env.envhp == old(client).next_handle
                            &&& env.errhp == old(client).next_handle + 1
                            &&& env.valid(final(client))
                            &&& (r is Ok <==> connect_succeeds(s2))
                            &&& (r matches Ok(conn) ==> {
                                &&& conn.env == env
                                &&& conn.errhp == env.errhp
                                &&& conn.srvhp == old(client).next_handle + 2
                                &&& conn.svchp == old(client).next_handle + 3
                                &&& conn.authp == old(client).next_handle + 4
                                &&& final(client).live@ == old(client).live@.push(env.envhp).push(
                                    env.errhp,
                                ).push(conn.srvhp).push(conn.svchp).push(conn.authp)
                                &&& final(client).script@ == consumed(s2, 7)
                                &&& advanced(
                                    *old(client),
                                    *final(client),
                                    1,
                                    5,
                                    0,
                                    1,
                                    1,
                                    0,
                                    0,
                                    0,
                                    0,
                                )
                                &&& conn.valid(final(client))
                            })
                            &&& (r matches Err(e) ==> {
                                &&& connect_error_matches(
                                    e,
                                    s2,
                                    old(client).error_record.content(),
                                )
                                &&& final(client).live@ == old(client).live@.push(env.envhp).push(
                                    env.errhp,
                                )
                                &&& final(client).script@ == consumed(s2, step + 1)
                                &&& advanced(
                                    *old(client),
                                    *final(client),
                                    1,
                                    2 + alloc_delta(step),
                                    alloc_delta(step),
                                    if step >= 2 {
                                        1int
                                    } else {
                                        0
                                    },
                                    if step >= 5 {
                                        1int
                                    } else {
                                        0
                                    },
                                    0,
                                    0,
                                    0,
                                    0,
                                )
                            })
                        }),
                        _ => false,
                    }
                }
            }),
        },
{
    let env = match Environment::get(cell, client) {
        Ok(env) => env,
        Err(e) => {
            return Err(e);
        },
    };
    connect_with_env(&env, client, db, username, passwd)
}

} // verus!

