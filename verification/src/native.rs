//! An explicit model of the native database client.
//!
//! The native client is an in-process C library reached through opaque
//! handles; it cannot be linked or reasoned about directly.  This module
//! models it as a state machine over plain values: handles are integer
//! identifiers, the set of currently allocated handles is explicit, every
//! call is counted, and the status code each fallible call returns is drawn
//! from a caller-supplied script (an empty script means every call succeeds).
//!
//! Because the outcome script is arbitrary, everything proved about the
//! lifecycle code that drives this client — no leak, no double free, no use
//! of an unallocated handle, no partially wired connection — holds for every
//! possible sequence of native outcomes, which is exactly the failure
//! injection the design asks to be tested.

use vstd::prelude::*;

use crate::oci::documented_code;
use crate::oci::error_matches;
use crate::oci::rec_content;
use crate::oci::translate_failure;
use crate::oci::ErrorRecord;
use crate::oci::OracleError;
use crate::oci::ERROR_BUFFER_SIZE;
use crate::oci::OCI_SUCCESS;

verus! {

/// The status code the script yields for the `i`-th fallible call from now:
/// the scripted code while the script lasts, success afterwards.
pub open spec fn code_at(script: Seq<i32>, i: int) -> i32 {
    if 0 <= i < script.len() {
        script[i]
    } else {
        OCI_SUCCESS
    }
}

/// The script after `n` fallible calls consumed their codes.
pub open spec fn consumed(script: Seq<i32>, n: int) -> Seq<i32> {
    if 0 <= n <= script.len() {
        script.skip(n)
    } else if n > script.len() {
        Seq::empty()
    } else {
        script
    }
}

/// Consuming `m` codes and then `n` is consuming `m + n`, and the code seen
/// after `m` consumptions at offset `n` is the code at offset `m + n`.
pub proof fn lemma_consumed_consumed(script: Seq<i32>, m: int, n: int)
    requires
        m >= 0,
        n >= 0,
    ensures
        consumed(consumed(script, m), n) == consumed(script, m + n),
        code_at(consumed(script, m), n) == code_at(script, m + n),
{
    if m <= script.len() {
        if n <= script.len() - m {
            assert(consumed(consumed(script, m), n) =~= consumed(script, m + n));
        } else {
            assert(consumed(consumed(script, m), n) =~= consumed(script, m + n));
        }
    } else {
        assert(consumed(consumed(script, m), n) =~= consumed(script, m + n));
    }
}

/// The sequence with its last occurrence of `h` removed (unchanged when `h`
/// does not occur).
pub open spec fn remove_last_occurrence(s: Seq<u64>, h: u64) -> Seq<u64>
    decreases s.len(),
{
    if s.len() == 0 {
        s
    } else if s.last() == h {
        s.drop_last()
    } else {
        remove_last_occurrence(s.drop_last(), h).push(s.last())
    }
}

/// Removing the last occurrence of a freshly pushed element restores the
/// sequence exactly.
pub proof fn lemma_remove_last_of_push(s: Seq<u64>, h: u64)
    ensures
        remove_last_occurrence(s.push(h), h) == s,
{
    assert(s.push(h).last() == h);
    assert(s.push(h).drop_last() =~= s);
}

/// Appending a handle keeps every handle already present.
pub proof fn lemma_push_keeps_contains(s: Seq<u64>, x: u64, h: u64)
    requires
        s.contains(x),
    ensures
        s.push(h).contains(x),
{
    let i = choose|i: int| 0 <= i < s.len() && s[i] == x;
    assert(s.push(h)[i] == x);
}

/// Removing the last occurrence of one handle keeps every other handle.
pub proof fn lemma_remove_last_keeps_others(s: Seq<u64>, h: u64, x: u64)
    requires
        s.contains(x),
        x != h,
    ensures
        remove_last_occurrence(s, h).contains(x),
    decreases s.len(),
{
    let i = choose|i: int| 0 <= i < s.len() && s[i] == x;
    if s.last() == h {
        assert(s.drop_last()[i] == x);
    } else {
        if i == s.len() - 1 {
            assert(remove_last_occurrence(s.drop_last(), h).push(s.last()).last() == x);
        } else {
            assert(s.drop_last()[i] == x);
            lemma_remove_last_keeps_others(s.drop_last(), h, x);
            let r = remove_last_occurrence(s.drop_last(), h);
            let j = choose|j: int| 0 <= j < r.len() && r[j] == x;
            assert(r.push(s.last())[j] == x);
        }
    }
}

/// Where `idx` is the last index holding `h`, removing the last occurrence
/// of `h` is removing the element at `idx`.
proof fn lemma_remove_last_at(s: Seq<u64>, h: u64, idx: int)
    requires
        0 <= idx < s.len(),
        s[idx] == h,
        forall|j: int| idx < j < s.len() ==> s[j] != h,
    ensures
        remove_last_occurrence(s, h) == s.remove(idx),
    decreases s.len(),
{
    if idx == s.len() - 1 {
        assert(s.last() == h);
        assert(s.drop_last() =~= s.remove(idx));
    } else {
        assert(s.last() != h);
        lemma_remove_last_at(s.drop_last(), h, idx);
        assert(s.drop_last().remove(idx).push(s.last()) =~= s.remove(idx));
    }
}

/// The modelled native client.
///
/// `live` lists the currently allocated handles in order of allocation;
/// `script` holds the status codes the next fallible calls will return;
/// `error_record` is what the error-report handle currently reports; the
/// counters record how often each category of native call ran.
pub struct NativeClient {
    /// The identifier the next allocation will hand out.
    pub next_handle: u64,
    /// Currently allocated handles, in order of allocation.
    pub live: Vec<u64>,
    /// Status codes the next fallible calls return; empty means success.
    pub script: Vec<i32>,
    /// The detail code and message the error-report handle holds.
    pub error_record: ErrorRecord,
    /// Attribute wirings recorded by `attr_set`: (target, attribute, value).
    pub wirings: Vec<(u64, u32, u64)>,
    /// Number of environment creation attempts.
    pub env_creates: u64,
    /// Number of successful handle allocations (environment included).
    pub alloc_calls: u64,
    /// Number of handle frees.
    pub free_calls: u64,
    /// Number of server attach attempts.
    pub attach_calls: u64,
    /// Number of session begin attempts.
    pub begin_calls: u64,
    /// Number of session end attempts.
    pub end_calls: u64,
    /// Number of server detach attempts.
    pub detach_calls: u64,
    /// Number of commit attempts.
    pub commit_calls: u64,
    /// Number of rollback attempts.
    pub rollback_calls: u64,
    /// Whether the global termination hook ran.
    pub terminated: bool,
    /// Service-context and error handle of the latest commit, if any.
    pub last_commit: Option<(u64, u64)>,
    /// Service-context and error handle of the latest rollback, if any.
    pub last_rollback: Option<(u64, u64)>,
}

/// The counters of `b` are those of `a` advanced by the given deltas.
pub open spec fn advanced(
    a: NativeClient,
    b: NativeClient,
    d_env: int,
    d_alloc: int,
    d_free: int,
    d_attach: int,
    d_begin: int,
    d_end: int,
    d_detach: int,
    d_commit: int,
    d_rollback: int,
) -> bool {
    &&& b.env_creates == a.env_creates + d_env
    &&& b.alloc_calls == a.alloc_calls + d_alloc
    &&& b.free_calls == a.free_calls + d_free
    &&& b.attach_calls == a.attach_calls + d_attach
    &&& b.begin_calls == a.begin_calls + d_begin
    &&& b.end_calls == a.end_calls + d_end
    &&& b.detach_calls == a.detach_calls + d_detach
    &&& b.commit_calls == a.commit_calls + d_commit
    &&& b.rollback_calls == a.rollback_calls + d_rollback
}

/// Error record, termination flag and transaction notes are unchanged.
pub open spec fn notes_same(a: NativeClient, b: NativeClient) -> bool {
    &&& b.error_record.content() == a.error_record.content()
    &&& b.terminated == a.terminated
    &&& b.last_commit == a.last_commit
    &&& b.last_rollback == a.last_rollback
}

impl NativeClient {
    /// Well-formedness: live handles are nonzero and below the allocation
    /// cursor, scripted codes are within the documented taxonomy, and the
    /// error record fits the bounded retrieval buffer.
    pub open spec fn wf(&self) -> bool {
        &&& self.next_handle >= 1
        &&& forall|i: int|
            0 <= i < self.live@.len() ==> 0 < #[trigger] self.live@[i] < self.next_handle
        &&& forall|i: int| 0 <= i < self.script@.len() ==> documented_code(#[trigger] self.script@[i])
        &&& self.error_record.message@.len() <= ERROR_BUFFER_SIZE
    }

    /// Every counter and the allocation cursor can still grow by `k`.
    pub open spec fn has_room(&self, k: int) -> bool {
        &&& self.next_handle + k <= u64::MAX
        &&& self.env_creates + k <= u64::MAX
        &&& self.alloc_calls + k <= u64::MAX
        &&& self.free_calls + k <= u64::MAX
        &&& self.attach_calls + k <= u64::MAX
        &&& self.begin_calls + k <= u64::MAX
        &&& self.end_calls + k <= u64::MAX
        &&& self.detach_calls + k <= u64::MAX
        &&& self.commit_calls + k <= u64::MAX
        &&& self.rollback_calls + k <= u64::MAX
    }

    /// The handle is currently allocated.
    pub open spec fn is_live(&self, h: u64) -> bool {
        self.live@.contains(h)
    }

    /// A fresh client: no handles, no script (every call succeeds), empty
    /// error record, all counters zero.
    pub fn new() -> (c: NativeClient)
        ensures
            c.wf(),
            c.next_handle == 1,
            c.live@ == Seq::<u64>::empty(),
            c.script@ == Seq::<i32>::empty(),
            c.error_record.content() == (0i32, Seq::<char>::empty()),
            c.wirings@ == Seq::<(u64, u32, u64)>::empty(),
            advanced(
                NativeClient {
                    env_creates: 0,
                    alloc_calls: 0,
                    free_calls: 0,
                    attach_calls: 0,
                    begin_calls: 0,
                    end_calls: 0,
                    detach_calls: 0,
                    commit_calls: 0,
                    rollback_calls: 0,
                    ..c
                },
                c,
                0, 0, 0, 0, 0, 0, 0, 0, 0,
            ),
            c.env_creates == 0,
            c.alloc_calls == 0,
            c.free_calls == 0,
            c.attach_calls == 0,
            c.begin_calls == 0,
            c.end_calls == 0,
            c.detach_calls == 0,
            c.commit_calls == 0,
            c.rollback_calls == 0,
            !c.terminated,
            c.last_commit is None,
            c.last_rollback is None,
    {
        NativeClient {
            next_handle: 1,
            live: Vec::new(),
            script: Vec::new(),
            error_record: ErrorRecord { code: 0, message: String::new() },
            wirings: Vec::new(),
            env_creates: 0,
            alloc_calls: 0,
            free_calls: 0,
            attach_calls: 0,
            begin_calls: 0,
            end_calls: 0,
            detach_calls: 0,
            commit_calls: 0,
            rollback_calls: 0,
            terminated: false,
            last_commit: None,
            last_rollback: None,
        }
    }

    /// Appends a status code for the next unscripted fallible call.
    pub fn push_status(&mut self, code: i32)
        requires
            old(self).wf(),
            documented_code(code),
        ensures
            final(self).wf(),
            final(self).script@ == old(self).script@.push(code),
            final(self).next_handle == old(self).next_handle,
            final(self).live@ == old(self).live@,
            final(self).wirings@ == old(self).wirings@,
            notes_same(*old(self), *final(self)),
            advanced(*old(self), *final(self), 0, 0, 0, 0, 0, 0, 0, 0, 0),
    {
        self.script.push(code);
    }

    /// Sets what the error-report handle reports; the message is limited to
    /// what the bounded retrieval buffer can carry.
    pub fn set_error_record(&mut self, code: i32, message: String)
        requires
            old(self).wf(),
            message@.len() <= ERROR_BUFFER_SIZE,
        ensures
            final(self).wf(),
            final(self).error_record.content() == (code, message@),
            final(self).script@ == old(self).script@,
            final(self).next_handle == old(self).next_handle,
            final(self).live@ == old(self).live@,
            final(self).wirings@ == old(self).wirings@,
            final(self).terminated == old(self).terminated,
            final(self).last_commit == old(self).last_commit,
            final(self).last_rollback == old(self).last_rollback,
            advanced(*old(self), *final(self), 0, 0, 0, 0, 0, 0, 0, 0, 0),
    {
        self.error_record = ErrorRecord { code, message };
    }

    /// Draws the status code of the next fallible call from the script.
    fn next_status(&mut self) -> (code: i32)
        requires
            old(self).wf(),
        ensures
            final(self).wf(),
            documented_code(code),
            code == code_at(old(self).script@, 0),
            final(self).script@ == consumed(old(self).script@, 1),
            final(self).next_handle == old(self).next_handle,
            final(self).live@ == old(self).live@,
            final(self).wirings@ == old(self).wirings@,
            notes_same(*old(self), *final(self)),
            advanced(*old(self), *final(self), 0, 0, 0, 0, 0, 0, 0, 0, 0),
    {
        if self.script.len() > 0 {
            let code = self.script.remove(0);
            proof {
                assert(final(self).script@ =~= consumed(old(self).script@, 1));
            }
            code
        } else {
            OCI_SUCCESS
        }
    }

    /// Hands out a fresh handle and records the successful allocation.
    fn alloc_raw(&mut self) -> (h: u64)
        requires
            old(self).wf(),
            old(self).next_handle < u64::MAX,
            old(self).alloc_calls < u64::MAX,
        ensures
            final(self).wf(),
            h == old(self).next_handle,
            0 < h,
            !old(self).is_live(h),
            final(self).next_handle == old(self).next_handle + 1,
            final(self).live@ == old(self).live@.push(h),
            final(self).script@ == old(self).script@,
            final(self).wirings@ == old(self).wirings@,
            notes_same(*old(self), *final(self)),
            advanced(*old(self), *final(self), 0, 1, 0, 0, 0, 0, 0, 0, 0),
    {
        let h = self.next_handle;
        self.next_handle = self.next_handle + 1;
        self.live.push(h);
        self.alloc_calls = self.alloc_calls + 1;
        h
    }

    /// Creates the process environment handle.  No error-report handle
    /// exists yet, so a failure is translated without handle detail.
    pub fn env_create(&mut self) -> (r: Result<u64, OracleError>)
        requires
            old(self).wf(),
            old(self).has_room(1),
        ensures
            final(self).wf(),
            final(self).script@ == consumed(old(self).script@, 1),
            final(self).wirings@ == old(self).wirings@,
            notes_same(*old(self), *final(self)),
            r is Ok <==> code_at(old(self).script@, 0) == OCI_SUCCESS,
            r matches Ok(h) ==> {
                &&& h == old(self).next_handle
                &&& 0 < h
                &&& !old(self).is_live(h)
                &&& final(self).next_handle == old(self).next_handle + 1
                &&& final(self).live@ == old(self).live@.push(h)
                &&& advanced(*old(self), *final(self), 1, 1, 0, 0, 0, 0, 0, 0, 0)
            },
            r matches Err(e) ==> {
                &&& final(self).next_handle == old(self).next_handle
                &&& final(self).live@ == old(self).live@
                &&& advanced(*old(self), *final(self), 1, 0, 0, 0, 0, 0, 0, 0, 0)
                &&& error_matches(e, code_at(old(self).script@, 0), None, "env_create"@)
            },
    {
        let code = self.next_status();
        self.env_creates = self.env_creates + 1;
        if code == OCI_SUCCESS {
            Ok(self.alloc_raw())
        } else {
            Err(translate_failure(code, None, "env_create"))
        }
    }

    /// Allocates a handle of the given type under a parent handle.  The
    /// allocation call reports its status directly, without an error handle.
    pub fn handle_alloc(&mut self, parent: u64, htype: u32) -> (r: Result<u64, OracleError>)
        requires
            old(self).wf(),
            old(self).has_room(1),
            old(self).is_live(parent),
        ensures
            final(self).wf(),
            final(self).script@ == consumed(old(self).script@, 1),
            final(self).wirings@ == old(self).wirings@,
            notes_same(*old(self), *final(self)),
            r is Ok <==> code_at(old(self).script@, 0) == OCI_SUCCESS,
            r matches Ok(h) ==> {
                &&& h == old(self).next_handle
                &&& 0 < h
                &&& !old(self).is_live(h)
                &&& final(self).next_handle == old(self).next_handle + 1
                &&& final(self).live@ == old(self).live@.push(h)
                &&& advanced(*old(self), *final(self), 0, 1, 0, 0, 0, 0, 0, 0, 0)
            },
            r matches Err(e) ==> {
                &&& final(self).next_handle == old(self).next_handle
                &&& final(self).live@ == old(self).live@
                &&& advanced(*old(self), *final(self), 0, 0, 0, 0, 0, 0, 0, 0, 0)
                &&& error_matches(e, code_at(old(self).script@, 0), None, "handle_alloc"@)
            },
    {
        let code = self.next_status();
        if code == OCI_SUCCESS {
            Ok(self.alloc_raw())
        } else {
            Err(translate_failure(code, None, "handle_alloc"))
        }
    }

    /// Frees an allocated handle: removes its latest allocation from the
    /// live set and counts the free.
    pub fn handle_free(&mut self, h: u64, htype: u32)
        requires
            old(self).wf(),
            old(self).has_room(1),
            old(self).is_live(h),
        ensures
            final(self).wf(),
            final(self).live@ == remove_last_occurrence(old(self).live@, h),
            final(self).next_handle == old(self).next_handle,
            final(self).script@ == old(self).script@,
            final(self).wirings@ == old(self).wirings@,
            notes_same(*old(self), *final(self)),
            advanced(*old(self), *final(self), 0, 0, 1, 0, 0, 0, 0, 0, 0),
    {
        self.free_calls = self.free_calls + 1;
        let ghost orig = self.live@;
        let mut i: usize = self.live.len();
        while self.live[i - 1] != h
            invariant
                self.live@ == orig,
                i <= self.live@.len(),
                exists|j: int| 0 <= j < i && orig[j] == h,
                forall|j: int| i <= j < orig.len() ==> orig[j] != h,
            decreases i,
        {
            i = i - 1;
        }
        self.live.remove(i - 1);
        proof {
            lemma_remove_last_at(orig, h, i - 1);
            assert forall|k: int| 0 <= k < self.live@.len() implies 0 < #[trigger] self.live@[k]
                < self.next_handle by {
                assert(self.live@[k] == orig.remove(i - 1)[k]);
            }
        }
    }

    /// Attaches a server-context handle to the server at the given address.
    pub fn server_attach(&mut self, srvhp: u64, errhp: u64, db: &str) -> (r: Result<
        (),
        OracleError,
    >)
        requires
            old(self).wf(),
            old(self).has_room(1),
            old(self).is_live(srvhp),
            old(self).is_live(errhp),
        ensures
            final(self).wf(),
            final(self).script@ == consumed(old(self).script@, 1),
            final(self).next_handle == old(self).next_handle,
            final(self).live@ == old(self).live@,
            final(self).wirings@ == old(self).wirings@,
            notes_same(*old(self), *final(self)),
            advanced(*old(self), *final(self), 0, 0, 0, 1, 0, 0, 0, 0, 0),
            r is Ok <==> code_at(old(self).script@, 0) == OCI_SUCCESS,
            r matches Err(e) ==> error_matches(
                e,
                code_at(old(self).script@, 0),
                Some(old(self).error_record.content()),
                "server_attach"@,
            ),
    {
        let code = self.next_status();
        self.attach_calls = self.attach_calls + 1;
        if code == OCI_SUCCESS {
            Ok(())
        } else {
            Err(translate_failure(code, Some(&self.error_record), "server_attach"))
        }
    }

    /// Sets `value` as attribute `attr` on the `target` handle; on success
    /// the wiring is recorded.
    pub fn attr_set(&mut self, target: u64, ttype: u32, value: u64, attr: u32, errhp: u64) -> (r:
        Result<(), OracleError>)
        requires
            old(self).wf(),
            old(self).has_room(1),
            old(self).is_live(target),
            old(self).is_live(value),
            old(self).is_live(errhp),
        ensures
            final(self).wf(),
            final(self).script@ == consumed(old(self).script@, 1),
            final(self).next_handle == old(self).next_handle,
            final(self).live@ == old(self).live@,
            notes_same(*old(self), *final(self)),
            advanced(*old(self), *final(self), 0, 0, 0, 0, 0, 0, 0, 0, 0),
            r is Ok <==> code_at(old(self).script@, 0) == OCI_SUCCESS,
            r is Ok ==> final(self).wirings@ == old(self).wirings@.push((target, attr, value)),
            r matches Err(e) ==> {
                &&& final(self).wirings@ == old(self).wirings@
                &&& error_matches(
                    e,
                    code_at(old(self).script@, 0),
                    Some(old(self).error_record.content()),
                    "attr_set"@,
                )
            },
    {
        let code = self.next_status();
        if code == OCI_SUCCESS {
            self.wirings.push((target, attr, value));
            Ok(())
        } else {
            Err(translate_failure(code, Some(&self.error_record), "attr_set"))
        }
    }

    /// Prepares an authentication/session handle from the credentials; on
    /// success a fresh session handle is allocated.
    pub fn prepare_auth(&mut self, envhp: u64, errhp: u64, username: &str, passwd: &str) -> (r:
        Result<u64, OracleError>)
        requires
            old(self).wf(),
            old(self).has_room(1),
            old(self).is_live(envhp),
            old(self).is_live(errhp),
        ensures
            final(self).wf(),
            final(self).script@ == consumed(old(self).script@, 1),
            final(self).wirings@ == old(self).wirings@,
            notes_same(*old(self), *final(self)),
            r is Ok <==> code_at(old(self).script@, 0) == OCI_SUCCESS,
            r matches Ok(h) ==> {
                &&& h == old(self).next_handle
                &&& 0 < h
                &&& !old(self).is_live(h)
                &&& final(self).next_handle == old(self).next_handle + 1
                &&& final(self).live@ == old(self).live@.push(h)
                &&& advanced(*old(self), *final(self), 0, 1, 0, 0, 0, 0, 0, 0, 0)
            },
            r matches Err(e) ==> {
                &&& final(self).next_handle == old(self).next_handle
                &&& final(self).live@ == old(self).live@
                &&& advanced(*old(self), *final(self), 0, 0, 0, 0, 0, 0, 0, 0, 0)
                &&& error_matches(
                    e,
                    code_at(old(self).script@, 0),
                    Some(old(self).error_record.content()),
                    "prepare_auth"@,
                )
            },
    {
        let code = self.next_status();
        if code == OCI_SUCCESS {
            Ok(self.alloc_raw())
        } else {
            Err(translate_failure(code, Some(&self.error_record), "prepare_auth"))
        }
    }

    /// Begins a session on the service context with the prepared credentials.
    pub fn session_begin(&mut self, svchp: u64, errhp: u64, authp: u64) -> (r: Result<
        (),
        OracleError,
    >)
        requires
            old(self).wf(),
            old(self).has_room(1),
            old(self).is_live(svchp),
            old(self).is_live(errhp),
            old(self).is_live(authp),
        ensures
            final(self).wf(),
            final(self).script@ == consumed(old(self).script@, 1),
            final(self).next_handle == old(self).next_handle,
            final(self).live@ == old(self).live@,
            final(self).wirings@ == old(self).wirings@,
            notes_same(*old(self), *final(self)),
            advanced(*old(self), *final(self), 0, 0, 0, 0, 1, 0, 0, 0, 0),
            r is Ok <==> code_at(old(self).script@, 0) == OCI_SUCCESS,
            r matches Err(e) ==> error_matches(
                e,
                code_at(old(self).script@, 0),
                Some(old(self).error_record.content()),
                "session_begin"@,
            ),
    {
        let code = self.next_status();
        self.begin_calls = self.begin_calls + 1;
        if code == OCI_SUCCESS {
            Ok(())
        } else {
            Err(translate_failure(code, Some(&self.error_record), "session_begin"))
        }
    }

    /// Ends the session bound to the service context.
    pub fn session_end(&mut self, svchp: u64, errhp: u64, authp: u64) -> (r: Result<
        (),
        OracleError,
    >)
        requires
            old(self).wf(),
            old(self).has_room(1),
            old(self).is_live(svchp),
            old(self).is_live(errhp),
            old(self).is_live(authp),
        ensures
            final(self).wf(),
            final(self).script@ == consumed(old(self).script@, 1),
            final(self).next_handle == old(self).next_handle,
            final(self).live@ == old(self).live@,
            final(self).wirings@ == old(self).wirings@,
            notes_same(*old(self), *final(self)),
            advanced(*old(self), *final(self), 0, 0, 0, 0, 0, 1, 0, 0, 0),
            r is Ok <==> code_at(old(self).script@, 0) == OCI_SUCCESS,
            r matches Err(e) ==> error_matches(
                e,
                code_at(old(self).script@, 0),
                Some(old(self).error_record.content()),
                "session_end"@,
            ),
    {
        let code = self.next_status();
        self.end_calls = self.end_calls + 1;
        if code == OCI_SUCCESS {
            Ok(())
        } else {
            Err(translate_failure(code, Some(&self.error_record), "session_end"))
        }
    }

    /// Detaches the server context from its server.
    pub fn server_detach(&mut self, srvhp: u64, errhp: u64) -> (r: Result<(), OracleError>)
        requires
            old(self).wf(),
            old(self).has_room(1),
            old(self).is_live(srvhp),
            old(self).is_live(errhp),
        ensures
            final(self).wf(),
            final(self).script@ == consumed(old(self).script@, 1),
            final(self).next_handle == old(self).next_handle,
            final(self).live@ == old(self).live@,
            final(self).wirings@ == old(self).wirings@,
            notes_same(*old(self), *final(self)),
            advanced(*old(self), *final(self), 0, 0, 0, 0, 0, 0, 1, 0, 0),
            r is Ok <==> code_at(old(self).script@, 0) == OCI_SUCCESS,
            r matches Err(e) ==> error_matches(
                e,
                code_at(old(self).script@, 0),
                Some(old(self).error_record.content()),
                "server_detach"@,
            ),
    {
        let code = self.next_status();
        self.detach_calls = self.detach_calls + 1;
        if code == OCI_SUCCESS {
            Ok(())
        } else {
            Err(translate_failure(code, Some(&self.error_record), "server_detach"))
        }
    }

    /// Commits the transaction open on the service context.
    pub fn commit(&mut self, svchp: u64, errhp: u64) -> (r: Result<(), OracleError>)
        requires
            old(self).wf(),
            old(self).has_room(1),
            old(self).is_live(svchp),
            old(self).is_live(errhp),
        ensures
            final(self).wf(),
            final(self).script@ == consumed(old(self).script@, 1),
            final(self).next_handle == old(self).next_handle,
            final(self).live@ == old(self).live@,
            final(self).wirings@ == old(self).wirings@,
            final(self).error_record.content() == old(self).error_record.content(),
            final(self).terminated == old(self).terminated,
            final(self).last_commit == Some((svchp, errhp)),
            final(self).last_rollback == old(self).last_rollback,
            advanced(*old(self), *final(self), 0, 0, 0, 0, 0, 0, 0, 1, 0),
            r is Ok <==> code_at(old(self).script@, 0) == OCI_SUCCESS,
            r matches Err(e) ==> error_matches(
                e,
                code_at(old(self).script@, 0),
                Some(old(self).error_record.content()),
                "commit"@,
            ),
    {
        let code = self.next_status();
        self.commit_calls = self.commit_calls + 1;
        self.last_commit = Some((svchp, errhp));
        if code == OCI_SUCCESS {
            Ok(())
        } else {
            Err(translate_failure(code, Some(&self.error_record), "commit"))
        }
    }

    /// Rolls back the transaction open on the service context.
    pub fn rollback(&mut self, svchp: u64, errhp: u64) -> (r: Result<(), OracleError>)
        requires
            old(self).wf(),
            old(self).has_room(1),
            old(self).is_live(svchp),
            old(self).is_live(errhp),
        ensures
            final(self).wf(),
            final(self).script@ == consumed(old(self).script@, 1),
            final(self).next_handle == old(self).next_handle,
            final(self).live@ == old(self).live@,
            final(self).wirings@ == old(self).wirings@,
            final(self).error_record.content() == old(self).error_record.content(),
            final(self).terminated == old(self).terminated,
            final(self).last_commit == old(self).last_commit,
            final(self).last_rollback == Some((svchp, errhp)),
            advanced(*old(self), *final(self), 0, 0, 0, 0, 0, 0, 0, 0, 1),
            r is Ok <==> code_at(old(self).script@, 0) == OCI_SUCCESS,
            r matches Err(e) ==> error_matches(
                e,
                code_at(old(self).script@, 0),
                Some(old(self).error_record.content()),
                "rollback"@,
            ),
    {
        let code = self.next_status();
        self.rollback_calls = self.rollback_calls + 1;
        self.last_rollback = Some((svchp, errhp));
        if code == OCI_SUCCESS {
            Ok(())
        } else {
            Err(translate_failure(code, Some(&self.error_record), "rollback"))
        }
    }

    /// Runs the global native-library termination hook.
    pub fn terminate(&mut self)
        requires
            old(self).wf(),
        ensures
            final(self).wf(),
            final(self).terminated,
            final(self).script@ == old(self).script@,
            final(self).next_handle == old(self).next_handle,
            final(self).live@ == old(self).live@,
            final(self).wirings@ == old(self).wirings@,
            final(self).error_record.content() == old(self).error_record.content(),
            final(self).last_commit == old(self).last_commit,
            final(self).last_rollback == old(self).last_rollback,
            advanced(*old(self), *final(self), 0, 0, 0, 0, 0, 0, 0, 0, 0),
    {
        self.terminated = true;
    }
}

} // verus!
