//! Status codes of the native client and the error translation layer.
//!
//! Every fallible native call yields an integer status code.  [`check_error`]
//! turns a status code, together with the content that the error-report
//! handle holds at that moment, into `Ok(())` or a structured [`OracleError`].
//! The translation is a pure function of the code and the handle content; its
//! result is pinned down exactly by the spec functions [`translated_code`]
//! and [`translated_message`].

use vstd::prelude::*;

verus! {

/// The native client's "call succeeded" status code.
pub const OCI_SUCCESS: i32 = 0;

/// Success, but the error-report handle carries informational detail.
/// The design surfaces this as an error result; callers decide its weight.
pub const OCI_SUCCESS_WITH_INFO: i32 = 1;

/// Generic failure; detail must be fetched from the error-report handle.
pub const OCI_ERROR: i32 = -1;

/// The operation found no data.
pub const OCI_NO_DATA: i32 = 100;

/// A handle passed to the call was invalid.
pub const OCI_INVALID_HANDLE: i32 = -2;

/// The call needs further data from the caller.
pub const OCI_NEED_DATA: i32 = 99;

/// An earlier call on the same handle is still executing.
pub const OCI_STILL_EXECUTING: i32 = -3123;

/// Handle-type tag for the process environment handle.
pub const OCI_HTYPE_ENV: u32 = 1;

/// Handle-type tag for an error-report handle.
pub const OCI_HTYPE_ERROR: u32 = 2;

/// Handle-type tag for a service-context handle.
pub const OCI_HTYPE_SVCCTX: u32 = 3;

/// Handle-type tag for a server-context handle.
pub const OCI_HTYPE_SERVER: u32 = 8;

/// Handle-type tag for a session/authentication handle.
pub const OCI_HTYPE_SESSION: u32 = 9;

/// Attribute tag wiring a server context into a service context.
pub const OCI_ATTR_SERVER: u32 = 6;

/// Attribute tag wiring a session into a service context.
pub const OCI_ATTR_SESSION: u32 = 7;

/// Detail code the native client reports for a NULL column reaching an
/// aggregate function; it is special-cased to a fixed friendly message.
pub const NULL_IN_AGGREGATE_CODE: i32 = 24347;

/// Capacity, in characters, of the buffer handed to the native error
/// retrieval call: a retrieved message never exceeds this length.
pub const ERROR_BUFFER_SIZE: usize = 2048;

/// Represents an Oracle error: the native code, the retrieved or fixed
/// message, and a static label naming the native call that failed.
#[derive(Debug)]
pub struct OracleError {
    /// Oracle error code
    pub errcode: i32,
    /// Message from Oracle
    pub message: String,
    /// Native call where the error occurred
    pub location: &'static str,
}

impl Clone for OracleError {
    fn clone(&self) -> (r: Self)
        ensures
            r.errcode == self.errcode,
            r.message@ == self.message@,
            r.location@ == self.location@,
    {
        OracleError { errcode: self.errcode, message: self.message.clone(), location: self.location }
    }
}

impl OracleError {
    /// A caller-made error, outside the native status-code taxonomy.
    pub fn new(message: String, location: &'static str) -> (r: OracleError)
        ensures
            r.errcode == 200,
            r.message@ == message@,
            r.location@ == location@,
    {
        OracleError { errcode: 200, message, location }
    }
}

pub type OracleResult<T> = Result<T, OracleError>;

/// What the error-report handle holds: the detail code and the message that
/// the native error retrieval call would copy into its bounded buffer.
pub struct ErrorRecord {
    pub code: i32,
    pub message: String,
}

impl ErrorRecord {
    /// The plain-value content of the record, as contracts speak of it.
    pub open spec fn content(&self) -> (i32, Seq<char>) {
        (self.code, self.message@)
    }
}

/// The status codes the native client's documented contract allows.  Any
/// other code is an out-of-contract defect, which this layer does not accept.
pub open spec fn documented_code(code: i32) -> bool {
    ||| code == OCI_SUCCESS
    ||| code == OCI_SUCCESS_WITH_INFO
    ||| code == OCI_ERROR
    ||| code == OCI_NO_DATA
    ||| code == OCI_INVALID_HANDLE
    ||| code == OCI_NEED_DATA
    ||| code == OCI_STILL_EXECUTING
}

/// Codes whose detail is fetched from the error-report handle when one is
/// supplied.
pub open spec fn detail_code(code: i32) -> bool {
    code == OCI_ERROR || code == OCI_SUCCESS_WITH_INFO
}

/// The numeric code of the translated error: the handle's detail code where
/// the status asks for detail and a handle is present, the status code itself
/// otherwise.
pub open spec fn translated_code(errcode: i32, rec: Option<(i32, Seq<char>)>) -> i32 {
    match rec {
        Some(rc) => if detail_code(errcode) {
            rc.0
        } else {
            errcode
        },
        None => errcode,
    }
}

/// The message of the translated error, as a function of the status code and
/// the error-handle content alone.
pub open spec fn translated_message(errcode: i32, rec: Option<(i32, Seq<char>)>) -> Seq<char> {
    if detail_code(errcode) {
        match rec {
            Some(rc) => if rc.0 == NULL_IN_AGGREGATE_CODE {
                "NULL column in a aggregate function"@
            } else {
                rc.1
            },
            None => if errcode == OCI_ERROR {
                "Error with no details"@
            } else {
                "Success with info"@
            },
        }
    } else if errcode == OCI_NO_DATA {
        "No data"@
    } else if errcode == OCI_INVALID_HANDLE {
        "Invalid handle"@
    } else if errcode == OCI_NEED_DATA {
        "Need data"@
    } else if errcode == OCI_STILL_EXECUTING {
        "Steel executing"@
    } else {
        Seq::<char>::empty()
    }
}

/// The content a translation saw, lifted from the optional handle reference.
pub open spec fn rec_content(handle: Option<&ErrorRecord>) -> Option<(i32, Seq<char>)> {
    match handle {
        Some(r) => Some(r.content()),
        None => None,
    }
}

/// Returns the error currently reported by an error-report handle: its detail
/// code and message, stamped with the caller's location label.
fn error_get(rec: &ErrorRecord, location: &'static str) -> (e: OracleError)
    ensures
        e.errcode == rec.code,
        e.message@ == rec.message@,
        e.location@ == location@,
{
    OracleError { errcode: rec.code, message: rec.message.clone(), location }
}

/// Two errors agree in every observable part.
pub open spec fn err_same(a: OracleError, b: OracleError) -> bool {
    &&& a.errcode == b.errcode
    &&& a.message@ == b.message@
    &&& a.location@ == b.location@
}

/// The exact relation between a non-success status code with its
/// error-handle content and the structured error it translates to.
pub open spec fn error_matches(
    e: OracleError,
    code: i32,
    rec: Option<(i32, Seq<char>)>,
    loc: Seq<char>,
) -> bool {
    &&& e.errcode == translated_code(code, rec)
    &&& e.message@ == translated_message(code, rec)
    &&& e.location@ == loc
}

/// Builds the structured error for a documented non-success status code.
pub fn translate_failure(errcode: i32, handle: Option<&ErrorRecord>, location: &'static str) -> (e:
    OracleError)
    requires
        documented_code(errcode),
        errcode != OCI_SUCCESS,
    ensures
        error_matches(e, errcode, rec_content(handle), location@),
{
    let by_handle: Option<OracleError> = match handle {
        Some(rec) => {
            let mut error = error_get(rec, location);
            if error.errcode == NULL_IN_AGGREGATE_CODE {
                error.message = "NULL column in a aggregate function".to_owned();
            }
            Some(error)
        },
        None => None,
    };
    let oracleerr = if errcode == OCI_ERROR || errcode == OCI_SUCCESS_WITH_INFO {
        match by_handle {
            Some(e) => e,
            None => {
                let message = if errcode == OCI_ERROR {
                    "Error with no details"
                } else {
                    "Success with info"
                };
                OracleError { errcode, message: message.to_owned(), location }
            },
        }
    } else {
        let message = if errcode == OCI_NO_DATA {
            "No data"
        } else if errcode == OCI_INVALID_HANDLE {
            "Invalid handle"
        } else if errcode == OCI_NEED_DATA {
            "Need data"
        } else {
            "Steel executing"
        };
        OracleError { errcode, message: message.to_owned(), location }
    };
    oracleerr
}

/// Checks a native status code against the documented taxonomy.
///
/// Success maps to `Ok(())`.  Every other documented code maps to an error
/// whose code and message are exactly [`translated_code`] and
/// [`translated_message`] of the status code and the error-handle content,
/// and whose location is the caller's label.  Out-of-contract codes are
/// excluded by precondition: the source treats them as unrecoverable defects.
pub fn check_error(errcode: i32, handle: Option<&ErrorRecord>, location: &'static str) -> (r:
    Result<(), OracleError>)
    requires
        documented_code(errcode),
    ensures
        r is Ok <==> errcode == OCI_SUCCESS,
        r matches Err(e) ==> error_matches(e, errcode, rec_content(handle), location@),
{
    if errcode == OCI_SUCCESS {
        Ok(())
    } else {
        Err(translate_failure(errcode, handle, location))
    }
}

/// Law: the translation is pure and idempotent.  Two results that each
/// satisfy the translation relation for the same status code and the same
/// error-handle content are equal in every observable part, however many
/// times and in whatever order the checks ran.
pub proof fn lemma_check_error_pure(
    errcode: i32,
    rec: Option<(i32, Seq<char>)>,
    loc: Seq<char>,
    e1: OracleError,
    e2: OracleError,
)
    requires
        e1.errcode == translated_code(errcode, rec),
        e1.message@ == translated_message(errcode, rec),
        e1.location@ == loc,
        e2.errcode == translated_code(errcode, rec),
        e2.message@ == translated_message(errcode, rec),
        e2.location@ == loc,
    ensures
        e1.errcode == e2.errcode,
        e1.message@ == e2.message@,
        e1.location@ == e2.location@,
{
}

} // verus!
