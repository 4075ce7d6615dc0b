use vstd::prelude::*;
use vstd::utf8::{decode_utf8, valid_utf8};

use crate::error::{code_value, kind_code, kind_text, Error, ErrorKind};

verus! {

/// The status a boundary call returns: 0 on success, else the error's code.
pub open spec fn status_of<T>(r: Result<T, Error>) -> u32 {
    match r {
        Ok(_) => 0,
        Err(e) => code_value(kind_code(e.kind)),
    }
}

/// `r` failed with an error of this kind that has no cause.
pub open spec fn fails_with<T>(r: Result<T, Error>, k: ErrorKind) -> bool {
    r is Err && r->Err_0.kind == k && r->Err_0.source is None
}

/// The status of a call's result.
pub fn status<T>(r: &Result<T, Error>) -> (s: u32)
    ensures
        s == status_of(*r),
{
    match r {
        Ok(_) => 0,
        Err(e) => e.code_value(),
    }
}

/// The error for a required handle or pointer that was null.
pub fn null_pointer() -> (r: Error)
    ensures
        r.kind == ErrorKind::NullPointer,
        r.source is None,
{
    Error::make(ErrorKind::NullPointer, None)
}

/// Fails with a null-pointer error unless every required handle is present.
pub fn require_handles(present: bool) -> (r: Result<(), Error>)
    ensures
        r is Ok <==> present,
        !present ==> fails_with(r, ErrorKind::NullPointer),
{
    if present {
        Ok(())
    } else {
        Err(null_pointer())
    }
}

/// Relies on `std::str::from_utf8`: the bytes as text exactly when they are
/// valid UTF-8.
#[verifier::external_body]
fn utf8_text(b: &[u8]) -> (r: Option<String>)
    ensures
        r is Some <==> valid_utf8(b@),
        r matches Some(s) ==> s@ == decode_utf8(b@),
{
    std::str::from_utf8(b).ok().map(|s| s.to_owned())
}

/// A string handed over as bytes (its terminator removed), or none for a null
/// pointer: the text, once it is known to be valid UTF-8.
pub fn guard_text(bytes: Option<&[u8]>) -> (r: Result<String, Error>)
    ensures
        match bytes {
            None => fails_with(r, ErrorKind::NullPointer),
            Some(b) => if valid_utf8(b@) {
                r matches Ok(s) && s@ == decode_utf8(b@)
            } else {
                fails_with(r, ErrorKind::InvalidUTF8)
            },
        },
{
    match bytes {
        None => Err(null_pointer()),
        Some(b) => match utf8_text(b) {
            Some(s) => Ok(s),
            None => Err(Error::make(ErrorKind::InvalidUTF8, None)),
        },
    }
}

/// The message of an error handle; `out` says whether the caller gave a
/// place for it.
pub fn err_get_msg(err: Option<&Error>, out: bool) -> (r: Result<String, Error>)
    ensures
        match err {
            Some(e) if out => r matches Ok(s) && s@ == kind_text(e.kind),
            _ => fails_with(r, ErrorKind::NullPointer),
        },
{
    match err {
        Some(e) if out => Ok(e.render()),
        _ => Err(null_pointer()),
    }
}

/// The numeric code of an error handle.
pub fn err_get_code(err: Option<&Error>, out: bool) -> (r: Result<u32, Error>)
    ensures
        match err {
            Some(e) if out => r == Ok::<u32, Error>(code_value(kind_code(e.kind))),
            _ => fails_with(r, ErrorKind::NullPointer),
        },
{
    match err {
        Some(e) if out => Ok(e.code_value()),
        _ => Err(null_pointer()),
    }
}

/// The cause of an error handle, borrowed from it: it stays owned by the
/// error and lives only as long as that error does.
pub fn err_get_source<'a>(err: Option<&'a Error>, out: bool) -> (r: Result<Option<&'a Error>, Error>)
    ensures
        match err {
            Some(e) if out => r matches Ok(c) && match e.source {
                Some(b) => c matches Some(x) && *x == *b,
                None => c is None,
            },
            _ => fails_with(r, ErrorKind::NullPointer),
        },
{
    match err {
        Some(e) if out => Ok(e.source()),
        _ => Err(null_pointer()),
    }
}

/// The captured stack of an error handle as text, if one was captured.
pub fn err_get_backtrace(err: Option<&Error>, out: bool) -> (r: Result<Option<String>, Error>)
    ensures
        match err {
            Some(e) if out => r matches Ok(t) && (t is Some <==> e.backtrace is Some),
            _ => fails_with(r, ErrorKind::NullPointer),
        },
{
    match err {
        Some(e) if out => Ok(e.backtrace_text()),
        _ => Err(null_pointer()),
    }
}

/// A three-layer chain for callers to exercise the error queries with.
pub fn sample_error() -> (r: Error)
    ensures
        r.kind == ErrorKind::PluginLoadError,
        r.backtrace is Some,
        r.source is Some,
        r.source->0.kind == ErrorKind::InvalidHexDigit('Z'),
        r.source->0.source is Some,
        r.source->0.source->0.kind == ErrorKind::NullPointer,
        r.source->0.source->0.source is None,
{
    let inner = Error::new(ErrorKind::NullPointer);
    let middle = Error { kind: ErrorKind::InvalidHexDigit('Z'), source: Some(Box::new(inner)), backtrace: None };
    Error::make(ErrorKind::PluginLoadError, Some(middle))
}

/// A call refused for a null handle reports status 2, the null-pointer code,
/// and that status is never the success status.
pub proof fn lemma_null_status<T>(r: Result<T, Error>)
    requires
        r is Err,
        r->Err_0.kind == ErrorKind::NullPointer,
    ensures
        status_of(r) == 2,
        status_of(r) != 0,
{
}

} // verus!
