//! Answers to the native renderer's resource requests, served by a Rust closure.

use crate::bridge::{FsErrorReason, ResourceKind, RustFsResponse};
use vstd::prelude::*;

verus! {

/// Return value for a resource request callback.
#[derive(Debug)]
pub enum FsResponse {
    /// Request succeeded; bytes are the raw resource body.
    Data(Vec<u8>),
    /// Request was a well-formed miss (e.g. mbtiles tile not present at
    /// this z/x/y). The renderer treats this as a 204-equivalent: no error, no
    /// body. Overzoomed tiles should use this rather than [`FsResponse::Error`].
    NoContent,
    /// Request failed. The reason maps directly to the renderer's error enum so
    /// its retry/backoff logic still applies. Don't use
    /// [`FsErrorReason::Success`] here; pick `Other` if no other variant fits.
    Error {
        /// Category of failure.
        reason: FsErrorReason,
        /// Human-readable message for logging.
        message: String,
    },
}

/// Whether `r` is the answer handed to the native renderer for the callback's
/// response `resp`: the body of `Data`, an empty body flagged as no content for
/// `NoContent`, and the reason and message of `Error`.
pub open spec fn answers(resp: FsResponse, r: RustFsResponse) -> bool {
    match resp {
        FsResponse::Data(bytes) => {
            &&& r.data@ == bytes@
            &&& r.error_reason == FsErrorReason::Success
            &&& r.error_message@ == Seq::<char>::empty()
            &&& !r.no_content
        },
        FsResponse::NoContent => {
            &&& r.data@ == Seq::<u8>::empty()
            &&& r.error_reason == FsErrorReason::Success
            &&& r.error_message@ == Seq::<char>::empty()
            &&& r.no_content
        },
        FsResponse::Error { reason, message } => {
            &&& r.data@ == Seq::<u8>::empty()
            &&& r.error_reason == reason
            &&& r.error_message@ == message@
            &&& !r.no_content
        },
    }
}

/// The answer tells the renderer what happened: it is flagged as no content
/// exactly for `NoContent`, only served resources carry data, and (as long as
/// errors name a real reason, as `FsResponse::Error` asks) it carries the
/// `Success` reason exactly when the callback did not report an error.
pub proof fn lemma_answer_classifies_response(resp: FsResponse, r: RustFsResponse)
    requires
        answers(resp, r),
    ensures
        r.no_content <==> resp is NoContent,
        !(resp is Data) ==> r.data@.len() == 0,
        resp matches FsResponse::Data(bytes) ==> r.data@ == bytes@,
        (resp matches FsResponse::Error { reason, .. } ==> reason != FsErrorReason::Success) ==> (
        r.error_reason == FsErrorReason::Success <==> !(resp is Error)),
{
}

/// Every answer hands the callback's outcome on unchanged: a served body as
/// it is, and a reported error with exactly the reason and the message the
/// callback gave, whichever reason that is.
pub proof fn lemma_answer_keeps_what_the_callback_gave(resp: FsResponse, r: RustFsResponse)
    requires
        answers(resp, r),
    ensures
        resp matches FsResponse::Error { reason, message } ==> r.error_reason == reason
            && r.error_message@ == message@ && r.data@.len() == 0 && !r.no_content,
        resp matches FsResponse::Data(bytes) ==> r.data@ == bytes@ && r.error_reason
            == FsErrorReason::Success && r.error_message@.len() == 0 && !r.no_content,
        resp is NoContent ==> r.no_content && r.data@.len() == 0 && r.error_reason
            == FsErrorReason::Success && r.error_message@.len() == 0,
{
}

/// Turns the callback's response into the answer handed to the native renderer.
pub fn answer_for(resp: FsResponse) -> (r: RustFsResponse)
    ensures
        answers(resp, r),
        resp matches FsResponse::Error { reason, message } ==> r.error_reason == reason
            && r.error_message@ == message@,
        resp matches FsResponse::Data(bytes) ==> r.data@ == bytes@,
{
    match resp {
        FsResponse::Data(bytes) => RustFsResponse {
            data: bytes,
            error_reason: FsErrorReason::Success,
            error_message: String::new(),
            no_content: false,
        },
        FsResponse::NoContent => RustFsResponse {
            data: Vec::new(),
            error_reason: FsErrorReason::Success,
            error_message: String::new(),
            no_content: true,
        },
        FsResponse::Error { reason, message } => RustFsResponse {
            data: Vec::new(),
            error_reason: reason,
            error_message: message,
            no_content: false,
        },
    }
}

/// Serves one resource request of the native renderer: asks the callback,
/// once, for the url and kind, and answers with what it returned. The
/// callback is taken as a value that may be called once (a shared reference
/// to a registered closure is one), so it cannot be asked twice.
pub fn fs_request_callback<F: FnOnce(&str, ResourceKind) -> FsResponse>(
    callback: F,
    url: &str,
    kind: ResourceKind,
) -> (r: RustFsResponse)
    requires
        call_requires(callback, (url, kind)),
    ensures
        exists|resp: FsResponse| call_ensures(callback, (url, kind), resp) && answers(resp, r),
{
    let resp = callback(url, kind);
    answer_for(resp)
}

} // verus!
