//! The control-plane decision for `PUT /pmem/{id}`: which requests are
//! rejected, with which status and message, and which reach the VMM.

use vstd::prelude::*;

use crate::vmm_config::PmemDeviceConfig;

verus! {

/// HTTP status classes the parser distinguishes.
#[derive(Clone, Copy, PartialEq, Eq, Structural, Debug)]
pub enum StatusCode {
    BadRequest,
}

/// The deferred action a parsed request dispatches to the VMM.
#[derive(Debug)]
pub enum VmmAction {
    /// Create and attach the described pmem device.
    InsertPmemDevice(PmemDeviceConfig),
}

/// A request the control plane accepted.
#[derive(Debug)]
pub struct ParsedRequest {
    pub action: VmmAction,
}

/// A request the control plane rejected; each rejection answers 400.
#[derive(Debug)]
pub enum RequestError {
    /// The path carries no device id.
    EmptyID,
    /// The body could not be deserialized into a configuration record.
    Deserialize,
    /// Any other rejection, with its message.
    Generic(StatusCode, String),
}

/// The rejection message when the path id and the body id disagree.
pub open spec fn id_mismatch_message() -> Seq<char> {
    "The id from the path does not match the id from the body!"@
}

/// Decide a `PUT /pmem/{id}` request. The body arrives already deserialized,
/// or `None` where deserialization failed. An absent or empty path id is
/// rejected as an empty id; a path id that disagrees with the body's
/// `drive_id` is rejected with a bad request and the mismatch message;
/// otherwise the configuration is dispatched to the VMM.
pub fn parse_put_pmem(id_from_path: Option<&String>, body: Option<PmemDeviceConfig>) -> (r: Result<
    ParsedRequest,
    RequestError,
>)
    ensures
        (id_from_path is None || id_from_path->0@.len() == 0) ==> (r matches Err(e)
            && e is EmptyID),
        (id_from_path matches Some(id) && id@.len() > 0 && body is None) ==> (r matches Err(e)
            && e is Deserialize),
        id_from_path matches Some(id) ==> (body matches Some(c0) ==> ({
            &&& (id@.len() > 0 && id@ != c0.drive_id@) ==> (r matches Err(e) && (
            e matches RequestError::Generic(code, msg) && code is BadRequest && msg@
                == id_mismatch_message()))
            &&& (id@.len() > 0 && id@ == c0.drive_id@) ==> (r matches Ok(p) && (
            p.action matches VmmAction::InsertPmemDevice(c) && c == c0))
        })),
{
    let id = match id_from_path {
        Some(id) => id,
        None => {
            return Err(RequestError::EmptyID);
        },
    };
    if id.as_str().is_empty() {
        return Err(RequestError::EmptyID);
    }
    let cfg = match body {
        Some(cfg) => cfg,
        None => {
            return Err(RequestError::Deserialize);
        },
    };
    if !id.eq(&cfg.drive_id) {
        return Err(
            RequestError::Generic(
                StatusCode::BadRequest,
                "The id from the path does not match the id from the body!".to_owned(),
            ),
        );
    }
    Ok(ParsedRequest { action: VmmAction::InsertPmemDevice(cfg) })
}

} // verus!
