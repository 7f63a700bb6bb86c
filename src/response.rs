//! Interpretation of the service's reply, and the plain-text report.
use vstd::prelude::*;
use vstd::string::*;
use crate::route::{view_prefix_of, Service};

verus! {

/// The string field `key` of the JSON object that a reply body holds, as `serde_json` reads
/// it; `None` where the body is not JSON or has no such string field.
pub uninterp spec fn json_key_field(body: Seq<u8>) -> Option<Seq<char>>;

/// Relies on `serde_json::from_slice` into a `serde_json::Value`, then `Value::get("key")`
/// and `Value::as_str`: the reply's `key` field where the body is JSON holding a string there.
#[verifier::external_body]
fn reply_key(body: &[u8]) -> (r: Option<String>)
    ensures
        r is Some <==> json_key_field(body@) is Some,
        r matches Some(k) ==> k@ == json_key_field(body@)->0,
{
    match serde_json::from_slice::<serde_json::Value>(body) {
        Ok(v) => match v.get("key") {
            Some(k) => match k.as_str() {
                Some(s) => Some(s.to_string()),
                None => None,
            },
            None => None,
        },
        Err(_) => None,
    }
}

/// The reply is not a JSON object with a string `key`.
#[derive(Debug, Clone, Copy, PartialEq, Eq, Structural)]
pub enum ResponseError {
    MalformedReply,
}

/// The outcome of a successful upload.
pub struct UploadResult {
    /// The key the service returned.
    pub key: String,
    /// The service that holds the upload.
    pub service: Service,
    /// The link to the upload in the service's web view.
    pub url: String,
    /// Whether the payload was sent gzip-compressed.
    pub zipped: bool,
}

/// The result for `key`: the link is the service's view prefix followed by the key.
pub open spec fn result_for(r: UploadResult, key: Seq<char>, service: Service, zipped: bool) -> bool {
    &&& r.key@ == key
    &&& r.service == service
    &&& r.url@ == view_prefix_of(service) + key
    &&& r.zipped == zipped
}

/// Builds the result from the key read off the reply, `None` where there was none.
pub fn interpret_key(key: Option<String>, service: Service, zipped: bool) -> (r: Result<
    UploadResult,
    ResponseError,
>)
    requires
        service != Service::Unset,
    ensures
        match key {
            Some(k) => r matches Ok(u) && result_for(u, k@, service, zipped),
            None => r == Err::<UploadResult, ResponseError>(ResponseError::MalformedReply),
        },
{
    match key {
        Some(k) => {
            let url = String::from_str(service.view_prefix()).concat(k.as_str());
            Ok(UploadResult { key: k, service, url, zipped })
        },
        None => Err(ResponseError::MalformedReply),
    }
}

/// Reads the service's reply body into the result of the upload.
pub fn interpret_response(body: &[u8], service: Service, zipped: bool) -> (r: Result<
    UploadResult,
    ResponseError,
>)
    requires
        service != Service::Unset,
    ensures
        match json_key_field(body@) {
            Some(k) => r matches Ok(u) && result_for(u, k, service, zipped),
            None => r == Err::<UploadResult, ResponseError>(ResponseError::MalformedReply),
        },
{
    interpret_key(reply_key(body), service, zipped)
}

impl UploadResult {
    /// The plain-text report: `File uploaded to ` and the link.
    pub fn render_plain(&self) -> (r: String)
        ensures
            r@ == "File uploaded to "@ + self.url@,
    {
        String::from_str("File uploaded to ").concat(self.url.as_str())
    }
}

} // verus!
