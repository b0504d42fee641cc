//! Address of the remote command service.
use vstd::prelude::*;
use vstd::string::StringExecFns;
use url::Url;
use crate::error::ConnError;

verus! {

/// url's Url, held as an opaque value and handed to the WebSocket client.
#[verifier::external_type_specification]
#[verifier::external_body]
pub struct ExUrl(Url);

/// Whether `url::Url::parse` accepts the text `s` as an absolute URL.
pub uninterp spec fn url_accepts(s: Seq<char>) -> bool;

/// Relies on url::Url::parse: whether it succeeds depends on the text alone.
/// The error is handed back as its text.
#[verifier::external_body]
fn parse_url(s: &str) -> (r: Result<Url, String>)
    ensures
        r is Ok == url_accepts(s@),
{
    match Url::parse(s) {
        Ok(u) => Ok(u),
        Err(e) => Err(e.to_string()),
    }
}

/// Text of the address of the remote service, carrying `token` as its query.
pub open spec fn endpoint_text(token: Seq<char>) -> Seq<char> {
    "ws://127.0.0.1:3000?token="@ + token
}

/// The address to open the remote connection on, for `token`. Fails with a
/// transport error exactly when that text is not a URL.
pub fn remote_endpoint(token: &str) -> (r: Result<Url, ConnError>)
    ensures
        r is Ok == url_accepts(endpoint_text(token@)),
        r is Err ==> r->Err_0 is Transport,
{
    let text = String::from_str("ws://127.0.0.1:3000?token=").concat(token);
    match parse_url(text.as_str()) {
        Ok(u) => Ok(u),
        Err(m) => Err(ConnError::Transport(m)),
    }
}

} // verus!
