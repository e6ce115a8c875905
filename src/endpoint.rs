use vstd::prelude::*;

use crate::error::MeaError;

verus! {

/// The Socket.IO endpoint of the instrument, WebSocket transport only.
pub const MEA_SERVER_URL: &'static str = "wss://livemeaservice2.alpvision.com/socket.io/?EIO=4&transport=websocket";

#[verifier::external_type_specification]
#[verifier::external_body]
pub struct ExUrl(url::Url);

#[verifier::external_type_specification]
#[verifier::external_body]
pub struct ExUrlParseError(url::ParseError);

/// Whether `s` is an absolute URL that the `url` crate accepts.
pub uninterp spec fn url_parses(s: Seq<char>) -> bool;

/// Relies on `url::Url::parse`: it fails or succeeds according to the input
/// text alone.
pub assume_specification[ url::Url::parse ](input: &str) -> (r: Result<url::Url, url::ParseError>)
    ensures
        r is Ok <==> url_parses(input@),
;

/// The parsed server endpoint; a parse failure is reported as a connection error.
pub fn server_url() -> (r: Result<url::Url, MeaError>)
    ensures
        r is Ok <==> url_parses(MEA_SERVER_URL@),
        r is Err ==> r->Err_0 is Connection,
{
    match url::Url::parse(MEA_SERVER_URL) {
        Ok(u) => Ok(u),
        Err(_) => Err(MeaError::Connection { reason: String::from_str("the server endpoint is not a valid URL") }),
    }
}

} // verus!
