//! The pure half of the station client: building the full request URL
//! and interpreting an HTTP response. The transport itself lives outside
//! the library and hands status and body in as plain values.

use vstd::prelude::*;
use vstd::string::StringExecFns;
use crate::query::{ObservationArgs, spec_query};
use crate::obs::{ObservationResponse, HistoryResponse};
use crate::codec::{decode_current_body, decode_history_body, spec_decode_response,
    spec_decode_history};
use crate::json::json_of_text;
use crate::Error;

verus! {

/// Options of the HTTP transport: the per-request timeout in
/// milliseconds.
#[derive(Debug, Clone, Copy, PartialEq, Eq, Structural)]
pub struct ClientOpts {
    pub timeout_ms: u64,
}

impl Default for ClientOpts {
    /// The default transport options: a two-second timeout.
    fn default() -> (r: Self)
        ensures
            r.timeout_ms == 2000,
    {
        Self { timeout_ms: 2000 }
    }
}

/// The full URL of an observation request.
pub open spec fn spec_request_url(args: ObservationArgs, key: Seq<char>, sid: Seq<char>) -> Seq<
    char,
> {
    "https://api.weather.com/v2/pws/"@ + spec_query(args, key, sid)
}

/// Build the full URL of an observation request for a station.
pub fn build_request_url(api_key: &str, station_id: &str, args: &ObservationArgs) -> (r: String)
    requires
        args.date matches Some(d) ==> d.wf(),
    ensures
        r@ == spec_request_url(*args, api_key@, station_id@),
{
    let mut url = "https://api.weather.com/v2/pws/".to_owned();
    let q = args.build_query(api_key, station_id);
    url.append(q.as_str());
    url
}

/// Interpret one current-observation response: `204` is a valid empty
/// result; `200` carries a payload that must decode; any other status is
/// an `HttpStatus` error and the body is not read.
pub fn interpret_response(status: u16, body: &str) -> (r: Result<Option<ObservationResponse>, Error>)
    ensures
        status == 204 ==> r matches Ok(None),
        status == 200 ==> match r {
            Ok(Some(x)) => json_of_text(body@) matches Some(j) && spec_decode_response(j) == Some(
                x@,
            ),
            Ok(None) => false,
            Err(e) => e is PayloadInvalid && (match json_of_text(body@) {
                Some(j) => spec_decode_response(j) is None,
                None => true,
            }),
        },
        status != 200 && status != 204 ==> (r matches Err(e) && e == Error::HttpStatus(status)),
{
    if status == 204 {
        return Ok(None);
    }
    if status != 200 {
        return Err(Error::HttpStatus(status));
    }
    match decode_current_body(body) {
        Ok(x) => Ok(Some(x)),
        Err(e) => Err(e),
    }
}

/// Interpret one history response, with the same status conventions.
pub fn interpret_history_response(status: u16, body: &str) -> (r: Result<
    Option<HistoryResponse>,
    Error,
>)
    ensures
        status == 204 ==> r matches Ok(None),
        status == 200 ==> match r {
            Ok(Some(x)) => json_of_text(body@) matches Some(j) && spec_decode_history(j) == Some(
                x@,
            ),
            Ok(None) => false,
            Err(e) => e is PayloadInvalid && (match json_of_text(body@) {
                Some(j) => spec_decode_history(j) is None,
                None => true,
            }),
        },
        status != 200 && status != 204 ==> (r matches Err(e) && e == Error::HttpStatus(status)),
{
    if status == 204 {
        return Ok(None);
    }
    if status != 200 {
        return Err(Error::HttpStatus(status));
    }
    match decode_history_body(body) {
        Ok(x) => Ok(Some(x)),
        Err(e) => Err(e),
    }
}

} // verus!
