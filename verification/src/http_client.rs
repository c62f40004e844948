//! Plain HTTP requests: what is sent and how answers are read.
use vstd::prelude::*;

use crate::clock::Duration;
use crate::handshake_request;
use crate::net_error::HttpError;

verus! {

/// Sizes of the runtime that requests are made on.
#[derive(Clone, Copy, Debug, PartialEq, Eq, Structural)]
pub struct CommonEngine {
    /// Tasks that may wait.
    pub task_capacity: usize,
    /// Callbacks that may wait.
    pub callback_capacity: usize,
}

/// An HTTP client.
#[derive(Clone, Copy, Debug, PartialEq, Eq, Structural)]
pub struct HttpClient {
    /// The runtime that requests are made on.
    pub fewf: CommonEngine,
}

impl HttpClient {
    /// A client with a runtime of its own.
    pub fn new() -> (client: Self)
        ensures
            client == (HttpClient {
                fewf: CommonEngine { task_capacity: 512, callback_capacity: 128 },
            }),
    {
        HttpClient { fewf: CommonEngine { task_capacity: 512, callback_capacity: 128 } }
    }

    /// Does nothing yet.
    pub fn task(&self) {
    }
}

/// Calls `reqwest::header::HeaderValue::try_from` and tells whether it accepts
/// the text, which it does unless a byte is a control character other than the
/// tab.
#[verifier::external_body]
fn value_is_accepted(value: String) -> (accepted: bool)
    ensures
        accepted == handshake_request::is_header_value(value@),
{
    reqwest::header::HeaderValue::try_from(value).is_ok()
}

/// Whether every value can be sent.
pub open spec fn values_usable(headers: Seq<(String, String)>) -> bool {
    forall|i: int|
        0 <= i < headers.len() ==> handshake_request::is_header_value((#[trigger] headers[i]).1@)
}

/// How requests are made.
#[derive(Clone, Copy, Debug, PartialEq, Eq, Structural)]
pub struct HttpWrapper {
    /// How long a request may take.
    pub time_out: Duration,
}

impl HttpWrapper {
    /// Checks the headers of a request that is about to be sent. One value that
    /// cannot be sent fails the request.
    pub fn post(&self, headers: &Vec<(String, String)>) -> (result: Result<(), HttpError>)
        ensures
            result == if values_usable(headers@) {
                Ok::<(), HttpError>(())
            } else {
                Err::<(), HttpError>(HttpError::RequestFailed)
            },
    {
        let mut i: usize = 0;
        while i < headers.len()
            invariant
                i <= headers@.len(),
                forall|j: int|
                    0 <= j < i ==> handshake_request::is_header_value((#[trigger] headers@[j]).1@),
            decreases headers@.len() - i,
        {
            if !value_is_accepted(headers[i].1.clone()) {
                assert(!handshake_request::is_header_value(headers@[i as int].1@));
                return Err(HttpError::RequestFailed);
            }
            i = i + 1;
        }
        Ok(())
    }
}

/// The result of a request that could not be sent.
pub fn print_error(timed_out: bool) -> (result: Result<(u16, String), HttpError>)
    ensures
        result == Err::<(u16, String), HttpError>(
            if timed_out {
                HttpError::RequestTimeout
            } else {
                HttpError::RequestFailed
            },
        ),
{
    if timed_out {
        Err(HttpError::RequestTimeout)
    } else {
        Err(HttpError::RequestFailed)
    }
}

/// The result of a request that was answered. Only the status 200 is a
/// success; a body that could not be read is replaced by a notice.
pub fn unwrap_resp(code: u16, body: Option<String>) -> (result: Result<(u16, String), HttpError>)
    ensures
        match result {
            Ok((status, text)) => {
                &&& code == 200
                &&& status == 200
                &&& text@ == match body {
                    Some(read) => read@,
                    None => "no response!"@,
                }
            },
            Err(error) => code != 200 && error is RequestFailed,
        },
{
    let text = match body {
        Some(text) => text,
        None => "no response!".to_owned(),
    };
    if code != 200 {
        Err(HttpError::RequestFailed)
    } else {
        Ok((code, text))
    }
}

} // verus!
