//! The two endpoints of the Wave API and what a client decides around a
//! request: the address asked for, and the response it accepts.

use vstd::prelude::*;
use vstd::string::StringExecFns;
use crate::json::{Json, json_document, parse_document};
use crate::music::{MusicView, WaveMusic, search_result, decode_search, views};

verus! {

/// Why a request to the Wave API gave no result.
#[derive(Debug, Clone, Copy, PartialEq, Eq, Structural)]
pub enum ClientError {
    /// The request did not reach the server or got no response.
    Transport,
    /// The server answered with a status outside the success range.
    HttpStatus(u16),
    /// The body of a search response is no JSON or not of the expected shape.
    Decode,
    /// A thumbnail was asked for an item that has no identifier.
    MissingId,
}

/// The search endpoint; the query follows it as it is, without escaping.
pub const SEARCH_BASE: &'static str = "https://api.wireway.ch/wave/ytmusicsearch?q=";

/// The thumbnail endpoint; an item's identifier follows it.
pub const THUMBNAIL_BASE: &'static str = "https://api.wireway.ch/wave/thumbnail/";

/// A status in the success range.
pub open spec fn is_success(code: u16) -> bool {
    200 <= code < 300
}

pub open spec fn search_url_text(q: Seq<char>) -> Seq<char> {
    SEARCH_BASE@ + q
}

pub open spec fn thumbnail_url_text(id: Seq<char>) -> Seq<char> {
    THUMBNAIL_BASE@ + id
}

/// What a search response body gives: its items, or the decode error where
/// it is no JSON or not of the expected shape.
pub open spec fn parse_search_result(body: Seq<char>) -> Result<Seq<MusicView>, ClientError> {
    match json_document(body) {
        Some(doc) => match search_result(doc) {
            Some(v) => Ok(v),
            None => Err(ClientError::Decode),
        },
        None => Err(ClientError::Decode),
    }
}

/// The result `r` holds what `expected` says, items by their views.
pub open spec fn outcome_is(
    r: Result<Vec<WaveMusic>, ClientError>,
    expected: Result<Seq<MusicView>, ClientError>,
) -> bool {
    match expected {
        Ok(v) => r is Ok && views(r->Ok_0@) == v,
        Err(e) => r == Err::<Vec<WaveMusic>, ClientError>(e),
    }
}

/// The address that a search for `q` asks.
pub fn search_url(q: &str) -> (r: String)
    ensures
        r@ == search_url_text(q@),
{
    let mut url = String::from_str(SEARCH_BASE);
    url.append(q);
    url
}

/// Accepts a status in the success range; any other is an error that
/// carries it.
pub fn check_status(code: u16) -> (r: Result<(), ClientError>)
    ensures
        is_success(code) ==> r is Ok,
        !is_success(code) ==> r == Err::<(), ClientError>(ClientError::HttpStatus(code)),
{
    if 200 <= code && code < 300 {
        Ok(())
    } else {
        Err(ClientError::HttpStatus(code))
    }
}

/// Reads a response body as a JSON document; a text that is no JSON is a
/// decode error.
pub fn read_document(body: &str) -> (r: Result<Json, ClientError>)
    ensures
        match json_document(body@) {
            Some(doc) => r == Ok::<Json, ClientError>(doc),
            None => r == Err::<Json, ClientError>(ClientError::Decode),
        },
{
    match parse_document(body) {
        Some(doc) => Ok(doc),
        None => Err(ClientError::Decode),
    }
}

/// Reads the items of a search response body.
pub fn parse_search(body: &str) -> (r: Result<Vec<WaveMusic>, ClientError>)
    ensures
        outcome_is(r, parse_search_result(body@)),
{
    match read_document(body) {
        Ok(doc) => decode_search(&doc),
        Err(e) => Err(e),
    }
}

/// What a search gives once the server has answered with `status` and
/// `body`: the body is read only under a success status.
pub fn search_outcome(status: u16, body: &str) -> (r: Result<Vec<WaveMusic>, ClientError>)
    ensures
        is_success(status) ==> outcome_is(r, parse_search_result(body@)),
        !is_success(status) ==> r == Err::<Vec<WaveMusic>, ClientError>(
            ClientError::HttpStatus(status),
        ),
{
    match check_status(status) {
        Ok(()) => parse_search(body),
        Err(e) => Err(e),
    }
}

impl WaveMusic {
    /// The address of the item's thumbnail. Without an identifier, or with
    /// an empty one, there is none, and nothing is to be requested.
    pub fn thumbnail_url(&self) -> (r: Result<String, ClientError>)
        ensures
            match self@.id {
                Some(id) if id.len() > 0 => r is Ok && r->Ok_0@ == thumbnail_url_text(id),
                _ => r == Err::<String, ClientError>(ClientError::MissingId),
            },
    {
        match &self.id {
            Some(id) if !id.as_str().is_empty() => {
                let mut url = String::from_str(THUMBNAIL_BASE);
                url.append(id.as_str());
                Ok(url)
            },
            _ => Err(ClientError::MissingId),
        }
    }
}

} // verus!
