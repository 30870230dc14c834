//! Client library for the Wave music-search API: the search and thumbnail
//! endpoints, the decoding of a search response, and the rendering of a result.
//!
//! The library holds every decision of a request round trip: which address is
//! asked for, which status counts as success, and how a response body becomes
//! a list of music items. Sending the request is left to the caller.

mod json;
mod music;
mod client;

pub use json::{Json, JsonNumber, find_member, json_document, lookup};
pub use music::{
    MusicView, WaveMusic, count_field, decode_items, decode_search, encode_search, encodes,
    encodes_item, encodes_text, field_present, item_keys, item_of, items_of, lemma_decode_encoded,
    lemma_empty_items, lemma_missing_items, lemma_round_trip, member_present, or_empty,
    response_items, search_result, text_field, text_view, views,
};
pub use client::{
    ClientError, SEARCH_BASE, THUMBNAIL_BASE, check_status, is_success, outcome_is, parse_search,
    parse_search_result, read_document, search_outcome, search_url, search_url_text,
    thumbnail_url_text,
};
