//! A realtime NDJSON streaming library: a record encoder that frames one
//! serialized value per newline-delimited record, and an adapter that turns a
//! poll-based sequence of encode results into the chunked byte stream of an
//! HTTP response body.

pub mod body;
pub mod chunk;
pub mod record;
