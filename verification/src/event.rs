//! Normalization: from a raw payload and its venue/symbol context to the
//! canonical event handed to the bus.

use vstd::prelude::*;
use crate::clock::now_ms;
use crate::error::IngestError;
use crate::json::{json_clone, json_parse, json_parses, json_value_of};
use crate::symbol::{canon_seq, canonical_symbol};

verus! {

/// A canonical event: venue identifier, canonical (uppercased) symbol,
/// UTC timestamp in epoch milliseconds, and the structured payload exactly
/// as received. Immutable after construction.
#[derive(Debug)]
pub struct NormalizedEvent {
    pub venue: String,
    pub symbol: String,
    pub timestamp_ms: i64,
    pub payload: serde_json::Value,
}

impl NormalizedEvent {
    /// A copy equal to the original.
    pub fn duplicate(&self) -> (r: Self)
        ensures
            r == *self,
    {
        NormalizedEvent {
            venue: self.venue.clone(),
            symbol: self.symbol.clone(),
            timestamp_ms: self.timestamp_ms,
            payload: json_clone(&self.payload),
        }
    }
}

/// Build the canonical event from already-extracted parts: the symbol is
/// canonicalized, a missing symbol falls back to the documented default,
/// and a missing event time falls back to the supplied instant.
pub fn event_from_fields(
    venue: &str,
    symbol: Option<String>,
    event_time_ms: Option<i64>,
    fallback_ms: i64,
    payload: serde_json::Value,
) -> (e: NormalizedEvent)
    ensures
        e.venue@ == venue@,
        e.symbol@ == canon_seq(
            match symbol {
                Some(s) => s@,
                None => "unknown"@,
            },
        ),
        e.timestamp_ms == match event_time_ms {
            Some(t) => t,
            None => fallback_ms,
        },
        e.payload == payload,
{
    let sym = match symbol {
        Some(s) => canonical_symbol(s.as_str()),
        None => canonical_symbol("unknown"),
    };
    let ts: i64 = match event_time_ms {
        Some(t) => t,
        None => fallback_ms,
    };
    NormalizedEvent { venue: String::from_str(venue), symbol: sym, timestamp_ms: ts, payload }
}

/// Normalize a raw text payload: parse it as JSON, canonicalize the
/// caller's symbol, keep the parsed payload exactly as received, and
/// stamp the event with the current instant. Fails exactly when the
/// payload is not well-formed JSON.
pub fn normalize(venue: &str, symbol: &str, raw: &str) -> (r: Result<NormalizedEvent, IngestError>)
    ensures
        r is Ok <==> json_parses(raw@),
        r matches Ok(e) ==> e.venue@ == venue@ && e.symbol@ == canon_seq(symbol@) && e.payload
            == json_value_of(raw@),
        r matches Err(err) ==> err is Serde,
{
    match json_parse(raw) {
        Ok(payload) => {
            let ts: i64 = now_ms();
            Ok(event_from_fields(venue, Some(String::from_str(symbol)), None, ts, payload))
        },
        Err(m) => Err(IngestError::Serde(m)),
    }
}

} // verus!
