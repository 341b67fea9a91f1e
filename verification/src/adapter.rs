//! Venue adapter logic for the streaming venue: subscription-URL
//! composition and demultiplexing of inbound wire frames into canonical
//! events. The socket session itself is a collaborator that feeds text
//! frames to [`frame_events`].

use vstd::prelude::*;
use crate::error::IngestError;
use crate::event::{event_from_fields, NormalizedEvent};
use crate::json::{
    json_array_of, json_as_array, json_as_i64, json_as_str, json_get, json_get_of, json_i64_of,
    json_parse, json_parses, json_str_of, json_value_of,
};
use crate::symbol::{canon_seq, lemma_canonical_idempotent};
use crate::text::{string_views, trim_slashes, trim_trailing_slashes};

verus! {

/// The streaming venue with one concrete adapter. Further venues hang off
/// a registry keyed by venue name, kept by the embedding program.
pub struct BinanceAdapter;

/// The public streaming endpoint used when configuration does not
/// override it.
pub fn default_ws_base() -> (r: &'static str)
    ensures
        r@ == "wss://stream.binance.com:9443/stream"@,
{
    "wss://stream.binance.com:9443/stream"
}

/// The topics joined with `/`, as they appear in a combined-stream URL.
pub open spec fn join_topics(topics: Seq<Seq<char>>) -> Seq<char>
    decreases topics.len(),
{
    if topics.len() == 0 {
        Seq::empty()
    } else if topics.len() == 1 {
        topics[0]
    } else {
        join_topics(topics.drop_last()) + "/"@ + topics.last()
    }
}

/// The subscription URL: a single topic uses the direct per-stream path,
/// several topics use the combined-stream path.
pub open spec fn stream_url_spec(base: Seq<char>, topics: Seq<Seq<char>>) -> Seq<char> {
    if topics.len() == 1 {
        trim_slashes(base) + "/"@ + topics[0]
    } else {
        trim_slashes(base) + "/stream?streams="@ + join_topics(topics)
    }
}

/// Compose the subscription URL for the given topics.
pub fn stream_url(base: &str, topics: &Vec<String>) -> (r: String)
    requires
        topics@.len() >= 1,
    ensures
        r@ == stream_url_spec(base@, string_views(topics@)),
{
    let trimmed = String::from_str(trim_trailing_slashes(base));
    if topics.len() == 1 {
        let r = trimmed.concat("/").concat(topics[0].as_str());
        proof {
            assert(r@ == stream_url_spec(base@, string_views(topics@)));
        }
        r
    } else {
        let mut joined = String::from_str(topics[0].as_str());
        let n: usize = topics.len();
        let mut i: usize = 1;
        while i < n
            invariant
                n == topics@.len(),
                1 <= i <= n,
                joined@ == join_topics(string_views(topics@).take(i as int)),
            decreases n - i,
        {
            joined = joined.concat("/").concat(topics[i].as_str());
            proof {
                let tv = string_views(topics@);
                assert(tv.take(i + 1 as int).drop_last() =~= tv.take(i as int));
                assert(tv.take(i + 1 as int).last() == tv[i as int]);
            }
            i = i + 1;
        }
        proof {
            assert(string_views(topics@).take(n as int) =~= string_views(topics@));
        }
        trimmed.concat("/stream?streams=").concat(joined.as_str())
    }
}

/// The payload objects one decoded frame contributes: the `data` field
/// when present, its elements when it is an array, the whole frame
/// otherwise.
pub open spec fn frame_payloads_spec(v: serde_json::Value) -> Seq<serde_json::Value> {
    match json_get_of(v, "data"@) {
        Some(data) => match json_array_of(data) {
            Some(arr) => arr,
            None => seq![data],
        },
        None => seq![v],
    }
}

/// The symbol a payload object carries: its `s` field when that is a
/// string, the documented `unknown` default otherwise.
pub open spec fn payload_symbol(p: serde_json::Value) -> Seq<char> {
    match json_get_of(p, "s"@) {
        Some(sv) => match json_str_of(sv) {
            Some(sym) => sym,
            None => "unknown"@,
        },
        None => "unknown"@,
    }
}

/// The event time a payload object carries: its `E` field when that is an
/// integer, the supplied fallback instant otherwise.
pub open spec fn payload_time(p: serde_json::Value, fallback_ms: i64) -> i64 {
    match json_get_of(p, "E"@) {
        Some(tv) => match json_i64_of(tv) {
            Some(t) => t,
            None => fallback_ms,
        },
        None => fallback_ms,
    }
}

/// The one event a payload object yields: venue stamped, symbol the
/// canonical form of the payload's symbol, timestamp the payload's event
/// time, and the payload itself carried unchanged.
pub open spec fn event_spec(
    venue: Seq<char>,
    p: serde_json::Value,
    fallback_ms: i64,
    e: NormalizedEvent,
) -> bool {
    &&& e.venue@ == venue
    &&& e.symbol@ == canon_seq(payload_symbol(p))
    &&& e.timestamp_ms == payload_time(p, fallback_ms)
    &&& e.payload == p
}

/// Split one decoded frame into its payload objects: a combined-stream
/// envelope contributes its `data` field, an aggregate envelope every
/// element of its `data` array, and a bare frame is its own payload.
fn frame_payloads(value: serde_json::Value) -> (r: Vec<serde_json::Value>)
    ensures
        r@ == frame_payloads_spec(value),
{
    match json_get(&value, "data") {
        Some(data) => match json_as_array(&data) {
            Some(arr) => arr,
            None => {
                let ghost dv = data;
                let mut one: Vec<serde_json::Value> = Vec::new();
                one.push(data);
                proof {
                    assert(one@ =~= seq![dv]);
                }
                one
            },
        },
        None => {
            let ghost vv = value;
            let mut one: Vec<serde_json::Value> = Vec::new();
            one.push(value);
            proof {
                assert(one@ =~= seq![vv]);
            }
            one
        },
    }
}

/// Build the event for one payload object: its symbol field when it is a
/// string (the `unknown` default otherwise), its event-time field when it
/// is an integer (the supplied fallback instant otherwise). The payload
/// itself is carried into the event unchanged.
fn payload_event(venue: &str, payload: serde_json::Value, fallback_ms: i64) -> (e: NormalizedEvent)
    ensures
        event_spec(venue@, payload, fallback_ms, e),
{
    let symbol = match json_get(&payload, "s") {
        Some(sv) => json_as_str(&sv),
        None => None,
    };
    let event_time = match json_get(&payload, "E") {
        Some(tv) => json_as_i64(&tv),
        None => None,
    };
    proof {
        assert(match symbol {
            Some(sym) => sym@ == payload_symbol(payload),
            None => payload_symbol(payload) == "unknown"@,
        });
        assert(match event_time {
            Some(t) => t == payload_time(payload, fallback_ms),
            None => payload_time(payload, fallback_ms) == fallback_ms,
        });
    }
    event_from_fields(venue, symbol, event_time, fallback_ms, payload)
}

/// Turn a list of payload objects into canonical events: exactly one
/// event per payload, in payload order, each built as [`event_spec`]
/// says — venue stamped, canonicalized symbol with the `unknown` default,
/// the payload's event time with the supplied fallback, and the payload
/// carried unchanged.
pub fn events_from_payloads(
    venue: &str,
    payloads: Vec<serde_json::Value>,
    fallback_ms: i64,
) -> (r: Vec<NormalizedEvent>)
    ensures
        r@.len() == payloads@.len(),
        forall|i: int|
            0 <= i < r@.len() ==> #[trigger] event_spec(venue@, payloads@[i], fallback_ms, r@[i]),
{
    let ghost all = payloads@;
    let mut rest = payloads;
    let mut events: Vec<NormalizedEvent> = Vec::new();
    while rest.len() > 0
        invariant
            events@.len() + rest@.len() == all.len(),
            rest@ =~= all.skip(events@.len() as int),
            forall|i: int|
                0 <= i < events@.len() ==> #[trigger] event_spec(
                    venue@,
                    all[i],
                    fallback_ms,
                    events@[i],
                ),
        decreases rest@.len(),
    {
        let ghost k = events@.len() as int;
        let payload = rest.remove(0);
        proof {
            assert(payload == all[k]);
        }
        let e = payload_event(venue, payload, fallback_ms);
        let ghost prev = events@;
        events.push(e);
        proof {
            assert(rest@ =~= all.skip(events@.len() as int));
            assert forall|i: int|
                0 <= i < events@.len() implies #[trigger] event_spec(
                venue@,
                all[i],
                fallback_ms,
                events@[i],
            ) by {
                if i < k {
                    assert(events@[i] == prev[i]);
                    assert(event_spec(venue@, all[i], fallback_ms, prev[i]));
                } else {
                    assert(events@[i] == e);
                }
            }
        }
    }
    events
}

/// Demultiplex one inbound text frame into canonical events, all stamped
/// with this venue and each with its own canonicalized symbol. Fails
/// exactly when the frame is not well-formed JSON; such a decode failure
/// is fatal to the adapter's session.
pub fn frame_events(venue: &str, text: &str, fallback_ms: i64) -> (r: Result<
    Vec<NormalizedEvent>,
    IngestError,
>)
    ensures
        r is Ok <==> json_parses(text@),
        r matches Err(err) ==> err is Serde,
        r matches Ok(events) ==> ({
            let payloads = frame_payloads_spec(json_value_of(text@));
            &&& events@.len() == payloads.len()
            &&& forall|i: int|
                0 <= i < events@.len() ==> #[trigger] event_spec(
                    venue@,
                    payloads[i],
                    fallback_ms,
                    events@[i],
                )
        }),
        r matches Ok(events) ==> forall|i: int|
            0 <= i < events@.len() ==> events@[i].venue@ == venue@ && canon_seq(
                events@[i].symbol@,
            ) == events@[i].symbol@,
{
    match json_parse(text) {
        Ok(value) => {
            let ghost frame = value;
            let payloads = frame_payloads(value);
            let ghost pv = payloads@;
            let events = events_from_payloads(venue, payloads, fallback_ms);
            proof {
                assert(pv == frame_payloads_spec(json_value_of(text@)));
                assert forall|i: int|
                    0 <= i < events@.len() implies events@[i].venue@ == venue@ && canon_seq(
                    events@[i].symbol@,
                ) == events@[i].symbol@ by {
                    assert(event_spec(venue@, pv[i], fallback_ms, events@[i]));
                    lemma_canonical_idempotent(payload_symbol(pv[i]));
                }
            }
            Ok(events)
        },
        Err(m) => Err(IngestError::Serde(m)),
    }
}

} // verus!
