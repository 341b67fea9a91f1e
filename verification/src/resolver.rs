//! Symbol Universe Resolver: from configuration to the effective
//! tradable-symbol set, either an explicit list or REST discovery plus
//! filters.

use vstd::prelude::*;
use crate::config::VenueConfig;
use crate::error::IngestError;
use crate::json::{
    json_array_of, json_as_array, json_as_str, json_get, json_get_of, json_parse, json_parses,
    json_str_of, json_value_of,
};
use crate::text::{dec_str, push_decimal, str_eq, string_views, trim_slashes, trim_trailing_slashes};

verus! {

/// One entry of the venue's exchange-information listing, reduced to the
/// fields the resolver reads.
#[derive(Clone, Debug)]
pub struct ExchangeEntry {
    pub symbol: String,
    pub quote_asset: String,
    pub status: String,
}

/// Whether the discovery filter keeps an entry: its status must equal the
/// trading marker, its quote asset must be whitelisted when a non-empty
/// whitelist is configured, and its symbol must not be blacklisted.
pub open spec fn entry_kept(
    e: ExchangeEntry,
    whitelist: Seq<Seq<char>>,
    blacklist: Seq<Seq<char>>,
) -> bool {
    &&& e.status@ == "TRADING"@
    &&& (whitelist.len() == 0 || whitelist.contains(e.quote_asset@))
    &&& !blacklist.contains(e.symbol@)
}

/// The symbols of the entries the filter keeps, in source order.
pub open spec fn surviving_symbols(
    entries: Seq<ExchangeEntry>,
    whitelist: Seq<Seq<char>>,
    blacklist: Seq<Seq<char>>,
) -> Seq<Seq<char>>
    decreases entries.len(),
{
    if entries.len() == 0 {
        Seq::empty()
    } else {
        let pre = surviving_symbols(entries.drop_last(), whitelist, blacklist);
        if entry_kept(entries.last(), whitelist, blacklist) {
            pre.push(entries.last().symbol@)
        } else {
            pre
        }
    }
}

/// Whether a string list holds the given string.
pub fn contains_str(list: &Vec<String>, x: &str) -> (r: bool)
    ensures
        r == string_views(list@).contains(x@),
{
    let n: usize = list.len();
    let mut i: usize = 0;
    while i < n
        invariant
            n == list@.len(),
            i <= n,
            forall|j: int| 0 <= j < i ==> string_views(list@)[j] != x@,
        decreases n - i,
    {
        if str_eq(list[i].as_str(), x) {
            proof {
                assert(string_views(list@)[i as int] == x@);
            }
            return true;
        }
        i = i + 1;
    }
    proof {
        assert(forall|j: int| 0 <= j < string_views(list@).len() ==> string_views(list@)[j] != x@);
    }
    false
}

/// Apply the discovery filter: keep entries whose status equals the
/// trading marker, restrict to whitelisted quote assets when the whitelist
/// is non-empty, drop blacklisted symbols, and preserve source order among
/// survivors.
pub fn filter_symbols(
    entries: &Vec<ExchangeEntry>,
    quote_whitelist: &Vec<String>,
    symbol_blacklist: &Vec<String>,
) -> (r: Vec<String>)
    ensures
        string_views(r@) == surviving_symbols(
            entries@,
            string_views(quote_whitelist@),
            string_views(symbol_blacklist@),
        ),
{
    let ghost wl = string_views(quote_whitelist@);
    let ghost bl = string_views(symbol_blacklist@);
    let mut out: Vec<String> = Vec::new();
    let n: usize = entries.len();
    let mut i: usize = 0;
    while i < n
        invariant
            n == entries@.len(),
            i <= n,
            wl == string_views(quote_whitelist@),
            bl == string_views(symbol_blacklist@),
            string_views(out@) =~= surviving_symbols(entries@.take(i as int), wl, bl),
        decreases n - i,
    {
        let e = &entries[i];
        let status_trading = str_eq(e.status.as_str(), "TRADING");
        let quote_ok = quote_whitelist.len() == 0 || contains_str(quote_whitelist, e.quote_asset.as_str());
        let not_blacklisted = !contains_str(symbol_blacklist, e.symbol.as_str());
        let ghost prev = out@;
        if status_trading && quote_ok && not_blacklisted {
            out.push(e.symbol.clone());
            proof {
                assert(string_views(out@) =~= string_views(prev).push(entries@[i as int].symbol@));
            }
        }
        proof {
            assert(entries@.take(i + 1 as int).drop_last() =~= entries@.take(i as int));
            assert(entries@.take(i + 1 as int).last() == entries@[i as int]);
            assert(string_views(out@) =~= surviving_symbols(entries@.take(i + 1 as int), wl, bl));
        }
        i = i + 1;
    }
    proof {
        assert(entries@.take(n as int) =~= entries@);
    }
    out
}

/// Whether the venue's configuration enables REST discovery.
pub open spec fn discovery_enabled(cfg: VenueConfig) -> bool {
    match cfg.discovery {
        Some(d) => d.enabled,
        None => false,
    }
}

/// The discovery endpoint for a REST base URL.
pub open spec fn discovery_url_spec(base: Seq<char>) -> Seq<char> {
    trim_slashes(base) + "/exchangeInfo"@
}

/// Compose the discovery endpoint URL from the configured REST base.
pub fn discovery_url(base: &str) -> (r: String)
    ensures
        r@ == discovery_url_spec(base@),
{
    String::from_str(trim_trailing_slashes(base)).concat("/exchangeInfo")
}

/// Whether an HTTP status is a success for discovery purposes.
pub open spec fn status_ok(status: u16) -> bool {
    200 <= status < 300
}

/// The message of the error raised for a failed discovery response: it
/// carries the full request URL and the numeric status.
pub open spec fn status_error_message(url: Seq<char>, status: u16) -> Seq<char> {
    "request to "@ + url + " failed with status "@ + dec_str(status as nat)
}

/// Accept a discovery response status, or raise the typed error whose
/// message names the request URL and the numeric status. Succeeds exactly
/// on 2xx statuses.
pub fn check_status(url: &str, status: u16) -> (r: Result<(), IngestError>)
    ensures
        r is Ok <==> status_ok(status),
        r matches Err(e) ==> e matches IngestError::Validation(m) && m@ == status_error_message(
            url@,
            status,
        ),
{
    if 200 <= status && status < 300 {
        Ok(())
    } else {
        let mut msg = String::from_str("request to ").concat(url).concat(" failed with status ");
        push_decimal(&mut msg, status);
        Err(IngestError::Validation(msg))
    }
}

/// The characters a string field of an entry object holds: empty when the
/// key is missing or the member is not a string.
pub open spec fn entry_field(item: serde_json::Value, key: Seq<char>) -> Seq<char> {
    match json_get_of(item, key) {
        Some(x) => match json_str_of(x) {
            Some(sv) => sv,
            None => Seq::empty(),
        },
        None => Seq::empty(),
    }
}

/// One decoded entry corresponds to one object of the `symbols` array:
/// each field equals that object's string member.
pub open spec fn entry_matches(item: serde_json::Value, e: ExchangeEntry) -> bool {
    &&& e.symbol@ == entry_field(item, "symbol"@)
    &&& e.quote_asset@ == entry_field(item, "quoteAsset"@)
    &&& e.status@ == entry_field(item, "status"@)
}

/// The objects of a discovery body's `symbols` array; none when the body
/// has no `symbols` member or it is not an array.
pub open spec fn exchange_items(body: Seq<char>) -> Seq<serde_json::Value> {
    match json_get_of(json_value_of(body), "symbols"@) {
        Some(sv) => match json_array_of(sv) {
            Some(arr) => arr,
            None => Seq::empty(),
        },
        None => Seq::empty(),
    }
}

fn entry_str_field(item: &serde_json::Value, key: &str) -> (r: String)
    ensures
        r@ == entry_field(*item, key@),
{
    match json_get(item, key) {
        Some(x) => match json_as_str(&x) {
            Some(sv) => sv,
            None => String::new(),
        },
        None => String::new(),
    }
}

/// Decode a discovery response body into the entries the filter reads:
/// one entry per object of the `symbols` array, in source order, each
/// reduced to its symbol, quote asset and status (empty when missing or
/// non-string). Fails exactly when the body is not well-formed JSON, with
/// a message that names the request URL; a body without a `symbols` array
/// yields no entries.
pub fn parse_exchange_info(url: &str, body: &str) -> (r: Result<Vec<ExchangeEntry>, IngestError>)
    ensures
        r is Ok <==> json_parses(body@),
        r matches Ok(entries) ==> entries@.len() == exchange_items(body@).len(),
        r matches Ok(entries) ==> forall|i: int|
            0 <= i < entries@.len() ==> #[trigger] entry_matches(
                exchange_items(body@)[i],
                entries@[i],
            ),
        r matches Err(e) ==> (e matches IngestError::Validation(m) && (exists|tail: Seq<char>|
            m@ == url@ + ": "@ + tail)),
{
    match json_parse(body) {
        Err(msg) => {
            let m = String::from_str(url).concat(": ").concat(msg.as_str());
            proof {
                assert(m@ == url@ + ": "@ + msg@);
            }
            Err(IngestError::Validation(m))
        },
        Ok(value) => {
            let ghost items = exchange_items(body@);
            let mut entries: Vec<ExchangeEntry> = Vec::new();
            match json_get(&value, "symbols") {
                Some(sv) => match json_as_array(&sv) {
                    Some(arr) => {
                        proof {
                            assert(arr@ == items);
                        }
                        let ghost all = arr@;
                        let mut rest = arr;
                        while rest.len() > 0
                            invariant
                                entries@.len() + rest@.len() == all.len(),
                                rest@ =~= all.skip(entries@.len() as int),
                                forall|i: int|
                                    0 <= i < entries@.len() ==> #[trigger] entry_matches(
                                        all[i],
                                        entries@[i],
                                    ),
                            decreases rest@.len(),
                        {
                            let ghost k = entries@.len() as int;
                            let item = rest.remove(0);
                            proof {
                                assert(item == all[k]);
                            }
                            let symbol = entry_str_field(&item, "symbol");
                            let quote_asset = entry_str_field(&item, "quoteAsset");
                            let status = entry_str_field(&item, "status");
                            let entry = ExchangeEntry { symbol, quote_asset, status };
                            let ghost prev = entries@;
                            entries.push(entry);
                            proof {
                                assert(rest@ =~= all.skip(entries@.len() as int));
                                assert forall|i: int|
                                    0 <= i < entries@.len() implies #[trigger] entry_matches(
                                    all[i],
                                    entries@[i],
                                ) by {
                                    if i < k {
                                        assert(entries@[i] == prev[i]);
                                        assert(entry_matches(all[i], prev[i]));
                                    } else {
                                        assert(entries@[i] == entry);
                                    }
                                }
                            }
                        }
                    },
                    None => {
                        proof {
                            assert(items.len() == 0);
                        }
                    },
                },
                None => {
                    proof {
                        assert(items.len() == 0);
                    }
                },
            }
            Ok(entries)
        },
    }
}

/// Whether some source entry that the filter keeps carries this symbol.
pub open spec fn kept_entry_has_symbol(
    entries: Seq<ExchangeEntry>,
    whitelist: Seq<Seq<char>>,
    blacklist: Seq<Seq<char>>,
    sym: Seq<char>,
) -> bool {
    exists|j: int|
        0 <= j < entries.len() && #[trigger] entry_kept(entries[j], whitelist, blacklist)
            && entries[j].symbol@ == sym
}

/// The discovery filter keeps only trading entries: every surviving
/// symbol comes from some source entry whose status equals the trading
/// marker, whose quote asset passes the whitelist, and whose symbol is
/// not blacklisted.
pub proof fn lemma_surviving_symbols_sound(
    entries: Seq<ExchangeEntry>,
    whitelist: Seq<Seq<char>>,
    blacklist: Seq<Seq<char>>,
)
    ensures
        forall|i: int|
            0 <= i < surviving_symbols(entries, whitelist, blacklist).len()
                ==> kept_entry_has_symbol(
                entries,
                whitelist,
                blacklist,
                #[trigger] surviving_symbols(entries, whitelist, blacklist)[i],
            ),
    decreases entries.len(),
{
    if entries.len() > 0 {
        lemma_surviving_symbols_sound(entries.drop_last(), whitelist, blacklist);
        let shorter = entries.drop_last();
        let pre = surviving_symbols(shorter, whitelist, blacklist);
        let full = surviving_symbols(entries, whitelist, blacklist);
        assert forall|i: int| 0 <= i < full.len() implies kept_entry_has_symbol(
            entries,
            whitelist,
            blacklist,
            full[i],
        ) by {
            if i < pre.len() {
                assert(kept_entry_has_symbol(shorter, whitelist, blacklist, pre[i]));
                let j = choose|j: int|
                    0 <= j < shorter.len() && #[trigger] entry_kept(
                        shorter[j],
                        whitelist,
                        blacklist,
                    ) && shorter[j].symbol@ == pre[i];
                assert(shorter[j] == entries[j]);
                assert(entry_kept(entries[j], whitelist, blacklist));
                assert(entries[j].symbol@ == full[i]);
            } else {
                let j = entries.len() - 1;
                assert(entry_kept(entries[j], whitelist, blacklist));
                assert(entries[j].symbol@ == full[i]);
            }
        }
    }
}

/// What the resolver decides/// What the resolver decides/// What the resolver decides without touching the network: either the
/// symbol set itself, or the discovery URL that must be fetched.
#[derive(Debug)]
pub enum Resolution {
    /// The effective symbol set is already known.
    Resolved(Vec<String>),
    /// Discovery must fetch this URL; its response is handed back to
    /// [`crate::resolver::filter_symbols`] after decoding.
    Discover(String),
}

/// Copy a list of strings.
pub fn clone_strings(v: &Vec<String>) -> (r: Vec<String>)
    ensures
        string_views(r@) == string_views(v@),
{
    let n: usize = v.len();
    let mut out: Vec<String> = Vec::new();
    let mut i: usize = 0;
    while i < n
        invariant
            n == v@.len(),
            i <= n,
            string_views(out@) =~= string_views(v@).take(i as int),
        decreases n - i,
    {
        let ghost prev = out@;
        out.push(v[i].clone());
        proof {
            assert(string_views(out@) =~= string_views(prev).push(v@[i as int]@));
            assert(string_views(out@) =~= string_views(v@).take(i + 1 as int));
        }
        i = i + 1;
    }
    proof {
        assert(string_views(v@).take(n as int) =~= string_views(v@));
    }
    out
}

/// Decide how the symbol universe is obtained. An explicit non-empty
/// symbol list wins outright; otherwise, with discovery disabled, the set
/// is empty; otherwise discovery requires a REST base URL and resolves to
/// its discovery endpoint.
pub fn resolve_plan(cfg: &VenueConfig) -> (r: Result<Resolution, IngestError>)
    ensures
        cfg.symbols@.len() > 0 ==> (r matches Ok(Resolution::Resolved(v)) && string_views(v@)
            == string_views(cfg.symbols@)),
        cfg.symbols@.len() == 0 && !discovery_enabled(*cfg) ==> (r matches Ok(
            Resolution::Resolved(v),
        ) && v@.len() == 0),
        cfg.symbols@.len() == 0 && discovery_enabled(*cfg) && cfg.rest_base is None ==> (r matches
            Err(e) && e matches IngestError::Validation(m) && m@ == "rest_base required"@),
        cfg.symbols@.len() == 0 && discovery_enabled(*cfg) ==> (cfg.rest_base matches Some(b)
            ==> (r matches Ok(Resolution::Discover(u)) && u@ == discovery_url_spec(b@))),
{
    if cfg.symbols.len() > 0 {
        return Ok(Resolution::Resolved(clone_strings(&cfg.symbols)));
    }
    let enabled = match &cfg.discovery {
        Some(d) => d.enabled,
        None => false,
    };
    if !enabled {
        return Ok(Resolution::Resolved(Vec::new()));
    }
    match &cfg.rest_base {
        Some(base) => Ok(Resolution::Discover(discovery_url(base.as_str()))),
        None => Err(IngestError::Validation(String::from_str("rest_base required"))),
    }
}

} // verus!
