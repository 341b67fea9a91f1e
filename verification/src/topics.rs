//! Stream Topic Builder: a pure function from configuration and symbols to
//! the ordered list of wire subscription topics.

use vstd::prelude::*;
use crate::config::VenueConfig;
use crate::symbol::{lower_seq, lower_symbol};
use crate::text::{str_eq, string_views};

verus! {

/// A per-symbol topic: the lowercased symbol, an `@`, and the channel
/// suffix.
pub open spec fn symbol_topic(symbol: Seq<char>, suffix: Seq<char>) -> Seq<char> {
    lower_seq(symbol) + suffix
}

/// The per-symbol topics of one channel, in symbol order.
pub open spec fn channel_topics(symbols: Seq<Seq<char>>, suffix: Seq<char>) -> Seq<Seq<char>> {
    symbols.map_values(|s: Seq<char>| symbol_topic(s, suffix))
}

/// Whether a ticker mode selects the single aggregate topic.
pub open spec fn is_aggregate_mode(mode: Option<String>) -> bool {
    match mode {
        Some(m) => m@ == "!ticker@arr"@,
        None => false,
    }
}

/// The topics the ticker channel contributes.
pub open spec fn ticker_topics(cfg: VenueConfig, symbols: Seq<Seq<char>>) -> Seq<Seq<char>> {
    match cfg.channels.ticker {
        Some(t) => if t.enabled {
            if is_aggregate_mode(t.mode) {
                seq!["!ticker@arr"@]
            } else {
                channel_topics(symbols, "@ticker"@)
            }
        } else {
            Seq::empty()
        },
        None => Seq::empty(),
    }
}

/// The full ordered topic list: trade topics first, then the ticker
/// contribution.
pub open spec fn streams_spec(cfg: VenueConfig, symbols: Seq<Seq<char>>) -> Seq<Seq<char>> {
    let trade = if cfg.channels.trades {
        channel_topics(symbols, "@trade"@)
    } else {
        Seq::empty()
    };
    trade + ticker_topics(cfg, symbols)
}

fn push_channel_topics(out: &mut Vec<String>, symbols: &[String], suffix: &str)
    ensures
        string_views(final(out)@) == string_views(old(out)@) + channel_topics(
            string_views(symbols@),
            suffix@,
        ),
{
    let n: usize = symbols.len();
    let mut i: usize = 0;
    while i < n
        invariant
            n == symbols@.len(),
            i <= n,
            string_views(out@) =~= string_views(old(out)@) + channel_topics(
                string_views(symbols@).take(i as int),
                suffix@,
            ),
        decreases n - i,
    {
        let topic = lower_symbol(symbols[i].as_str()).concat(suffix);
        let ghost prev = out@;
        let ghost tview = topic@;
        out.push(topic);
        proof {
            let sv = string_views(symbols@);
            assert(string_views(out@) =~= string_views(prev).push(tview));
            assert(tview == symbol_topic(sv[i as int], suffix@));
            assert(channel_topics(sv.take(i + 1 as int), suffix@) =~= channel_topics(
                sv.take(i as int),
                suffix@,
            ).push(symbol_topic(sv[i as int], suffix@)));
            assert(string_views(out@) =~= string_views(old(out)@) + channel_topics(
                sv.take(i + 1 as int),
                suffix@,
            ));
        }
        i = i + 1;
    }
    proof {
        assert(string_views(symbols@).take(n as int) =~= string_views(symbols@));
        assert(string_views(out@) =~= string_views(old(out)@) + channel_topics(
            string_views(symbols@),
            suffix@,
        ));
    }
}

/// Build the ordered list of wire subscription topics for a venue: one
/// trade topic per symbol when trades are enabled, and either one ticker
/// topic per symbol or the single aggregate topic when the ticker channel
/// is enabled.
pub fn build_streams(cfg: &VenueConfig, symbols: &[String]) -> (r: Vec<String>)
    ensures
        string_views(r@) == streams_spec(*cfg, string_views(symbols@)),
{
    let mut streams: Vec<String> = Vec::new();
    if cfg.channels.trades {
        push_channel_topics(&mut streams, symbols, "@trade");
    }
    match &cfg.channels.ticker {
        Some(t) => {
            if t.enabled {
                let aggregate = match &t.mode {
                    Some(m) => str_eq(m.as_str(), "!ticker@arr"),
                    None => false,
                };
                if aggregate {
                    streams.push(String::from_str("!ticker@arr"));
                } else {
                    push_channel_topics(&mut streams, symbols, "@ticker");
                }
            }
        },
        None => {},
    }
    proof {
        assert(string_views(streams@) =~= streams_spec(*cfg, string_views(symbols@)));
    }
    streams
}

} // verus!
