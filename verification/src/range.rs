//! The range query shared by single-series and multi-series range reads:
//! time bounds with their sentinel tokens, an optional count cap, an
//! optional value filter, optional alignment, and an optional aggregation
//! block. One encoder serves range, reverse-range and their multi-series
//! forms, so the two query shapes can never drift apart.

use vstd::prelude::*;

use crate::aggregation::{TsAggregationType, spec_agg_bucket, spec_agg_tokens};
use crate::wire::{dec_str, push_owned, push_tok, token_views, u64_to_dec};

verus! {

/// A time bound: a concrete timestamp, or the store's sentinel for the
/// earliest (`-`) or latest (`+`) sample.
#[derive(Clone, Copy, Debug, PartialEq, Eq, Structural)]
pub enum TsTimeBound {
    Earliest,
    Latest,
    Value(u64),
}

/// The alignment of aggregation buckets: the start or end of the queried
/// range, or a concrete timestamp.
#[derive(Clone, Copy, Debug, PartialEq, Eq, Structural)]
pub enum TsAlign {
    Start,
    End,
    Timestamp(u64),
}

/// The wire token of a time bound.
pub open spec fn spec_bound_token(b: TsTimeBound) -> Seq<char> {
    match b {
        TsTimeBound::Earliest => "-"@,
        TsTimeBound::Latest => "+"@,
        TsTimeBound::Value(t) => dec_str(t as nat),
    }
}

/// The wire token of an alignment.
pub open spec fn spec_align_token(a: TsAlign) -> Seq<char> {
    match a {
        TsAlign::Start => "-"@,
        TsAlign::End => "+"@,
        TsAlign::Timestamp(t) => dec_str(t as nat),
    }
}

/// A range query. The default queries everything: earliest to latest, no
/// cap, no value filter, no alignment, no aggregation.
#[derive(Debug)]
pub struct TsRangeQuery {
    pub from: TsTimeBound,
    pub to: TsTimeBound,
    pub count: Option<u64>,
    pub filter_by_value: Option<(String, String)>,
    pub align: Option<TsAlign>,
    pub aggregation: Option<TsAggregationType>,
}

/// A query is well formed when a present aggregation descriptor carries a
/// positive bucket duration.
pub open spec fn spec_query_wf(q: TsRangeQuery) -> bool {
    match q.aggregation {
        Some(a) => spec_agg_bucket(a) > 0,
        None => true,
    }
}

/// The `COUNT` pair of a range query, when requested.
pub open spec fn spec_range_count_tokens(c: Option<u64>) -> Seq<Seq<char>> {
    match c {
        Some(n) => seq!["COUNT"@, dec_str(n as nat)],
        None => seq![],
    }
}

/// The `FILTER_BY_VALUE` triple, when a value range was given.
pub open spec fn spec_fbv_tokens(f: Option<(String, String)>) -> Seq<Seq<char>> {
    match f {
        Some(mm) => seq!["FILTER_BY_VALUE"@, mm.0@, mm.1@],
        None => seq![],
    }
}

/// The `ALIGN` pair, when an alignment was given.
pub open spec fn spec_align_tokens(a: Option<TsAlign>) -> Seq<Seq<char>> {
    match a {
        Some(x) => seq!["ALIGN"@, spec_align_token(x)],
        None => seq![],
    }
}

/// The aggregation block, when a descriptor was given.
pub open spec fn spec_query_agg_tokens(a: Option<TsAggregationType>) -> Seq<Seq<char>> {
    match a {
        Some(x) => spec_agg_tokens(x),
        None => seq![],
    }
}

/// The full token sequence of a range query, in fixed order: the two time
/// bounds, then `COUNT`, `FILTER_BY_VALUE`, `ALIGN` and the aggregation
/// block, each only when requested.
pub open spec fn spec_query_tokens(q: TsRangeQuery) -> Seq<Seq<char>> {
    seq![spec_bound_token(q.from), spec_bound_token(q.to)] + spec_range_count_tokens(q.count)
        + spec_fbv_tokens(q.filter_by_value) + spec_align_tokens(q.align) + spec_query_agg_tokens(
        q.aggregation,
    )
}

fn push_bound(out: &mut Vec<String>, b: &TsTimeBound)
    ensures
        token_views(final(out)@) == token_views(old(out)@).push(spec_bound_token(*b)),
{
    match b {
        TsTimeBound::Earliest => push_tok(out, "-"),
        TsTimeBound::Latest => push_tok(out, "+"),
        TsTimeBound::Value(t) => push_owned(out, u64_to_dec(*t)),
    }
}

impl Default for TsRangeQuery {
    /// The query for everything: earliest to latest, nothing optional set.
    fn default() -> (q: TsRangeQuery)
        ensures
            q.from == TsTimeBound::Earliest,
            q.to == TsTimeBound::Latest,
            q.count is None,
            q.filter_by_value is None,
            q.align is None,
            q.aggregation is None,
    {
        TsRangeQuery {
            from: TsTimeBound::Earliest,
            to: TsTimeBound::Latest,
            count: None,
            filter_by_value: None,
            align: None,
            aggregation: None,
        }
    }
}

impl TsRangeQuery {
    /// Sets the start of the queried time range.
    pub fn from(self, b: TsTimeBound) -> (q: TsRangeQuery)
        ensures
            q == (TsRangeQuery { from: b, ..self }),
    {
        TsRangeQuery { from: b, ..self }
    }

    /// Sets the end of the queried time range.
    pub fn to(self, b: TsTimeBound) -> (q: TsRangeQuery)
        ensures
            q == (TsRangeQuery { to: b, ..self }),
    {
        TsRangeQuery { to: b, ..self }
    }

    /// Caps the number of returned samples.
    pub fn count(self, n: u64) -> (q: TsRangeQuery)
        ensures
            q == (TsRangeQuery { count: Some(n), ..self }),
    {
        TsRangeQuery { count: Some(n), ..self }
    }

    /// Keeps only samples whose value lies between the two rendered numeric
    /// tokens.
    pub fn filter_by_value(self, min: String, max: String) -> (q: TsRangeQuery)
        ensures
            q == (TsRangeQuery { filter_by_value: Some((min, max)), ..self }),
    {
        TsRangeQuery { filter_by_value: Some((min, max)), ..self }
    }

    /// Sets the aggregation bucket alignment.
    pub fn align(self, a: TsAlign) -> (q: TsRangeQuery)
        ensures
            q == (TsRangeQuery { align: Some(a), ..self }),
    {
        TsRangeQuery { align: Some(a), ..self }
    }

    /// Sets the aggregation descriptor. Its bucket duration must be
    /// positive for the query to be encodable.
    pub fn aggregation(self, a: TsAggregationType) -> (q: TsRangeQuery)
        ensures
            q == (TsRangeQuery { aggregation: Some(a), ..self }),
    {
        TsRangeQuery { aggregation: Some(a), ..self }
    }

    /// Encodes the query into its token sequence. A present aggregation
    /// descriptor must carry a positive bucket duration.
    pub fn tokens(&self) -> (out: Vec<String>)
        requires
            spec_query_wf(*self),
        ensures
            token_views(out@) == spec_query_tokens(*self),
    {
        let mut out: Vec<String> = Vec::new();
        push_bound(&mut out, &self.from);
        push_bound(&mut out, &self.to);
        let ghost s0 = token_views(out@);
        match self.count {
            Some(n) => {
                push_tok(&mut out, "COUNT");
                push_owned(&mut out, u64_to_dec(n));
            },
            None => {},
        }
        proof {
            assert(token_views(out@) =~= s0 + spec_range_count_tokens(self.count));
        }
        let ghost s1 = token_views(out@);
        match &self.filter_by_value {
            Some(mm) => {
                push_tok(&mut out, "FILTER_BY_VALUE");
                push_owned(&mut out, mm.0.clone());
                push_owned(&mut out, mm.1.clone());
            },
            None => {},
        }
        proof {
            assert(token_views(out@) =~= s1 + spec_fbv_tokens(self.filter_by_value));
        }
        let ghost s2 = token_views(out@);
        match &self.align {
            Some(a) => {
                push_tok(&mut out, "ALIGN");
                match a {
                    TsAlign::Start => push_tok(&mut out, "-"),
                    TsAlign::End => push_tok(&mut out, "+"),
                    TsAlign::Timestamp(t) => push_owned(&mut out, u64_to_dec(*t)),
                }
            },
            None => {},
        }
        proof {
            assert(token_views(out@) =~= s2 + spec_align_tokens(self.align));
        }
        let ghost s3 = token_views(out@);
        match &self.aggregation {
            Some(a) => a.append_tokens(&mut out),
            None => {},
        }
        proof {
            assert(token_views(out@) =~= s3 + spec_query_agg_tokens(self.aggregation));
            assert(token_views(out@) =~= spec_query_tokens(*self));
        }
        out
    }
}

} // verus!
