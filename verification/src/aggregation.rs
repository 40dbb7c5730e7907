//! The aggregation descriptor: an aggregation function together with its
//! bucket duration. The pair is one value — a function without a bucket, or a
//! bucket without a function, cannot be written down at all.

use vstd::prelude::*;

use crate::wire::{dec_str, push_owned, push_tok, token_views, u64_to_dec};

verus! {

/// An aggregation function paired with its time-bucket duration. Every
/// variant carries the bucket, so the two are only ever emitted together.
#[derive(Clone, Copy, Debug, PartialEq, Eq, Structural)]
pub enum TsAggregationType {
    Avg(u64),
    Sum(u64),
    Min(u64),
    Max(u64),
    Range(u64),
    Count(u64),
    First(u64),
    Last(u64),
    StdP(u64),
    StdS(u64),
    VarP(u64),
    VarS(u64),
    Twa(u64),
}

/// The store's uppercase mnemonic for an aggregation function.
pub open spec fn spec_agg_name(a: TsAggregationType) -> Seq<char> {
    match a {
        TsAggregationType::Avg(_) => "AVG"@,
        TsAggregationType::Sum(_) => "SUM"@,
        TsAggregationType::Min(_) => "MIN"@,
        TsAggregationType::Max(_) => "MAX"@,
        TsAggregationType::Range(_) => "RANGE"@,
        TsAggregationType::Count(_) => "COUNT"@,
        TsAggregationType::First(_) => "FIRST"@,
        TsAggregationType::Last(_) => "LAST"@,
        TsAggregationType::StdP(_) => "STD.P"@,
        TsAggregationType::StdS(_) => "STD.S"@,
        TsAggregationType::VarP(_) => "VAR.P"@,
        TsAggregationType::VarS(_) => "VAR.S"@,
        TsAggregationType::Twa(_) => "TWA"@,
    }
}

/// The bucket duration a descriptor carries.
pub open spec fn spec_agg_bucket(a: TsAggregationType) -> u64 {
    match a {
        TsAggregationType::Avg(b) => b,
        TsAggregationType::Sum(b) => b,
        TsAggregationType::Min(b) => b,
        TsAggregationType::Max(b) => b,
        TsAggregationType::Range(b) => b,
        TsAggregationType::Count(b) => b,
        TsAggregationType::First(b) => b,
        TsAggregationType::Last(b) => b,
        TsAggregationType::StdP(b) => b,
        TsAggregationType::StdS(b) => b,
        TsAggregationType::VarP(b) => b,
        TsAggregationType::VarS(b) => b,
        TsAggregationType::Twa(b) => b,
    }
}

/// The token triple an aggregation descriptor encodes to, in fixed order.
pub open spec fn spec_agg_tokens(a: TsAggregationType) -> Seq<Seq<char>> {
    seq!["AGGREGATION"@, spec_agg_name(a), dec_str(spec_agg_bucket(a) as nat)]
}

/// Law: the aggregation pair is emitted atomically — every descriptor encodes
/// to exactly the `AGGREGATION` keyword, one function mnemonic, and one bucket
/// duration; no encoding carries only one half of the pair.
pub proof fn lemma_aggregation_atomic(a: TsAggregationType)
    ensures
        spec_agg_tokens(a).len() == 3,
        spec_agg_tokens(a)[0] == "AGGREGATION"@,
        spec_agg_tokens(a)[1] == spec_agg_name(a),
        spec_agg_tokens(a)[2] == dec_str(spec_agg_bucket(a) as nat),
{
}

impl TsAggregationType {
    /// The bucket duration of this descriptor.
    pub fn bucket(&self) -> (b: u64)
        ensures
            b == spec_agg_bucket(*self),
    {
        match self {
            TsAggregationType::Avg(b) => *b,
            TsAggregationType::Sum(b) => *b,
            TsAggregationType::Min(b) => *b,
            TsAggregationType::Max(b) => *b,
            TsAggregationType::Range(b) => *b,
            TsAggregationType::Count(b) => *b,
            TsAggregationType::First(b) => *b,
            TsAggregationType::Last(b) => *b,
            TsAggregationType::StdP(b) => *b,
            TsAggregationType::StdS(b) => *b,
            TsAggregationType::VarP(b) => *b,
            TsAggregationType::VarS(b) => *b,
            TsAggregationType::Twa(b) => *b,
        }
    }

    fn name_token(&self) -> (s: &'static str)
        ensures
            s@ == spec_agg_name(*self),
    {
        match self {
            TsAggregationType::Avg(_) => "AVG",
            TsAggregationType::Sum(_) => "SUM",
            TsAggregationType::Min(_) => "MIN",
            TsAggregationType::Max(_) => "MAX",
            TsAggregationType::Range(_) => "RANGE",
            TsAggregationType::Count(_) => "COUNT",
            TsAggregationType::First(_) => "FIRST",
            TsAggregationType::Last(_) => "LAST",
            TsAggregationType::StdP(_) => "STD.P",
            TsAggregationType::StdS(_) => "STD.S",
            TsAggregationType::VarP(_) => "VAR.P",
            TsAggregationType::VarS(_) => "VAR.S",
            TsAggregationType::Twa(_) => "TWA",
        }
    }

    /// Appends `AGGREGATION <function> <bucket>` to a token list.
    pub fn append_tokens(&self, out: &mut Vec<String>)
        ensures
            token_views(final(out)@) == token_views(old(out)@) + spec_agg_tokens(*self),
    {
        push_tok(out, "AGGREGATION");
        push_tok(out, self.name_token());
        push_owned(out, u64_to_dec(self.bucket()));
        proof {
            assert(token_views(out@) =~= token_views(old(out)@) + spec_agg_tokens(*self));
        }
    }
}

} // verus!
