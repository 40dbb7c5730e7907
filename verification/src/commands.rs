//! The operation façade: one encoder per remote command. Each function
//! renders a command name and its ordered argument tokens, ready for the
//! transport's execute call; the decoders of the replies live beside the
//! reply model. Every operation is a pure function of its inputs.

use vstd::prelude::*;

use crate::TsError;
use crate::aggregation::{TsAggregationType, spec_agg_bucket, spec_agg_tokens};
use crate::filter::{TsFilterOptions, spec_filter_options_tokens, spec_filter_tokens};
use crate::options::{TsOptions, spec_options_tokens};
use crate::range::{TsRangeQuery, spec_query_tokens, spec_query_wf};
use crate::wire::{dec_str, extend_toks, push_owned, push_tok, token_views, u64_to_dec};

verus! {

/// One encoded command: the command name and its ordered argument tokens,
/// exactly as the transport must send them.
#[derive(Debug)]
pub struct TsCommand {
    pub name: String,
    pub args: Vec<String>,
}

impl TsCommand {
    /// The full wire token sequence: the command name followed by the
    /// arguments.
    pub fn tokens(self) -> (out: Vec<String>)
        ensures
            token_views(out@) == seq![self.name@] + token_views(self.args@),
    {
        let ghost nv = self.name@;
        let mut out: Vec<String> = Vec::new();
        push_owned(&mut out, self.name);
        let mut args = self.args;
        extend_toks(&mut out, &mut args);
        proof {
            assert(token_views(out@) =~= seq![nv] + token_views(self.args@));
        }
        out
    }
}

/// The flattened `key timestamp value` triples of a multi-add.
pub open spec fn spec_madd_args(vs: Seq<(String, u64, String)>) -> Seq<Seq<char>>
    decreases vs.len(),
{
    if vs.len() == 0 {
        seq![]
    } else {
        spec_madd_args(vs.drop_last()) + seq![
            vs.last().0@,
            dec_str(vs.last().1 as nat),
            vs.last().2@,
        ]
    }
}

/// Encodes a metadata query for one series.
pub fn ts_info(key: &str) -> (c: TsCommand)
    ensures
        c.name@ == "TS.INFO"@,
        token_views(c.args@) == seq![key@],
{
    let mut args: Vec<String> = Vec::new();
    push_tok(&mut args, key);
    proof {
        assert(token_views(args@) =~= seq![key@]);
    }
    TsCommand { name: "TS.INFO".to_owned(), args }
}

/// Encodes the creation of a series with its configuration.
pub fn ts_create(key: &str, options: &TsOptions) -> (c: TsCommand)
    ensures
        c.name@ == "TS.CREATE"@,
        token_views(c.args@) == seq![key@] + spec_options_tokens(*options),
{
    let mut args: Vec<String> = Vec::new();
    push_tok(&mut args, key);
    let mut opts = options.tokens();
    extend_toks(&mut args, &mut opts);
    proof {
        assert(token_views(args@) =~= seq![key@] + spec_options_tokens(*options));
    }
    TsCommand { name: "TS.CREATE".to_owned(), args }
}

/// Encodes the alteration of a series. The uncompressed flag is always
/// omitted here, so the stored compression setting is never touched by an
/// alteration.
pub fn ts_alter(key: &str, options: &TsOptions) -> (c: TsCommand)
    ensures
        c.name@ == "TS.ALTER"@,
        token_views(c.args@) == seq![key@] + spec_options_tokens(
            TsOptions { uncompressed: None, ..*options },
        ),
{
    let mut args: Vec<String> = Vec::new();
    push_tok(&mut args, key);
    let mut opts = options.alter_tokens();
    extend_toks(&mut args, &mut opts);
    proof {
        assert(token_views(args@) =~= seq![key@] + spec_options_tokens(
            TsOptions { uncompressed: None, ..*options },
        ));
    }
    TsCommand { name: "TS.ALTER".to_owned(), args }
}

/// Encodes the insertion of one sample at a given timestamp.
pub fn ts_add(key: &str, ts: u64, value: &str) -> (c: TsCommand)
    ensures
        c.name@ == "TS.ADD"@,
        token_views(c.args@) == seq![key@, dec_str(ts as nat), value@],
{
    let mut args: Vec<String> = Vec::new();
    push_tok(&mut args, key);
    push_owned(&mut args, u64_to_dec(ts));
    push_tok(&mut args, value);
    proof {
        assert(token_views(args@) =~= seq![key@, dec_str(ts as nat), value@]);
    }
    TsCommand { name: "TS.ADD".to_owned(), args }
}

/// Encodes the insertion of one sample at the store's own current time.
pub fn ts_add_now(key: &str, value: &str) -> (c: TsCommand)
    ensures
        c.name@ == "TS.ADD"@,
        token_views(c.args@) == seq![key@, "*"@, value@],
{
    let mut args: Vec<String> = Vec::new();
    push_tok(&mut args, key);
    push_tok(&mut args, "*");
    push_tok(&mut args, value);
    proof {
        assert(token_views(args@) =~= seq![key@, "*"@, value@]);
    }
    TsCommand { name: "TS.ADD".to_owned(), args }
}

/// Encodes the insertion of one sample, creating the series with the given
/// configuration if it does not exist yet.
pub fn ts_add_create(key: &str, ts: u64, value: &str, options: &TsOptions) -> (c: TsCommand)
    ensures
        c.name@ == "TS.ADD"@,
        token_views(c.args@) == seq![key@, dec_str(ts as nat), value@] + spec_options_tokens(
            *options,
        ),
{
    let mut args: Vec<String> = Vec::new();
    push_tok(&mut args, key);
    push_owned(&mut args, u64_to_dec(ts));
    push_tok(&mut args, value);
    let mut opts = options.tokens();
    extend_toks(&mut args, &mut opts);
    proof {
        assert(token_views(args@) =~= seq![key@, dec_str(ts as nat), value@]
            + spec_options_tokens(*options));
    }
    TsCommand { name: "TS.ADD".to_owned(), args }
}

/// Encodes the insertion of several samples, one `key timestamp value`
/// triple per sample, in list order.
pub fn ts_madd(values: &Vec<(String, u64, String)>) -> (c: TsCommand)
    ensures
        c.name@ == "TS.MADD"@,
        token_views(c.args@) == spec_madd_args(values@),
{
    let mut args: Vec<String> = Vec::new();
    proof {
        assert(values@.take(0) =~= Seq::<(String, u64, String)>::empty());
        assert(token_views(args@) =~= spec_madd_args(values@.take(0)));
    }
    let mut i: usize = 0;
    while i < values.len()
        invariant
            i <= values@.len(),
            token_views(args@) == spec_madd_args(values@.take(i as int)),
        decreases values@.len() - i,
    {
        push_owned(&mut args, values[i].0.clone());
        push_owned(&mut args, u64_to_dec(values[i].1));
        push_owned(&mut args, values[i].2.clone());
        proof {
            let t1 = values@.take(i + 1);
            assert(t1.drop_last() =~= values@.take(i as int));
            assert(t1.last() == values@[i as int]);
            assert(token_views(args@) =~= spec_madd_args(t1));
        }
        i += 1;
    }
    proof {
        assert(values@.take(values@.len() as int) =~= values@);
    }
    TsCommand { name: "TS.MADD".to_owned(), args }
}

fn counter(name: &'static str, key: &str, value: &str) -> (c: TsCommand)
    ensures
        c.name@ == name@,
        token_views(c.args@) == seq![key@, value@],
{
    let mut args: Vec<String> = Vec::new();
    push_tok(&mut args, key);
    push_tok(&mut args, value);
    proof {
        assert(token_views(args@) =~= seq![key@, value@]);
    }
    TsCommand { name: name.to_owned(), args }
}

fn counter_at(name: &'static str, key: &str, ts: u64, value: &str) -> (c: TsCommand)
    ensures
        c.name@ == name@,
        token_views(c.args@) == seq![key@, value@, "TIMESTAMP"@, dec_str(ts as nat)],
{
    let mut args: Vec<String> = Vec::new();
    push_tok(&mut args, key);
    push_tok(&mut args, value);
    push_tok(&mut args, "TIMESTAMP");
    push_owned(&mut args, u64_to_dec(ts));
    proof {
        assert(token_views(args@) =~= seq![key@, value@, "TIMESTAMP"@, dec_str(ts as nat)]);
    }
    TsCommand { name: name.to_owned(), args }
}

/// Encodes an increment at the store's own current time.
pub fn ts_incrby_now(key: &str, value: &str) -> (c: TsCommand)
    ensures
        c.name@ == "TS.INCRBY"@,
        token_views(c.args@) == seq![key@, value@],
{
    counter("TS.INCRBY", key, value)
}

/// Encodes an increment at a given timestamp.
pub fn ts_incrby(key: &str, ts: u64, value: &str) -> (c: TsCommand)
    ensures
        c.name@ == "TS.INCRBY"@,
        token_views(c.args@) == seq![key@, value@, "TIMESTAMP"@, dec_str(ts as nat)],
{
    counter_at("TS.INCRBY", key, ts, value)
}

/// Encodes an increment at a given timestamp, creating the series with the
/// given configuration if it does not exist yet.
pub fn ts_incrby_create(key: &str, ts: u64, value: &str, options: &TsOptions) -> (c: TsCommand)
    ensures
        c.name@ == "TS.INCRBY"@,
        token_views(c.args@) == seq![key@, value@, "TIMESTAMP"@, dec_str(ts as nat)]
            + spec_options_tokens(*options),
{
    let mut c = counter_at("TS.INCRBY", key, ts, value);
    let mut opts = options.tokens();
    extend_toks(&mut c.args, &mut opts);
    proof {
        assert(token_views(c.args@) =~= seq![key@, value@, "TIMESTAMP"@, dec_str(ts as nat)]
            + spec_options_tokens(*options));
    }
    c
}

/// Encodes a decrement at the store's own current time.
pub fn ts_decrby_now(key: &str, value: &str) -> (c: TsCommand)
    ensures
        c.name@ == "TS.DECRBY"@,
        token_views(c.args@) == seq![key@, value@],
{
    counter("TS.DECRBY", key, value)
}

/// Encodes a decrement at a given timestamp.
pub fn ts_decrby(key: &str, ts: u64, value: &str) -> (c: TsCommand)
    ensures
        c.name@ == "TS.DECRBY"@,
        token_views(c.args@) == seq![key@, value@, "TIMESTAMP"@, dec_str(ts as nat)],
{
    counter_at("TS.DECRBY", key, ts, value)
}

/// Encodes a decrement at a given timestamp, creating the series with the
/// given configuration if it does not exist yet.
pub fn ts_decrby_create(key: &str, ts: u64, value: &str, options: &TsOptions) -> (c: TsCommand)
    ensures
        c.name@ == "TS.DECRBY"@,
        token_views(c.args@) == seq![key@, value@, "TIMESTAMP"@, dec_str(ts as nat)]
            + spec_options_tokens(*options),
{
    let mut c = counter_at("TS.DECRBY", key, ts, value);
    let mut opts = options.tokens();
    extend_toks(&mut c.args, &mut opts);
    proof {
        assert(token_views(c.args@) =~= seq![key@, value@, "TIMESTAMP"@, dec_str(ts as nat)]
            + spec_options_tokens(*options));
    }
    c
}

/// Encodes the creation of a compaction rule from a source series into a
/// destination series. The descriptor's bucket duration must be positive.
pub fn ts_createrule(source_key: &str, dest_key: &str, aggregation_type: &TsAggregationType) -> (c:
    TsCommand)
    requires
        spec_agg_bucket(*aggregation_type) > 0,
    ensures
        c.name@ == "TS.CREATERULE"@,
        token_views(c.args@) == seq![source_key@, dest_key@] + spec_agg_tokens(*aggregation_type),
{
    let mut args: Vec<String> = Vec::new();
    push_tok(&mut args, source_key);
    push_tok(&mut args, dest_key);
    aggregation_type.append_tokens(&mut args);
    proof {
        assert(token_views(args@) =~= seq![source_key@, dest_key@] + spec_agg_tokens(
            *aggregation_type,
        ));
    }
    TsCommand { name: "TS.CREATERULE".to_owned(), args }
}

/// Encodes the deletion of a compaction rule.
pub fn ts_deleterule(source_key: &str, dest_key: &str) -> (c: TsCommand)
    ensures
        c.name@ == "TS.DELETERULE"@,
        token_views(c.args@) == seq![source_key@, dest_key@],
{
    let mut args: Vec<String> = Vec::new();
    push_tok(&mut args, source_key);
    push_tok(&mut args, dest_key);
    proof {
        assert(token_views(args@) =~= seq![source_key@, dest_key@]);
    }
    TsCommand { name: "TS.DELETERULE".to_owned(), args }
}

/// Encodes the lookup of the latest sample of one series.
pub fn ts_get(key: &str) -> (c: TsCommand)
    ensures
        c.name@ == "TS.GET"@,
        token_views(c.args@) == seq![key@],
{
    let mut args: Vec<String> = Vec::new();
    push_tok(&mut args, key);
    proof {
        assert(token_views(args@) =~= seq![key@]);
    }
    TsCommand { name: "TS.GET".to_owned(), args }
}

/// Encodes a multi-get over a filter expression set. Fails, before building
/// any token, if and only if the filter set holds no predicate.
pub fn ts_mget(filter_options: &TsFilterOptions) -> (r: Result<TsCommand, TsError>)
    ensures
        match r {
            Ok(c) => c.name@ == "TS.MGET"@ && spec_filter_options_tokens(*filter_options)
                == Ok::<_, TsError>(token_views(c.args@)),
            Err(e) => e == TsError::EmptyFilter && filter_options.filters@.len() == 0,
        },
{
    match filter_options.to_tokens() {
        Ok(args) => Ok(TsCommand { name: "TS.MGET".to_owned(), args }),
        Err(e) => Err(e),
    }
}

/// Encodes a range read of one series, under the given command name. Both
/// the forward and the reverse read share this encoder, so the two can
/// never drift apart.
pub fn range(command: &str, key: &str, query: &TsRangeQuery) -> (c: TsCommand)
    requires
        spec_query_wf(*query),
    ensures
        c.name@ == command@,
        token_views(c.args@) == seq![key@] + spec_query_tokens(*query),
{
    let mut args: Vec<String> = Vec::new();
    push_tok(&mut args, key);
    let mut q = query.tokens();
    extend_toks(&mut args, &mut q);
    proof {
        assert(token_views(args@) =~= seq![key@] + spec_query_tokens(*query));
    }
    TsCommand { name: command.to_owned(), args }
}

/// Encodes a forward range read of one series.
pub fn ts_range(key: &str, query: &TsRangeQuery) -> (c: TsCommand)
    requires
        spec_query_wf(*query),
    ensures
        c.name@ == "TS.RANGE"@,
        token_views(c.args@) == seq![key@] + spec_query_tokens(*query),
{
    range("TS.RANGE", key, query)
}

/// Encodes a reverse range read of one series.
pub fn ts_revrange(key: &str, query: &TsRangeQuery) -> (c: TsCommand)
    requires
        spec_query_wf(*query),
    ensures
        c.name@ == "TS.REVRANGE"@,
        token_views(c.args@) == seq![key@] + spec_query_tokens(*query),
{
    range("TS.REVRANGE", key, query)
}

/// Encodes a multi-series range read, under the given command name: the
/// range tokens, then the filter expression tokens. Fails, before building
/// any token, if and only if the filter set holds no predicate.
pub fn mrange(command: &str, query: &TsRangeQuery, filter_options: &TsFilterOptions) -> (r: Result<
    TsCommand,
    TsError,
>)
    requires
        spec_query_wf(*query),
    ensures
        match r {
            Ok(c) => c.name@ == command@ && spec_filter_options_tokens(*filter_options) is Ok
                && token_views(c.args@) == spec_query_tokens(*query) + spec_filter_options_tokens(
                *filter_options,
            )->Ok_0,
            Err(e) => e == TsError::EmptyFilter && filter_options.filters@.len() == 0,
        },
{
    let mut ft = match filter_options.to_tokens() {
        Ok(ft) => ft,
        Err(e) => {
            return Err(e);
        },
    };
    let mut args = query.tokens();
    extend_toks(&mut args, &mut ft);
    Ok(TsCommand { name: command.to_owned(), args })
}

/// Encodes a forward multi-series range read.
pub fn ts_mrange(query: &TsRangeQuery, filter_options: &TsFilterOptions) -> (r: Result<
    TsCommand,
    TsError,
>)
    requires
        spec_query_wf(*query),
    ensures
        match r {
            Ok(c) => c.name@ == "TS.MRANGE"@ && spec_filter_options_tokens(*filter_options) is Ok
                && token_views(c.args@) == spec_query_tokens(*query) + spec_filter_options_tokens(
                *filter_options,
            )->Ok_0,
            Err(e) => e == TsError::EmptyFilter && filter_options.filters@.len() == 0,
        },
{
    mrange("TS.MRANGE", query, filter_options)
}

/// Encodes a reverse multi-series range read.
pub fn ts_mrevrange(query: &TsRangeQuery, filter_options: &TsFilterOptions) -> (r: Result<
    TsCommand,
    TsError,
>)
    requires
        spec_query_wf(*query),
    ensures
        match r {
            Ok(c) => c.name@ == "TS.MREVRANGE"@ && spec_filter_options_tokens(*filter_options)
                is Ok && token_views(c.args@) == spec_query_tokens(*query)
                + spec_filter_options_tokens(*filter_options)->Ok_0,
            Err(e) => e == TsError::EmptyFilter && filter_options.filters@.len() == 0,
        },
{
    mrange("TS.MREVRANGE", query, filter_options)
}

/// Encodes an index query: the predicate tokens alone select the matching
/// series keys. Fails, before building any token, if and only if the
/// filter set holds no predicate.
pub fn ts_queryindex(filter_options: &TsFilterOptions) -> (r: Result<TsCommand, TsError>)
    ensures
        match r {
            Ok(c) => c.name@ == "TS.QUERYINDEX"@ && filter_options.filters@.len() > 0
                && token_views(c.args@) == spec_filter_tokens(filter_options.filters@),
            Err(e) => e == TsError::EmptyFilter && filter_options.filters@.len() == 0,
        },
{
    if filter_options.filters.len() == 0 {
        return Err(TsError::EmptyFilter);
    }
    let args = filter_options.get_filters();
    Ok(TsCommand { name: "TS.QUERYINDEX".to_owned(), args })
}

} // verus!
