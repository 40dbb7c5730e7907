//! The series-metadata decoder: a reply of alternating field-name and
//! field-value entries becomes a typed snapshot. A field the store did not
//! send keeps its documented default (zero, unset or empty), since the store
//! may omit fields across versions; a reply whose shape is not an
//! alternating name/value array, or a known field carrying a value of the
//! wrong shape, fails loudly.

use vstd::prelude::*;

use crate::TsError;
use crate::aggregation::{TsAggregationType, spec_agg_bucket, spec_agg_name};
use crate::options::{TsDuplicatePolicy, labels_view, spec_policy_token};
use crate::reply::{Reply, decode_labels, spec_labels_of};

verus! {

/// A read-only metadata snapshot of one series.
#[derive(Debug)]
pub struct TsInfo {
    pub total_samples: u64,
    pub memory_usage: u64,
    pub first_timestamp: u64,
    pub last_timestamp: u64,
    pub retention_time: u64,
    pub chunk_count: u64,
    pub chunk_size: u64,
    pub duplicate_policy: Option<TsDuplicatePolicy>,
    pub labels: Vec<(String, String)>,
    pub source_key: Option<String>,
    pub rules: Vec<(String, TsAggregationType)>,
}

/// The mathematical image of a metadata snapshot.
pub ghost struct TsInfoV {
    pub total_samples: u64,
    pub memory_usage: u64,
    pub first_timestamp: u64,
    pub last_timestamp: u64,
    pub retention_time: u64,
    pub chunk_count: u64,
    pub chunk_size: u64,
    pub duplicate_policy: Option<TsDuplicatePolicy>,
    pub labels: Seq<(Seq<char>, Seq<char>)>,
    pub source_key: Option<Seq<char>>,
    pub rules: Seq<(Seq<char>, TsAggregationType)>,
}

/// The views of a compaction-rule list.
pub open spec fn rules_view(rs: Seq<(String, TsAggregationType)>) -> Seq<
    (Seq<char>, TsAggregationType),
> {
    Seq::new(rs.len(), |i: int| (rs[i].0@, rs[i].1))
}

impl View for TsInfo {
    type V = TsInfoV;

    open spec fn view(&self) -> TsInfoV {
        TsInfoV {
            total_samples: self.total_samples,
            memory_usage: self.memory_usage,
            first_timestamp: self.first_timestamp,
            last_timestamp: self.last_timestamp,
            retention_time: self.retention_time,
            chunk_count: self.chunk_count,
            chunk_size: self.chunk_size,
            duplicate_policy: self.duplicate_policy,
            labels: labels_view(self.labels@),
            source_key: match self.source_key {
                Some(k) => Some(k@),
                None => None,
            },
            rules: rules_view(self.rules@),
        }
    }
}

/// The snapshot every decode starts from: the documented defaults — all
/// counts zero, policy and source key unset, labels and rules empty.
pub open spec fn spec_info_init() -> TsInfoV {
    TsInfoV {
        total_samples: 0,
        memory_usage: 0,
        first_timestamp: 0,
        last_timestamp: 0,
        retention_time: 0,
        chunk_count: 0,
        chunk_size: 0,
        duplicate_policy: None,
        labels: Seq::empty(),
        source_key: None,
        rules: Seq::empty(),
    }
}

impl Default for TsInfo {
    /// The documented defaults: all counts zero, everything else unset or
    /// empty.
    fn default() -> (info: TsInfo)
        ensures
            info@ == spec_info_init(),
    {
        let info = TsInfo {
            total_samples: 0,
            memory_usage: 0,
            first_timestamp: 0,
            last_timestamp: 0,
            retention_time: 0,
            chunk_count: 0,
            chunk_size: 0,
            duplicate_policy: None,
            labels: Vec::new(),
            source_key: None,
            rules: Vec::new(),
        };
        proof {
            assert(labels_view(info.labels@) =~= Seq::<(Seq<char>, Seq<char>)>::empty());
            assert(rules_view(info.rules@) =~= Seq::<(Seq<char>, TsAggregationType)>::empty());
        }
        info
    }
}

/// The non-negative integer a numeric metadata field must carry.
pub open spec fn spec_u64_of(r: Reply) -> Option<u64> {
    match r {
        Reply::Integer(v) => if v >= 0 {
            Some(v as u64)
        } else {
            None
        },
        _ => None,
    }
}

/// The duplicate policy a policy token names.
pub open spec fn spec_parse_policy(s: Seq<char>) -> Option<TsDuplicatePolicy> {
    if s == "block"@ {
        Some(TsDuplicatePolicy::Block)
    } else if s == "first"@ {
        Some(TsDuplicatePolicy::First)
    } else if s == "last"@ {
        Some(TsDuplicatePolicy::Last)
    } else if s == "min"@ {
        Some(TsDuplicatePolicy::Min)
    } else if s == "max"@ {
        Some(TsDuplicatePolicy::Max)
    } else if s == "sum"@ {
        Some(TsDuplicatePolicy::Sum)
    } else {
        None
    }
}

/// The aggregation descriptor an uppercase mnemonic and a bucket duration
/// name.
pub open spec fn spec_parse_agg(s: Seq<char>, b: u64) -> Option<TsAggregationType> {
    if s == "AVG"@ {
        Some(TsAggregationType::Avg(b))
    } else if s == "SUM"@ {
        Some(TsAggregationType::Sum(b))
    } else if s == "MIN"@ {
        Some(TsAggregationType::Min(b))
    } else if s == "MAX"@ {
        Some(TsAggregationType::Max(b))
    } else if s == "RANGE"@ {
        Some(TsAggregationType::Range(b))
    } else if s == "COUNT"@ {
        Some(TsAggregationType::Count(b))
    } else if s == "FIRST"@ {
        Some(TsAggregationType::First(b))
    } else if s == "LAST"@ {
        Some(TsAggregationType::Last(b))
    } else if s == "STD.P"@ {
        Some(TsAggregationType::StdP(b))
    } else if s == "STD.S"@ {
        Some(TsAggregationType::StdS(b))
    } else if s == "VAR.P"@ {
        Some(TsAggregationType::VarP(b))
    } else if s == "VAR.S"@ {
        Some(TsAggregationType::VarS(b))
    } else if s == "TWA"@ {
        Some(TsAggregationType::Twa(b))
    } else {
        None
    }
}

/// One compaction rule of a metadata reply: destination key, bucket
/// duration, aggregation mnemonic.
pub open spec fn spec_rule(r: Reply) -> Option<(Seq<char>, TsAggregationType)> {
    match r {
        Reply::Array(items) => if items@.len() == 3 {
            match (items@[0], items@[1], items@[2]) {
                (Reply::Bulk(dest), Reply::Integer(b), Reply::Bulk(name)) => if b >= 0 {
                    match spec_parse_agg(name@, b as u64) {
                        Some(a) => Some((dest@, a)),
                        None => None,
                    }
                } else {
                    None
                },
                _ => None,
            }
        } else {
            None
        },
        _ => None,
    }
}

/// The rules of a rule-list body, or nothing if any entry is malformed.
pub open spec fn spec_rules_of(items: Seq<Reply>) -> Option<Seq<(Seq<char>, TsAggregationType)>>
    decreases items.len(),
{
    if items.len() == 0 {
        Some(Seq::empty())
    } else {
        match (spec_rules_of(items.drop_last()), spec_rule(items.last())) {
            (Some(s), Some(p)) => Some(s.push(p)),
            _ => None,
        }
    }
}

/// What a rule-list reply means: an array of rules, in array order.
pub open spec fn spec_rules_list(r: Reply) -> Result<Seq<(Seq<char>, TsAggregationType)>, TsError> {
    match r {
        Reply::Array(items) => match spec_rules_of(items@) {
            Some(s) => Ok(s),
            None => Err(TsError::ReplyShapeMismatch),
        },
        _ => Err(TsError::ReplyShapeMismatch),
    }
}

/// What one field-name/field-value pair does to the snapshot being built:
/// a known field overwrites its slot (or fails on a value of the wrong
/// shape), an unknown field changes nothing.
pub open spec fn spec_info_step(acc: TsInfoV, name: Seq<char>, value: Reply) -> Result<
    TsInfoV,
    TsError,
> {
    if name == "totalSamples"@ {
        match spec_u64_of(value) {
            Some(n) => Ok(TsInfoV { total_samples: n, ..acc }),
            None => Err(TsError::ReplyShapeMismatch),
        }
    } else if name == "memoryUsage"@ {
        match spec_u64_of(value) {
            Some(n) => Ok(TsInfoV { memory_usage: n, ..acc }),
            None => Err(TsError::ReplyShapeMismatch),
        }
    } else if name == "firstTimestamp"@ {
        match spec_u64_of(value) {
            Some(n) => Ok(TsInfoV { first_timestamp: n, ..acc }),
            None => Err(TsError::ReplyShapeMismatch),
        }
    } else if name == "lastTimestamp"@ {
        match spec_u64_of(value) {
            Some(n) => Ok(TsInfoV { last_timestamp: n, ..acc }),
            None => Err(TsError::ReplyShapeMismatch),
        }
    } else if name == "retentionTime"@ {
        match spec_u64_of(value) {
            Some(n) => Ok(TsInfoV { retention_time: n, ..acc }),
            None => Err(TsError::ReplyShapeMismatch),
        }
    } else if name == "chunkCount"@ {
        match spec_u64_of(value) {
            Some(n) => Ok(TsInfoV { chunk_count: n, ..acc }),
            None => Err(TsError::ReplyShapeMismatch),
        }
    } else if name == "chunkSize"@ {
        match spec_u64_of(value) {
            Some(n) => Ok(TsInfoV { chunk_size: n, ..acc }),
            None => Err(TsError::ReplyShapeMismatch),
        }
    } else if name == "duplicatePolicy"@ {
        match value {
            Reply::Nil => Ok(TsInfoV { duplicate_policy: None, ..acc }),
            Reply::Bulk(s) => match spec_parse_policy(s@) {
                Some(p) => Ok(TsInfoV { duplicate_policy: Some(p), ..acc }),
                None => Err(TsError::ReplyShapeMismatch),
            },
            _ => Err(TsError::ReplyShapeMismatch),
        }
    } else if name == "labels"@ {
        match spec_labels_of(value) {
            Ok(ls) => Ok(TsInfoV { labels: ls, ..acc }),
            Err(e) => Err(e),
        }
    } else if name == "sourceKey"@ {
        match value {
            Reply::Nil => Ok(TsInfoV { source_key: None, ..acc }),
            Reply::Bulk(k) => Ok(TsInfoV { source_key: Some(k@), ..acc }),
            _ => Err(TsError::ReplyShapeMismatch),
        }
    } else if name == "rules"@ {
        match spec_rules_list(value) {
            Ok(rs) => Ok(TsInfoV { rules: rs, ..acc }),
            Err(e) => Err(e),
        }
    } else {
        Ok(acc)
    }
}

/// What the body of a metadata reply means, folded left to right over the
/// alternating name/value entries: a later occurrence of a field overwrites
/// an earlier one; an odd tail or a non-bulk field name is a mismatch.
pub open spec fn spec_info_fold(entries: Seq<Reply>, acc: TsInfoV) -> Result<TsInfoV, TsError>
    decreases entries.len(),
{
    if entries.len() == 0 {
        Ok(acc)
    } else if entries.len() == 1 {
        Err(TsError::ReplyShapeMismatch)
    } else {
        match entries[0] {
            Reply::Bulk(name) => match spec_info_step(acc, name@, entries[1]) {
                Ok(acc2) => spec_info_fold(entries.skip(2), acc2),
                Err(e) => Err(e),
            },
            _ => Err(TsError::ReplyShapeMismatch),
        }
    }
}

/// What a metadata reply means: the fold over its entries, starting from
/// the documented defaults.
pub open spec fn spec_info(r: Reply) -> Result<TsInfoV, TsError> {
    match r {
        Reply::Array(items) => spec_info_fold(items@, spec_info_init()),
        _ => Err(TsError::ReplyShapeMismatch),
    }
}

/// Law: a duplicate-policy token decodes back to the policy it was encoded
/// from, so a metadata reply carrying an encoded policy reproduces it.
pub proof fn lemma_policy_token_round_trip(p: TsDuplicatePolicy)
    ensures
        spec_parse_policy(spec_policy_token(p)) == Some(p),
{
    reveal_strlit("block");
    reveal_strlit("first");
    reveal_strlit("last");
    reveal_strlit("min");
    reveal_strlit("max");
    reveal_strlit("sum");
    assert("block"@ =~= seq!['b', 'l', 'o', 'c', 'k']);
    assert("first"@ =~= seq!['f', 'i', 'r', 's', 't']);
    assert("last"@ =~= seq!['l', 'a', 's', 't']);
    assert("min"@ =~= seq!['m', 'i', 'n']);
    assert("max"@ =~= seq!['m', 'a', 'x']);
    assert("sum"@ =~= seq!['s', 'u', 'm']);
    match p {
        TsDuplicatePolicy::Block => {
            assert(spec_parse_policy("block"@) == Some(TsDuplicatePolicy::Block));
        },
        TsDuplicatePolicy::First => {
            assert(spec_parse_policy("first"@) == Some(TsDuplicatePolicy::First));
        },
        TsDuplicatePolicy::Last => {
            assert(spec_parse_policy("last"@) == Some(TsDuplicatePolicy::Last));
        },
        TsDuplicatePolicy::Min => {
            assert(spec_parse_policy("min"@) == Some(TsDuplicatePolicy::Min));
        },
        TsDuplicatePolicy::Max => {
            assert(spec_parse_policy("max"@) == Some(TsDuplicatePolicy::Max));
        },
        TsDuplicatePolicy::Sum => {
            assert(spec_parse_policy("sum"@) == Some(TsDuplicatePolicy::Sum));
        },
    }
}

/// Law: an aggregation mnemonic and bucket decode back to the descriptor
/// they were encoded from, so a compaction rule read back from metadata
/// reproduces its descriptor.
pub proof fn lemma_agg_name_round_trip(a: TsAggregationType)
    ensures
        spec_parse_agg(spec_agg_name(a), spec_agg_bucket(a)) == Some(a),
{
    reveal_strlit("AVG");
    reveal_strlit("SUM");
    reveal_strlit("MIN");
    reveal_strlit("MAX");
    reveal_strlit("RANGE");
    reveal_strlit("COUNT");
    reveal_strlit("FIRST");
    reveal_strlit("LAST");
    reveal_strlit("STD.P");
    reveal_strlit("STD.S");
    reveal_strlit("VAR.P");
    reveal_strlit("VAR.S");
    reveal_strlit("TWA");
    assert("AVG"@ =~= seq!['A', 'V', 'G']);
    assert("SUM"@ =~= seq!['S', 'U', 'M']);
    assert("MIN"@ =~= seq!['M', 'I', 'N']);
    assert("MAX"@ =~= seq!['M', 'A', 'X']);
    assert("RANGE"@ =~= seq!['R', 'A', 'N', 'G', 'E']);
    assert("COUNT"@ =~= seq!['C', 'O', 'U', 'N', 'T']);
    assert("FIRST"@ =~= seq!['F', 'I', 'R', 'S', 'T']);
    assert("LAST"@ =~= seq!['L', 'A', 'S', 'T']);
    assert("STD.P"@ =~= seq!['S', 'T', 'D', '.', 'P']);
    assert("STD.S"@ =~= seq!['S', 'T', 'D', '.', 'S']);
    assert("VAR.P"@ =~= seq!['V', 'A', 'R', '.', 'P']);
    assert("VAR.S"@ =~= seq!['V', 'A', 'R', '.', 'S']);
    assert("TWA"@ =~= seq!['T', 'W', 'A']);
    let b = spec_agg_bucket(a);
    match a {
        TsAggregationType::Avg(_) => {
            assert(spec_parse_agg("AVG"@, b) == Some(TsAggregationType::Avg(b)));
        },
        TsAggregationType::Sum(_) => {
            assert(spec_parse_agg("SUM"@, b) == Some(TsAggregationType::Sum(b)));
        },
        TsAggregationType::Min(_) => {
            assert(spec_parse_agg("MIN"@, b) == Some(TsAggregationType::Min(b)));
        },
        TsAggregationType::Max(_) => {
            assert(spec_parse_agg("MAX"@, b) == Some(TsAggregationType::Max(b)));
        },
        TsAggregationType::Range(_) => {
            assert(spec_parse_agg("RANGE"@, b) == Some(TsAggregationType::Range(b)));
        },
        TsAggregationType::Count(_) => {
            assert(spec_parse_agg("COUNT"@, b) == Some(TsAggregationType::Count(b)));
        },
        TsAggregationType::First(_) => {
            assert(spec_parse_agg("FIRST"@, b) == Some(TsAggregationType::First(b)));
        },
        TsAggregationType::Last(_) => {
            assert(spec_parse_agg("LAST"@, b) == Some(TsAggregationType::Last(b)));
        },
        TsAggregationType::StdP(_) => {
            assert(spec_parse_agg("STD.P"@, b) == Some(TsAggregationType::StdP(b)));
        },
        TsAggregationType::StdS(_) => {
            assert(spec_parse_agg("STD.S"@, b) == Some(TsAggregationType::StdS(b)));
        },
        TsAggregationType::VarP(_) => {
            assert(spec_parse_agg("VAR.P"@, b) == Some(TsAggregationType::VarP(b)));
        },
        TsAggregationType::VarS(_) => {
            assert(spec_parse_agg("VAR.S"@, b) == Some(TsAggregationType::VarS(b)));
        },
        TsAggregationType::Twa(_) => {
            assert(spec_parse_agg("TWA"@, b) == Some(TsAggregationType::Twa(b)));
        },
    }
}

fn string_is(a: &String, lit: &str) -> (r: bool)
    ensures
        r == (a@ == lit@),
{
    let l = lit.to_owned();
    a.eq(&l)
}

fn u64_of(value: &Reply) -> (out: Option<u64>)
    ensures
        out == spec_u64_of(*value),
{
    match value {
        Reply::Integer(v) => if *v >= 0 {
            Some(*v as u64)
        } else {
            None
        },
        _ => None,
    }
}

fn parse_policy(s: &String) -> (out: Option<TsDuplicatePolicy>)
    ensures
        out == spec_parse_policy(s@),
{
    if string_is(s, "block") {
        Some(TsDuplicatePolicy::Block)
    } else if string_is(s, "first") {
        Some(TsDuplicatePolicy::First)
    } else if string_is(s, "last") {
        Some(TsDuplicatePolicy::Last)
    } else if string_is(s, "min") {
        Some(TsDuplicatePolicy::Min)
    } else if string_is(s, "max") {
        Some(TsDuplicatePolicy::Max)
    } else if string_is(s, "sum") {
        Some(TsDuplicatePolicy::Sum)
    } else {
        None
    }
}

fn parse_agg(s: &String, b: u64) -> (out: Option<TsAggregationType>)
    ensures
        out == spec_parse_agg(s@, b),
{
    if string_is(s, "AVG") {
        Some(TsAggregationType::Avg(b))
    } else if string_is(s, "SUM") {
        Some(TsAggregationType::Sum(b))
    } else if string_is(s, "MIN") {
        Some(TsAggregationType::Min(b))
    } else if string_is(s, "MAX") {
        Some(TsAggregationType::Max(b))
    } else if string_is(s, "RANGE") {
        Some(TsAggregationType::Range(b))
    } else if string_is(s, "COUNT") {
        Some(TsAggregationType::Count(b))
    } else if string_is(s, "FIRST") {
        Some(TsAggregationType::First(b))
    } else if string_is(s, "LAST") {
        Some(TsAggregationType::Last(b))
    } else if string_is(s, "STD.P") {
        Some(TsAggregationType::StdP(b))
    } else if string_is(s, "STD.S") {
        Some(TsAggregationType::StdS(b))
    } else if string_is(s, "VAR.P") {
        Some(TsAggregationType::VarP(b))
    } else if string_is(s, "VAR.S") {
        Some(TsAggregationType::VarS(b))
    } else if string_is(s, "TWA") {
        Some(TsAggregationType::Twa(b))
    } else {
        None
    }
}

fn decode_rule(r: &Reply) -> (out: Option<(String, TsAggregationType)>)
    ensures
        match out {
            Some(p) => spec_rule(*r) == Some((p.0@, p.1)),
            None => spec_rule(*r) is None,
        },
{
    match r {
        Reply::Array(items) => {
            if items.len() == 3 {
                let dest: String = match &items[0] {
                    Reply::Bulk(d) => d.clone(),
                    _ => {
                        return None;
                    },
                };
                let bucket: u64 = match &items[1] {
                    Reply::Integer(b) => {
                        if *b >= 0 {
                            *b as u64
                        } else {
                            return None;
                        }
                    },
                    _ => {
                        return None;
                    },
                };
                match &items[2] {
                    Reply::Bulk(name) => match parse_agg(name, bucket) {
                        Some(a) => Some((dest, a)),
                        None => None,
                    },
                    _ => None,
                }
            } else {
                None
            }
        },
        _ => None,
    }
}

proof fn lemma_rules_poisoned(items: Seq<Reply>, i: int)
    requires
        0 <= i < items.len(),
        spec_rule(items[i]) is None,
    ensures
        spec_rules_of(items) is None,
    decreases items.len(),
{
    if i == items.len() - 1 {
    } else {
        lemma_rules_poisoned(items.drop_last(), i);
    }
}

#[verifier::loop_isolation(false)]
fn decode_rules(r: &Reply) -> (out: Result<Vec<(String, TsAggregationType)>, TsError>)
    ensures
        match out {
            Ok(rs) => spec_rules_list(*r) == Ok::<_, TsError>(rules_view(rs@)),
            Err(e) => spec_rules_list(*r) == Err::<Seq<(Seq<char>, TsAggregationType)>, _>(e),
        },
{
    match r {
        Reply::Array(items) => {
            let mut rs: Vec<(String, TsAggregationType)> = Vec::new();
            proof {
                assert(rules_view(rs@) =~= Seq::<(Seq<char>, TsAggregationType)>::empty());
                assert(items@.take(0) =~= Seq::<Reply>::empty());
            }
            let mut i: usize = 0;
            while i < items.len()
                invariant
                    i <= items@.len(),
                    spec_rules_of(items@.take(i as int)) == Some(rules_view(rs@)),
                decreases items@.len() - i,
            {
                match decode_rule(&items[i]) {
                    Some(p) => {
                        let ghost pv = (p.0@, p.1);
                        rs.push(p);
                        proof {
                            let t1 = items@.take(i + 1);
                            assert(t1.drop_last() =~= items@.take(i as int));
                            assert(t1.last() == items@[i as int]);
                            assert(rules_view(rs@) =~= rules_view(rs@.drop_last()).push(pv));
                        }
                    },
                    None => {
                        proof {
                            lemma_rules_poisoned(items@, i as int);
                        }
                        return Err(TsError::ReplyShapeMismatch);
                    },
                }
                i += 1;
            }
            proof {
                assert(items@.take(items@.len() as int) =~= items@);
            }
            Ok(rs)
        },
        _ => Err(TsError::ReplyShapeMismatch),
    }
}

fn apply_info_field(info: &mut TsInfo, name: &String, value: &Reply) -> (out: Result<(), TsError>)
    ensures
        match out {
            Ok(_) => spec_info_step(old(info)@, name@, *value) == Ok::<_, TsError>(final(info)@),
            Err(e) => spec_info_step(old(info)@, name@, *value) == Err::<TsInfoV, _>(e),
        },
{
    if string_is(name, "totalSamples") {
        match u64_of(value) {
            Some(n) => {
                info.total_samples = n;
                Ok(())
            },
            None => Err(TsError::ReplyShapeMismatch),
        }
    } else if string_is(name, "memoryUsage") {
        match u64_of(value) {
            Some(n) => {
                info.memory_usage = n;
                Ok(())
            },
            None => Err(TsError::ReplyShapeMismatch),
        }
    } else if string_is(name, "firstTimestamp") {
        match u64_of(value) {
            Some(n) => {
                info.first_timestamp = n;
                Ok(())
            },
            None => Err(TsError::ReplyShapeMismatch),
        }
    } else if string_is(name, "lastTimestamp") {
        match u64_of(value) {
            Some(n) => {
                info.last_timestamp = n;
                Ok(())
            },
            None => Err(TsError::ReplyShapeMismatch),
        }
    } else if string_is(name, "retentionTime") {
        match u64_of(value) {
            Some(n) => {
                info.retention_time = n;
                Ok(())
            },
            None => Err(TsError::ReplyShapeMismatch),
        }
    } else if string_is(name, "chunkCount") {
        match u64_of(value) {
            Some(n) => {
                info.chunk_count = n;
                Ok(())
            },
            None => Err(TsError::ReplyShapeMismatch),
        }
    } else if string_is(name, "chunkSize") {
        match u64_of(value) {
            Some(n) => {
                info.chunk_size = n;
                Ok(())
            },
            None => Err(TsError::ReplyShapeMismatch),
        }
    } else if string_is(name, "duplicatePolicy") {
        match value {
            Reply::Nil => {
                info.duplicate_policy = None;
                Ok(())
            },
            Reply::Bulk(s) => match parse_policy(s) {
                Some(p) => {
                    info.duplicate_policy = Some(p);
                    Ok(())
                },
                None => Err(TsError::ReplyShapeMismatch),
            },
            _ => Err(TsError::ReplyShapeMismatch),
        }
    } else if string_is(name, "labels") {
        match decode_labels(value) {
            Ok(ls) => {
                info.labels = ls;
                Ok(())
            },
            Err(e) => Err(e),
        }
    } else if string_is(name, "sourceKey") {
        match value {
            Reply::Nil => {
                info.source_key = None;
                Ok(())
            },
            Reply::Bulk(k) => {
                info.source_key = Some(k.clone());
                Ok(())
            },
            _ => Err(TsError::ReplyShapeMismatch),
        }
    } else if string_is(name, "rules") {
        match decode_rules(value) {
            Ok(rs) => {
                info.rules = rs;
                Ok(())
            },
            Err(e) => Err(e),
        }
    } else {
        Ok(())
    }
}

/// Decodes a metadata reply into a snapshot. Fields the reply does not
/// carry keep their documented defaults; a reply that is not an array of
/// alternating bulk-string names and values, or a known field carrying a
/// malformed value, is a shape mismatch.
#[verifier::loop_isolation(false)]
pub fn decode_info(r: &Reply) -> (out: Result<TsInfo, TsError>)
    ensures
        match out {
            Ok(info) => spec_info(*r) == Ok::<_, TsError>(info@),
            Err(e) => spec_info(*r) == Err::<TsInfoV, _>(e),
        },
{
    match r {
        Reply::Array(items) => {
            let mut info = TsInfo::default();
            proof {
                assert(items@.skip(0) =~= items@);
            }
            let mut i: usize = 0;
            while i < items.len()
                invariant
                    i <= items@.len(),
                    spec_info_fold(items@.skip(i as int), info@) == spec_info_fold(
                        items@,
                        spec_info_init(),
                    ),
                decreases items@.len() - i,
            {
                if i + 1 >= items.len() {
                    return Err(TsError::ReplyShapeMismatch);
                }
                let name: &String = match &items[i] {
                    Reply::Bulk(name) => name,
                    _ => {
                        return Err(TsError::ReplyShapeMismatch);
                    },
                };
                let ghost pre = info@;
                match apply_info_field(&mut info, name, &items[i + 1]) {
                    Ok(_) => {
                        proof {
                            let rest = items@.skip(i as int);
                            assert(rest[0] == items@[i as int]);
                            assert(rest[1] == items@[i as int + 1]);
                            assert(rest.skip(2) =~= items@.skip(i as int + 2));
                        }
                    },
                    Err(e) => {
                        return Err(e);
                    },
                }
                i += 2;
            }
            proof {
                assert(items@.skip(items@.len() as int) =~= Seq::<Reply>::empty());
            }
            Ok(info)
        },
        _ => Err(TsError::ReplyShapeMismatch),
    }
}

} // verus!
