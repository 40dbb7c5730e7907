use redis_ts::TsError;
use redis_ts::aggregation::TsAggregationType;
use redis_ts::info::decode_info;
use redis_ts::multi::{decode_mget, decode_mrange};
use redis_ts::options::TsDuplicatePolicy;
use redis_ts::reply::{Reply, decode_index_keys, decode_labels, decode_point, decode_range};

fn s(x: &str) -> String {
    String::from(x)
}

fn bulk(x: &str) -> Reply {
    Reply::Bulk(s(x))
}

fn point_reply(ts: i64, v: &str) -> Reply {
    Reply::Array(vec![Reply::Integer(ts), bulk(v)])
}

#[test]
fn point_decodes_timestamp_and_value() {
    let p = decode_point(&point_reply(1609459200000, "2.5")).unwrap();
    assert_eq!(p.ts, 1609459200000);
    assert_eq!(p.value.parse::<f64>().unwrap(), 2.5);
}

#[test]
fn nil_point_is_no_value() {
    assert!(decode_point(&Reply::Nil).is_none());
}

#[test]
fn malformed_point_is_no_value_not_error() {
    assert!(decode_point(&Reply::Integer(5)).is_none());
    assert!(decode_point(&bulk("2.5")).is_none());
    assert!(decode_point(&Reply::Array(vec![])).is_none());
    assert!(decode_point(&Reply::Array(vec![Reply::Integer(1)])).is_none());
    assert!(decode_point(&Reply::Array(vec![bulk("1"), bulk("2")])).is_none());
    assert!(
        decode_point(&Reply::Array(vec![Reply::Integer(1), bulk("2"), bulk("3")])).is_none()
    );
}

#[test]
fn get_latest_scenario() {
    let p = decode_point(&point_reply(1000, "21.5")).unwrap();
    assert_eq!(p.ts, 1000);
    assert_eq!(p.value.parse::<f64>().unwrap(), 21.5);
}

#[test]
fn range_decodes_in_reply_order() {
    let r = Reply::Array(vec![point_reply(3, "c"), point_reply(1, "a"), point_reply(2, "b")]);
    let ps = decode_range(&r).unwrap();
    let got: Vec<(i64, String)> = ps.into_iter().map(|p| (p.ts, p.value)).collect();
    assert_eq!(got, vec![(3, s("c")), (1, s("a")), (2, s("b"))]);
}

#[test]
fn empty_range_is_empty_not_error() {
    let ps = decode_range(&Reply::Array(vec![])).unwrap();
    assert!(ps.is_empty());
}

#[test]
fn malformed_range_fails_loudly() {
    let r = Reply::Array(vec![point_reply(1, "a"), Reply::Nil]);
    assert_eq!(decode_range(&r).unwrap_err(), TsError::ReplyShapeMismatch);
    assert_eq!(decode_range(&Reply::Nil).unwrap_err(), TsError::ReplyShapeMismatch);
}

fn labels_reply(pairs: &[(&str, &str)]) -> Reply {
    Reply::Array(
        pairs
            .iter()
            .map(|(n, v)| Reply::Array(vec![bulk(n), bulk(v)]))
            .collect(),
    )
}

#[test]
fn labels_decode_in_order() {
    let ls = decode_labels(&labels_reply(&[("b", "2"), ("a", "1")])).unwrap();
    assert_eq!(ls, vec![(s("b"), s("2")), (s("a"), s("1"))]);
}

#[test]
fn info_round_trip_of_encoded_fields() {
    let r = Reply::Array(vec![
        bulk("retentionTime"),
        Reply::Integer(60000),
        bulk("labels"),
        labels_reply(&[("sensor", "a")]),
        bulk("duplicatePolicy"),
        bulk("last"),
    ]);
    let info = decode_info(&r).unwrap();
    assert_eq!(info.retention_time, 60000);
    assert_eq!(info.labels, vec![(s("sensor"), s("a"))]);
    assert_eq!(info.duplicate_policy, Some(TsDuplicatePolicy::Last));
}

#[test]
fn info_missing_fields_take_defaults() {
    let info = decode_info(&Reply::Array(vec![])).unwrap();
    assert_eq!(info.total_samples, 0);
    assert_eq!(info.memory_usage, 0);
    assert_eq!(info.first_timestamp, 0);
    assert_eq!(info.last_timestamp, 0);
    assert_eq!(info.retention_time, 0);
    assert_eq!(info.chunk_count, 0);
    assert_eq!(info.chunk_size, 0);
    assert_eq!(info.duplicate_policy, None);
    assert!(info.labels.is_empty());
    assert_eq!(info.source_key, None);
    assert!(info.rules.is_empty());
}

#[test]
fn info_numeric_fields() {
    let r = Reply::Array(vec![
        bulk("totalSamples"),
        Reply::Integer(12),
        bulk("memoryUsage"),
        Reply::Integer(4184),
        bulk("firstTimestamp"),
        Reply::Integer(10),
        bulk("lastTimestamp"),
        Reply::Integer(20),
        bulk("chunkCount"),
        Reply::Integer(1),
        bulk("chunkSize"),
        Reply::Integer(4096),
    ]);
    let info = decode_info(&r).unwrap();
    assert_eq!(info.total_samples, 12);
    assert_eq!(info.memory_usage, 4184);
    assert_eq!(info.first_timestamp, 10);
    assert_eq!(info.last_timestamp, 20);
    assert_eq!(info.chunk_count, 1);
    assert_eq!(info.chunk_size, 4096);
}

#[test]
fn info_rules_and_source_key() {
    let r = Reply::Array(vec![
        bulk("sourceKey"),
        bulk("upstream"),
        bulk("rules"),
        Reply::Array(vec![Reply::Array(vec![
            bulk("downstream"),
            Reply::Integer(60000),
            bulk("AVG"),
        ])]),
    ]);
    let info = decode_info(&r).unwrap();
    assert_eq!(info.source_key, Some(s("upstream")));
    assert_eq!(info.rules, vec![(s("downstream"), TsAggregationType::Avg(60000))]);
}

#[test]
fn info_unknown_field_is_skipped() {
    let r = Reply::Array(vec![
        bulk("somethingNew"),
        bulk("whatever"),
        bulk("totalSamples"),
        Reply::Integer(3),
    ]);
    let info = decode_info(&r).unwrap();
    assert_eq!(info.total_samples, 3);
}

#[test]
fn info_odd_length_fails() {
    let r = Reply::Array(vec![bulk("totalSamples")]);
    assert_eq!(decode_info(&r).unwrap_err(), TsError::ReplyShapeMismatch);
}

#[test]
fn info_bad_shapes_fail() {
    assert_eq!(decode_info(&Reply::Nil).unwrap_err(), TsError::ReplyShapeMismatch);
    let r = Reply::Array(vec![bulk("totalSamples"), Reply::Integer(-1)]);
    assert_eq!(decode_info(&r).unwrap_err(), TsError::ReplyShapeMismatch);
    let r = Reply::Array(vec![bulk("duplicatePolicy"), bulk("whenever")]);
    assert_eq!(decode_info(&r).unwrap_err(), TsError::ReplyShapeMismatch);
    let r = Reply::Array(vec![Reply::Integer(1), Reply::Integer(2)]);
    assert_eq!(decode_info(&r).unwrap_err(), TsError::ReplyShapeMismatch);
}

fn mget_entry(key: &str, labels: Reply, payload: Reply) -> Reply {
    Reply::Array(vec![bulk(key), labels, payload])
}

#[test]
fn mget_keeps_empty_series_and_order() {
    let r = Reply::Array(vec![
        mget_entry("b", labels_reply(&[("sensor", "a")]), point_reply(1, "1.5")),
        mget_entry("a", labels_reply(&[]), Reply::Array(vec![])),
    ]);
    let m = decode_mget(&r).unwrap();
    assert_eq!(m.values.len(), 2);
    assert_eq!(m.values[0].key, s("b"));
    assert_eq!(m.values[0].labels, vec![(s("sensor"), s("a"))]);
    let p = m.values[0].value.as_ref().unwrap();
    assert_eq!((p.ts, p.value.clone()), (1, s("1.5")));
    assert_eq!(m.values[1].key, s("a"));
    assert!(m.values[1].labels.is_empty());
    assert!(m.values[1].value.is_none());
}

#[test]
fn mget_malformed_entry_fails() {
    let r = Reply::Array(vec![mget_entry("a", labels_reply(&[]), Reply::Nil)]);
    assert_eq!(decode_mget(&r).unwrap_err(), TsError::ReplyShapeMismatch);
    let r = Reply::Array(vec![Reply::Array(vec![bulk("a")])]);
    assert_eq!(decode_mget(&r).unwrap_err(), TsError::ReplyShapeMismatch);
}

#[test]
fn mrange_preserves_server_key_order() {
    let r = Reply::Array(vec![
        mget_entry("b", labels_reply(&[]), Reply::Array(vec![point_reply(1, "1")])),
        mget_entry("a", labels_reply(&[]), Reply::Array(vec![])),
        mget_entry("c", labels_reply(&[]), Reply::Array(vec![point_reply(2, "2")])),
    ]);
    let m = decode_mrange(&r).unwrap();
    let keys: Vec<String> = m.values.iter().map(|e| e.key.clone()).collect();
    assert_eq!(keys, vec![s("b"), s("a"), s("c")]);
    assert_eq!(m.values[0].values.len(), 1);
    assert!(m.values[1].values.is_empty());
    assert_eq!(m.values[2].values[0].ts, 2);
}

#[test]
fn mrange_malformed_entry_fails() {
    let r = Reply::Array(vec![mget_entry("a", labels_reply(&[]), Reply::Nil)]);
    assert_eq!(decode_mrange(&r).unwrap_err(), TsError::ReplyShapeMismatch);
}

#[test]
fn index_keys_decode_in_order() {
    let r = Reply::Array(vec![bulk("k2"), bulk("k1")]);
    assert_eq!(decode_index_keys(&r).unwrap(), vec![s("k2"), s("k1")]);
}

#[test]
fn index_keys_malformed_fails() {
    let r = Reply::Array(vec![bulk("k2"), Reply::Integer(1)]);
    assert_eq!(decode_index_keys(&r).unwrap_err(), TsError::ReplyShapeMismatch);
}

#[test]
fn info_nil_duplicate_policy_is_unset() {
    let r = Reply::Array(vec![bulk("duplicatePolicy"), Reply::Nil]);
    let info = decode_info(&r).unwrap();
    assert_eq!(info.duplicate_policy, None);
}

#[test]
fn info_later_field_occurrence_wins() {
    let r = Reply::Array(vec![
        bulk("totalSamples"),
        Reply::Integer(1),
        bulk("totalSamples"),
        Reply::Integer(2),
    ]);
    let info = decode_info(&r).unwrap();
    assert_eq!(info.total_samples, 2);
}

#[test]
fn mget_one_element_payload_fails() {
    let r = Reply::Array(vec![mget_entry(
        "a",
        labels_reply(&[]),
        Reply::Array(vec![Reply::Integer(1)]),
    )]);
    assert_eq!(decode_mget(&r).unwrap_err(), TsError::ReplyShapeMismatch);
}
