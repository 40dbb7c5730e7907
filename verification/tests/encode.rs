use redis_ts::TsError;
use redis_ts::aggregation::TsAggregationType;
use redis_ts::commands;
use redis_ts::filter::TsFilterOptions;
use redis_ts::options::{TsDuplicatePolicy, TsOptions};
use redis_ts::range::{TsAlign, TsRangeQuery, TsTimeBound};

fn s(x: &str) -> String {
    String::from(x)
}

fn toks(v: &[&str]) -> Vec<String> {
    v.iter().map(|x| String::from(*x)).collect()
}

#[test]
fn round_trip_configuration_tokens() {
    let o = TsOptions::default()
        .retention_time(60000)
        .label(s("sensor"), s("a"))
        .duplicate_policy(TsDuplicatePolicy::Last)
        .uncompressed(true);
    assert_eq!(
        o.tokens(),
        toks(&["RETENTION", "60000", "DUPLICATE_POLICY", "last", "UNCOMPRESSED", "LABELS", "sensor", "a"])
    );
}

#[test]
fn only_duplicate_policy_emits_one_field() {
    let o = TsOptions::default().duplicate_policy(TsDuplicatePolicy::Min);
    assert_eq!(o.tokens(), toks(&["DUPLICATE_POLICY", "min"]));
}

#[test]
fn all_unset_emits_nothing() {
    assert_eq!(TsOptions::default().tokens(), Vec::<String>::new());
}

#[test]
fn uncompressed_false_emits_nothing() {
    let o = TsOptions::default().uncompressed(false);
    assert_eq!(o.tokens(), Vec::<String>::new());
}

#[test]
fn field_order_is_fixed() {
    let o = TsOptions::default()
        .chunk_size(4096)
        .label(s("l"), s("v"))
        .retention_time(7)
        .duplicate_policy(TsDuplicatePolicy::Block);
    assert_eq!(
        o.tokens(),
        toks(&["RETENTION", "7", "CHUNK_SIZE", "4096", "DUPLICATE_POLICY", "block", "LABELS", "l", "v"])
    );
}

#[test]
fn label_last_write_wins() {
    let o = TsOptions::default()
        .label(s("a"), s("1"))
        .label(s("b"), s("2"))
        .label(s("a"), s("3"));
    assert_eq!(o.tokens(), toks(&["LABELS", "b", "2", "a", "3"]));
}

#[test]
fn alter_omits_uncompressed_flag() {
    let o = TsOptions::default().retention_time(5).uncompressed(true);
    assert_eq!(o.alter_tokens(), toks(&["RETENTION", "5"]));
    let c = commands::ts_alter("k", &o);
    assert_eq!(c.name, s("TS.ALTER"));
    assert_eq!(c.args, toks(&["k", "RETENTION", "5"]));
}

#[test]
fn create_command_tokens() {
    let o = TsOptions::default().retention_time(10);
    let c = commands::ts_create("my_ts", &o);
    assert_eq!(c.name, s("TS.CREATE"));
    assert_eq!(c.args, toks(&["my_ts", "RETENTION", "10"]));
}

#[test]
fn aggregation_pair_is_atomic() {
    let c = commands::ts_createrule("src_ts", "dst_ts", &TsAggregationType::Avg(5000));
    assert_eq!(c.name, s("TS.CREATERULE"));
    assert_eq!(c.args, toks(&["src_ts", "dst_ts", "AGGREGATION", "AVG", "5000"]));
}

#[test]
fn aggregation_mnemonics() {
    let cases: Vec<(TsAggregationType, &str)> = vec![
        (TsAggregationType::Avg(1), "AVG"),
        (TsAggregationType::Sum(1), "SUM"),
        (TsAggregationType::Min(1), "MIN"),
        (TsAggregationType::Max(1), "MAX"),
        (TsAggregationType::Range(1), "RANGE"),
        (TsAggregationType::Count(1), "COUNT"),
        (TsAggregationType::First(1), "FIRST"),
        (TsAggregationType::Last(1), "LAST"),
        (TsAggregationType::StdP(1), "STD.P"),
        (TsAggregationType::StdS(1), "STD.S"),
        (TsAggregationType::VarP(1), "VAR.P"),
        (TsAggregationType::VarS(1), "VAR.S"),
        (TsAggregationType::Twa(1), "TWA"),
    ];
    for (a, name) in cases {
        let c = commands::ts_createrule("a", "b", &a);
        assert_eq!(c.args, toks(&["a", "b", "AGGREGATION", name, "1"]));
    }
}

#[test]
fn deleterule_tokens() {
    let c = commands::ts_deleterule("a", "b");
    assert_eq!(c.name, s("TS.DELETERULE"));
    assert_eq!(c.args, toks(&["a", "b"]));
}

#[test]
fn filter_predicate_wire_forms() {
    let f = TsFilterOptions::default()
        .equals(s("a"), s("1"))
        .not_equals(s("b"), s("2"))
        .label_exists(s("c"))
        .label_absent(s("d"))
        .in_set(s("e"), vec![s("x"), s("y")])
        .not_in_set(s("f"), vec![s("x")]);
    assert_eq!(
        f.get_filters(),
        toks(&["a=1", "b!=2", "c=", "d!=", "e=(x,y)", "f!=(x)"])
    );
}

#[test]
fn filter_flags_follow_predicates() {
    let f = TsFilterOptions::default()
        .equals(s("a"), s("1"))
        .with_labels(true)
        .selected_labels(vec![s("l1"), s("l2")])
        .count(10);
    assert_eq!(
        f.to_tokens().unwrap(),
        toks(&["a=1", "WITHLABELS", "SELECTED_LABELS", "l1", "l2", "COUNT", "10"])
    );
}

#[test]
fn empty_filter_is_rejected_everywhere() {
    let f = TsFilterOptions::default();
    assert_eq!(f.to_tokens().unwrap_err(), TsError::EmptyFilter);
    let f = TsFilterOptions::default();
    assert_eq!(commands::ts_mget(&f).unwrap_err(), TsError::EmptyFilter);
    let q = TsRangeQuery::default();
    assert_eq!(
        commands::ts_mrange(&q, &TsFilterOptions::default()).unwrap_err(),
        TsError::EmptyFilter
    );
    let q = TsRangeQuery::default();
    assert_eq!(
        commands::ts_mrevrange(&q, &TsFilterOptions::default()).unwrap_err(),
        TsError::EmptyFilter
    );
    assert_eq!(
        commands::ts_queryindex(&TsFilterOptions::default()).unwrap_err(),
        TsError::EmptyFilter
    );
}

#[test]
fn range_query_default_sentinels() {
    let q = TsRangeQuery::default();
    assert_eq!(q.tokens(), toks(&["-", "+"]));
}

#[test]
fn range_query_full_tokens() {
    let q = TsRangeQuery::default()
        .from(TsTimeBound::Value(10))
        .to(TsTimeBound::Value(200))
        .count(5)
        .filter_by_value(s("1.5"), s("3"))
        .align(TsAlign::End)
        .aggregation(TsAggregationType::Max(60));
    assert_eq!(
        q.tokens(),
        toks(&["10", "200", "COUNT", "5", "FILTER_BY_VALUE", "1.5", "3", "ALIGN", "+", "AGGREGATION", "MAX", "60"])
    );
}

#[test]
fn range_and_revrange_share_one_encoder() {
    let q = TsRangeQuery::default().from(TsTimeBound::Value(1)).to(TsTimeBound::Latest);
    let c = commands::ts_range("k", &q);
    assert_eq!(c.name, s("TS.RANGE"));
    assert_eq!(c.args, toks(&["k", "1", "+"]));
    let q = TsRangeQuery::default().from(TsTimeBound::Value(1)).to(TsTimeBound::Latest);
    let c = commands::ts_revrange("k", &q);
    assert_eq!(c.name, s("TS.REVRANGE"));
    assert_eq!(c.args, toks(&["k", "1", "+"]));
}

#[test]
fn mrange_appends_filter_after_range() {
    let q = TsRangeQuery::default().count(2);
    let f = TsFilterOptions::default().equals(s("sensor"), s("a"));
    let c = commands::ts_mrange(&q, &f).unwrap();
    assert_eq!(c.name, s("TS.MRANGE"));
    assert_eq!(c.args, toks(&["-", "+", "COUNT", "2", "sensor=a"]));
}

#[test]
fn queryindex_takes_predicates_only() {
    let f = TsFilterOptions::default().equals(s("sensor"), s("a")).with_labels(true);
    let c = commands::ts_queryindex(&f).unwrap();
    assert_eq!(c.name, s("TS.QUERYINDEX"));
    assert_eq!(c.args, toks(&["sensor=a"]));
}

#[test]
fn add_with_auto_create_scenario() {
    let o = TsOptions::default().retention_time(3600000);
    let c = commands::ts_add_create("temp", 1000, "21.5", &o);
    assert_eq!(c.name, s("TS.ADD"));
    assert_eq!(c.args, toks(&["temp", "1000", "21.5", "RETENTION", "3600000"]));
    assert_eq!(
        c.tokens(),
        toks(&["TS.ADD", "temp", "1000", "21.5", "RETENTION", "3600000"])
    );
}

#[test]
fn add_tokens() {
    let c = commands::ts_add("k", 42, "7");
    assert_eq!(c.name, s("TS.ADD"));
    assert_eq!(c.args, toks(&["k", "42", "7"]));
}

#[test]
fn add_now_uses_server_time_sentinel() {
    let c = commands::ts_add_now("k", "7");
    assert_eq!(c.name, s("TS.ADD"));
    assert_eq!(c.args, toks(&["k", "*", "7"]));
}

#[test]
fn madd_flattens_triples() {
    let values = vec![(s("k1"), 1u64, s("1.0")), (s("k2"), 2u64, s("2.0"))];
    let c = commands::ts_madd(&values);
    assert_eq!(c.name, s("TS.MADD"));
    assert_eq!(c.args, toks(&["k1", "1", "1.0", "k2", "2", "2.0"]));
}

#[test]
fn incrby_and_decrby_token_order() {
    let c = commands::ts_incrby_now("k", "3");
    assert_eq!((c.name, c.args), (s("TS.INCRBY"), toks(&["k", "3"])));
    let c = commands::ts_incrby("k", 123, "3");
    assert_eq!((c.name, c.args), (s("TS.INCRBY"), toks(&["k", "3", "TIMESTAMP", "123"])));
    let o = TsOptions::default().retention_time(9);
    let c = commands::ts_incrby_create("k", 123, "3", &o);
    assert_eq!(
        (c.name, c.args),
        (s("TS.INCRBY"), toks(&["k", "3", "TIMESTAMP", "123", "RETENTION", "9"]))
    );
    let c = commands::ts_decrby_now("k", "3");
    assert_eq!((c.name, c.args), (s("TS.DECRBY"), toks(&["k", "3"])));
    let c = commands::ts_decrby("k", 123, "3");
    assert_eq!((c.name, c.args), (s("TS.DECRBY"), toks(&["k", "3", "TIMESTAMP", "123"])));
    let o = TsOptions::default().retention_time(9);
    let c = commands::ts_decrby_create("k", 123, "3", &o);
    assert_eq!(
        (c.name, c.args),
        (s("TS.DECRBY"), toks(&["k", "3", "TIMESTAMP", "123", "RETENTION", "9"]))
    );
}

#[test]
fn info_and_get_commands() {
    let c = commands::ts_info("k");
    assert_eq!((c.name, c.args), (s("TS.INFO"), toks(&["k"])));
    let c = commands::ts_get("k");
    assert_eq!((c.name, c.args), (s("TS.GET"), toks(&["k"])));
}

#[test]
fn decimal_rendering_of_large_numbers() {
    let c = commands::ts_add("k", u64::MAX, "0");
    assert_eq!(c.args, toks(&["k", "18446744073709551615", "0"]));
    let c = commands::ts_add("k", 0, "0");
    assert_eq!(c.args, toks(&["k", "0", "0"]));
}

#[test]
fn in_set_with_no_values_renders_empty_parens() {
    let f = TsFilterOptions::default().in_set(s("e"), vec![]);
    assert_eq!(f.get_filters(), toks(&["e=()"]));
}

#[test]
fn in_set_with_one_value_has_no_comma() {
    let f = TsFilterOptions::default().in_set(s("e"), vec![s("x")]);
    assert_eq!(f.get_filters(), toks(&["e=(x)"]));
}

#[test]
fn align_variants() {
    let q = TsRangeQuery::default().align(TsAlign::Start);
    assert_eq!(q.tokens(), toks(&["-", "+", "ALIGN", "-"]));
    let q = TsRangeQuery::default().align(TsAlign::Timestamp(250));
    assert_eq!(q.tokens(), toks(&["-", "+", "ALIGN", "250"]));
}
