//! The multi-series decoders: a multi-get reply maps each matched series to
//! its latest point, a multi-range reply to its point sequence. Each entry
//! carries the series key and its labels; the entries come out in exactly
//! the reply's order, never re-sorted, and a series with no matching data
//! keeps its entry with an empty payload.

use vstd::prelude::*;

use crate::TsError;
use crate::options::labels_view;
use crate::reply::{
    Reply, TsPoint, decode_labels, decode_point, points_view, spec_labels_of, spec_point,
    spec_points_of,
};

verus! {

/// One multi-get entry: a series key, its labels, and its latest point if
/// the series holds one.
#[derive(Debug)]
pub struct TsMgetEntry {
    pub key: String,
    pub labels: Vec<(String, String)>,
    pub value: Option<TsPoint>,
}

/// A multi-get result, in the reply's series order.
#[derive(Debug)]
pub struct TsMget {
    pub values: Vec<TsMgetEntry>,
}

/// One multi-range entry: a series key, its labels, and its points in reply
/// order.
#[derive(Debug)]
pub struct TsMrangeEntry {
    pub key: String,
    pub labels: Vec<(String, String)>,
    pub values: Vec<TsPoint>,
}

/// A multi-range result, in the reply's series order.
#[derive(Debug)]
pub struct TsMrange {
    pub values: Vec<TsMrangeEntry>,
}

/// The mathematical image of a multi-get entry.
pub open spec fn mget_entry_view(e: TsMgetEntry) -> (
    Seq<char>,
    Seq<(Seq<char>, Seq<char>)>,
    Option<(i64, Seq<char>)>,
) {
    (
        e.key@,
        labels_view(e.labels@),
        match e.value {
            Some(p) => Some((p.ts, p.value@)),
            None => None,
        },
    )
}

/// The views of a multi-get entry list.
pub open spec fn mget_entries_view(es: Seq<TsMgetEntry>) -> Seq<
    (Seq<char>, Seq<(Seq<char>, Seq<char>)>, Option<(i64, Seq<char>)>),
> {
    Seq::new(es.len(), |i: int| mget_entry_view(es[i]))
}

/// The mathematical image of a multi-range entry.
pub open spec fn mrange_entry_view(e: TsMrangeEntry) -> (
    Seq<char>,
    Seq<(Seq<char>, Seq<char>)>,
    Seq<(i64, Seq<char>)>,
) {
    (e.key@, labels_view(e.labels@), points_view(e.values@))
}

/// The views of a multi-range entry list.
pub open spec fn mrange_entries_view(es: Seq<TsMrangeEntry>) -> Seq<
    (Seq<char>, Seq<(Seq<char>, Seq<char>)>, Seq<(i64, Seq<char>)>),
> {
    Seq::new(es.len(), |i: int| mrange_entry_view(es[i]))
}

/// What a multi-get payload means: an empty array is "no value" — the entry
/// is kept — a well-formed point is the latest point, anything else is a
/// mismatch.
pub open spec fn spec_mget_payload(r: Reply) -> Result<Option<(i64, Seq<char>)>, TsError> {
    match r {
        Reply::Array(items) => if items@.len() == 0 {
            Ok(None)
        } else {
            match spec_point(r) {
                Some(p) => Ok(Some(p)),
                None => Err(TsError::ReplyShapeMismatch),
            }
        },
        _ => Err(TsError::ReplyShapeMismatch),
    }
}

/// What one multi-get entry means: `[key, labels, payload]`.
pub open spec fn spec_mget_entry(r: Reply) -> Result<
    (Seq<char>, Seq<(Seq<char>, Seq<char>)>, Option<(i64, Seq<char>)>),
    TsError,
> {
    match r {
        Reply::Array(items) => if items@.len() == 3 {
            match items@[0] {
                Reply::Bulk(k) => match spec_labels_of(items@[1]) {
                    Ok(ls) => match spec_mget_payload(items@[2]) {
                        Ok(p) => Ok((k@, ls, p)),
                        Err(e) => Err(e),
                    },
                    Err(e) => Err(e),
                },
                _ => Err(TsError::ReplyShapeMismatch),
            }
        } else {
            Err(TsError::ReplyShapeMismatch)
        },
        _ => Err(TsError::ReplyShapeMismatch),
    }
}

/// The entries of a multi-get body, in order; the first malformed entry's
/// error.
pub open spec fn spec_mget_entries(items: Seq<Reply>) -> Result<
    Seq<(Seq<char>, Seq<(Seq<char>, Seq<char>)>, Option<(i64, Seq<char>)>)>,
    TsError,
>
    decreases items.len(),
{
    if items.len() == 0 {
        Ok(Seq::empty())
    } else {
        match spec_mget_entries(items.drop_last()) {
            Ok(s) => match spec_mget_entry(items.last()) {
                Ok(e) => Ok(s.push(e)),
                Err(e) => Err(e),
            },
            Err(e) => Err(e),
        }
    }
}

/// What a multi-get reply means: an array of entries, in array order.
pub open spec fn spec_mget(r: Reply) -> Result<
    Seq<(Seq<char>, Seq<(Seq<char>, Seq<char>)>, Option<(i64, Seq<char>)>)>,
    TsError,
> {
    match r {
        Reply::Array(items) => spec_mget_entries(items@),
        _ => Err(TsError::ReplyShapeMismatch),
    }
}

/// What one multi-range entry means: `[key, labels, points]`.
pub open spec fn spec_mrange_entry(r: Reply) -> Result<
    (Seq<char>, Seq<(Seq<char>, Seq<char>)>, Seq<(i64, Seq<char>)>),
    TsError,
> {
    match r {
        Reply::Array(items) => if items@.len() == 3 {
            match items@[0] {
                Reply::Bulk(k) => match spec_labels_of(items@[1]) {
                    Ok(ls) => match items@[2] {
                        Reply::Array(ps) => match spec_points_of(ps@) {
                            Some(pts) => Ok((k@, ls, pts)),
                            None => Err(TsError::ReplyShapeMismatch),
                        },
                        _ => Err(TsError::ReplyShapeMismatch),
                    },
                    Err(e) => Err(e),
                },
                _ => Err(TsError::ReplyShapeMismatch),
            }
        } else {
            Err(TsError::ReplyShapeMismatch)
        },
        _ => Err(TsError::ReplyShapeMismatch),
    }
}

/// The entries of a multi-range body, in order; the first malformed
/// entry's error.
pub open spec fn spec_mrange_entries(items: Seq<Reply>) -> Result<
    Seq<(Seq<char>, Seq<(Seq<char>, Seq<char>)>, Seq<(i64, Seq<char>)>)>,
    TsError,
>
    decreases items.len(),
{
    if items.len() == 0 {
        Ok(Seq::empty())
    } else {
        match spec_mrange_entries(items.drop_last()) {
            Ok(s) => match spec_mrange_entry(items.last()) {
                Ok(e) => Ok(s.push(e)),
                Err(e) => Err(e),
            },
            Err(e) => Err(e),
        }
    }
}

/// What a multi-range reply means: an array of entries, in array order.
pub open spec fn spec_mrange(r: Reply) -> Result<
    Seq<(Seq<char>, Seq<(Seq<char>, Seq<char>)>, Seq<(i64, Seq<char>)>)>,
    TsError,
> {
    match r {
        Reply::Array(items) => spec_mrange_entries(items@),
        _ => Err(TsError::ReplyShapeMismatch),
    }
}

/// Law: the decoded multi-range entries stand in exactly the reply's order —
/// the i-th decoded entry is the decoding of the i-th reply entry, key
/// included, never re-sorted.
pub proof fn lemma_mrange_order(items: Seq<Reply>, out: Seq<
    (Seq<char>, Seq<(Seq<char>, Seq<char>)>, Seq<(i64, Seq<char>)>),
>)
    requires
        spec_mrange_entries(items) == Ok::<_, TsError>(out),
    ensures
        out.len() == items.len(),
        forall|i: int|
            0 <= i < items.len() ==> spec_mrange_entry(items[i]) == Ok::<_, TsError>(#[trigger] out[i]),
    decreases items.len(),
{
    if items.len() > 0 {
        let prev = spec_mrange_entries(items.drop_last());
        match prev {
            Ok(s) => {
                lemma_mrange_order(items.drop_last(), s);
                assert(forall|i: int|
                    0 <= i < items.len() - 1 ==> items.drop_last()[i] == items[i]);
            },
            Err(_) => {
                assert(false);
            },
        }
    }
}

proof fn lemma_mget_entries_poisoned(items: Seq<Reply>, i: int, e: TsError)
    requires
        0 <= i < items.len(),
        spec_mget_entries(items.take(i)) is Ok,
        spec_mget_entry(items[i]) == Err::<
            (Seq<char>, Seq<(Seq<char>, Seq<char>)>, Option<(i64, Seq<char>)>),
            _,
        >(e),
    ensures
        spec_mget_entries(items) == Err::<
            Seq<(Seq<char>, Seq<(Seq<char>, Seq<char>)>, Option<(i64, Seq<char>)>)>,
            _,
        >(e),
    decreases items.len(),
{
    if i == items.len() - 1 {
        assert(items.take(i) =~= items.drop_last());
    } else {
        assert(items.drop_last().take(i) =~= items.take(i));
        assert(items.drop_last()[i] == items[i]);
        lemma_mget_entries_poisoned(items.drop_last(), i, e);
    }
}

proof fn lemma_mrange_entries_poisoned(items: Seq<Reply>, i: int, e: TsError)
    requires
        0 <= i < items.len(),
        spec_mrange_entries(items.take(i)) is Ok,
        spec_mrange_entry(items[i]) == Err::<
            (Seq<char>, Seq<(Seq<char>, Seq<char>)>, Seq<(i64, Seq<char>)>),
            _,
        >(e),
    ensures
        spec_mrange_entries(items) == Err::<
            Seq<(Seq<char>, Seq<(Seq<char>, Seq<char>)>, Seq<(i64, Seq<char>)>)>,
            _,
        >(e),
    decreases items.len(),
{
    if i == items.len() - 1 {
        assert(items.take(i) =~= items.drop_last());
    } else {
        assert(items.drop_last().take(i) =~= items.take(i));
        assert(items.drop_last()[i] == items[i]);
        lemma_mrange_entries_poisoned(items.drop_last(), i, e);
    }
}

fn decode_mget_payload(r: &Reply) -> (out: Result<Option<TsPoint>, TsError>)
    ensures
        match out {
            Ok(Some(p)) => spec_mget_payload(*r) == Ok::<_, TsError>(
                Some((p.ts, p.value@)),
            ),
            Ok(None) => spec_mget_payload(*r) == Ok::<Option<(i64, Seq<char>)>, TsError>(None),
            Err(e) => spec_mget_payload(*r) == Err::<Option<(i64, Seq<char>)>, _>(e),
        },
{
    match r {
        Reply::Array(items) => {
            if items.len() == 0 {
                Ok(None)
            } else {
                match decode_point(r) {
                    Some(p) => Ok(Some(p)),
                    None => Err(TsError::ReplyShapeMismatch),
                }
            }
        },
        _ => Err(TsError::ReplyShapeMismatch),
    }
}

fn decode_mget_entry(r: &Reply) -> (out: Result<TsMgetEntry, TsError>)
    ensures
        match out {
            Ok(e) => spec_mget_entry(*r) == Ok::<_, TsError>(mget_entry_view(e)),
            Err(e) => spec_mget_entry(*r) == Err::<
                (Seq<char>, Seq<(Seq<char>, Seq<char>)>, Option<(i64, Seq<char>)>),
                _,
            >(e),
        },
{
    match r {
        Reply::Array(items) => {
            if items.len() == 3 {
                let key: String = match &items[0] {
                    Reply::Bulk(k) => k.clone(),
                    _ => {
                        return Err(TsError::ReplyShapeMismatch);
                    },
                };
                let labels = match decode_labels(&items[1]) {
                    Ok(ls) => ls,
                    Err(e) => {
                        return Err(e);
                    },
                };
                match decode_mget_payload(&items[2]) {
                    Ok(value) => Ok(TsMgetEntry { key, labels, value }),
                    Err(e) => Err(e),
                }
            } else {
                Err(TsError::ReplyShapeMismatch)
            }
        },
        _ => Err(TsError::ReplyShapeMismatch),
    }
}

fn decode_mrange_entry(r: &Reply) -> (out: Result<TsMrangeEntry, TsError>)
    ensures
        match out {
            Ok(e) => spec_mrange_entry(*r) == Ok::<_, TsError>(mrange_entry_view(e)),
            Err(e) => spec_mrange_entry(*r) == Err::<
                (Seq<char>, Seq<(Seq<char>, Seq<char>)>, Seq<(i64, Seq<char>)>),
                _,
            >(e),
        },
{
    match r {
        Reply::Array(items) => {
            if items.len() == 3 {
                let key: String = match &items[0] {
                    Reply::Bulk(k) => k.clone(),
                    _ => {
                        return Err(TsError::ReplyShapeMismatch);
                    },
                };
                let labels = match decode_labels(&items[1]) {
                    Ok(ls) => ls,
                    Err(e) => {
                        return Err(e);
                    },
                };
                match &items[2] {
                    Reply::Array(_) => {},
                    _ => {
                        return Err(TsError::ReplyShapeMismatch);
                    },
                }
                match crate::reply::decode_range(&items[2]) {
                    Ok(values) => Ok(TsMrangeEntry { key, labels, values }),
                    Err(e) => Err(e),
                }
            } else {
                Err(TsError::ReplyShapeMismatch)
            }
        },
        _ => Err(TsError::ReplyShapeMismatch),
    }
}

/// Decodes a multi-get reply: one entry per matched series, in the reply's
/// order, each with its key, labels and latest point — or no point, for a
/// series with no data.
#[verifier::loop_isolation(false)]
pub fn decode_mget(r: &Reply) -> (out: Result<TsMget, TsError>)
    ensures
        match out {
            Ok(m) => spec_mget(*r) == Ok::<_, TsError>(mget_entries_view(m.values@)),
            Err(e) => spec_mget(*r) == Err::<
                Seq<(Seq<char>, Seq<(Seq<char>, Seq<char>)>, Option<(i64, Seq<char>)>)>,
                _,
            >(e),
        },
{
    match r {
        Reply::Array(items) => {
            let mut es: Vec<TsMgetEntry> = Vec::new();
            proof {
                assert(mget_entries_view(es@) =~= Seq::<
                    (Seq<char>, Seq<(Seq<char>, Seq<char>)>, Option<(i64, Seq<char>)>),
                >::empty());
                assert(items@.take(0) =~= Seq::<Reply>::empty());
            }
            let mut i: usize = 0;
            while i < items.len()
                invariant
                    i <= items@.len(),
                    spec_mget_entries(items@.take(i as int)) == Ok::<_, TsError>(
                        mget_entries_view(es@),
                    ),
                decreases items@.len() - i,
            {
                match decode_mget_entry(&items[i]) {
                    Ok(e) => {
                        let ghost ev = mget_entry_view(e);
                        let ghost pre = es@;
                        es.push(e);
                        proof {
                            let t1 = items@.take(i + 1);
                            assert(es@.drop_last() =~= pre);
                            assert(t1.drop_last() =~= items@.take(i as int));
                            assert(t1.last() == items@[i as int]);
                            assert(mget_entries_view(es@) =~= mget_entries_view(pre).push(ev));
                        }
                    },
                    Err(e) => {
                        proof {
                            lemma_mget_entries_poisoned(items@, i as int, e);
                        }
                        return Err(e);
                    },
                }
                i += 1;
            }
            proof {
                assert(items@.take(items@.len() as int) =~= items@);
            }
            Ok(TsMget { values: es })
        },
        _ => Err(TsError::ReplyShapeMismatch),
    }
}

/// Decodes a multi-range reply: one entry per matched series, in the
/// reply's order, each with its key, labels and points. A series with no
/// matching data keeps its entry with an empty point list.
#[verifier::loop_isolation(false)]
pub fn decode_mrange(r: &Reply) -> (out: Result<TsMrange, TsError>)
    ensures
        match out {
            Ok(m) => spec_mrange(*r) == Ok::<_, TsError>(mrange_entries_view(m.values@)),
            Err(e) => spec_mrange(*r) == Err::<
                Seq<(Seq<char>, Seq<(Seq<char>, Seq<char>)>, Seq<(i64, Seq<char>)>)>,
                _,
            >(e),
        },
{
    match r {
        Reply::Array(items) => {
            let mut es: Vec<TsMrangeEntry> = Vec::new();
            proof {
                assert(mrange_entries_view(es@) =~= Seq::<
                    (Seq<char>, Seq<(Seq<char>, Seq<char>)>, Seq<(i64, Seq<char>)>),
                >::empty());
                assert(items@.take(0) =~= Seq::<Reply>::empty());
            }
            let mut i: usize = 0;
            while i < items.len()
                invariant
                    i <= items@.len(),
                    spec_mrange_entries(items@.take(i as int)) == Ok::<_, TsError>(
                        mrange_entries_view(es@),
                    ),
                decreases items@.len() - i,
            {
                match decode_mrange_entry(&items[i]) {
                    Ok(e) => {
                        let ghost ev = mrange_entry_view(e);
                        let ghost pre = es@;
                        es.push(e);
                        proof {
                            let t1 = items@.take(i + 1);
                            assert(es@.drop_last() =~= pre);
                            assert(t1.drop_last() =~= items@.take(i as int));
                            assert(t1.last() == items@[i as int]);
                            assert(mrange_entries_view(es@) =~= mrange_entries_view(pre).push(ev));
                        }
                    },
                    Err(e) => {
                        proof {
                            lemma_mrange_entries_poisoned(items@, i as int, e);
                        }
                        return Err(e);
                    },
                }
                i += 1;
            }
            proof {
                assert(items@.take(items@.len() as int) =~= items@);
            }
            Ok(TsMrange { values: es })
        },
        _ => Err(TsError::ReplyShapeMismatch),
    }
}

} // verus!
