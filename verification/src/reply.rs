//! The transport's generic reply representation and the decoders of the
//! simple reply shapes: a single point, a single-series range, a label list
//! and a key list. The single-point decoder is deliberately tolerant — a nil
//! or malformed reply means "no value" — while the others fail loudly on a
//! shape mismatch.

use vstd::prelude::*;

use crate::TsError;
use crate::options::labels_view;

verus! {

/// The transport's untyped reply value: nil, an integer, a bulk string, or
/// a nested array of replies.
#[derive(Debug)]
pub enum Reply {
    Nil,
    Integer(i64),
    Bulk(String),
    Array(Vec<Reply>),
}

/// A single sample: a timestamp and the wire text of its value.
#[derive(Debug)]
pub struct TsPoint {
    pub ts: i64,
    pub value: String,
}

/// The views of a point list, in list order.
pub open spec fn points_view(ps: Seq<TsPoint>) -> Seq<(i64, Seq<char>)> {
    Seq::new(ps.len(), |i: int| (ps[i].ts, ps[i].value@))
}

/// What a single-point lookup reply means: a well-formed two-element
/// `[timestamp, value]` array is a point, and everything else — nil
/// included — is "no value".
pub open spec fn spec_point(r: Reply) -> Option<(i64, Seq<char>)> {
    match r {
        Reply::Array(items) => if items@.len() == 2 {
            match (items@[0], items@[1]) {
                (Reply::Integer(ts), Reply::Bulk(v)) => Some((ts, v@)),
                _ => None,
            }
        } else {
            None
        },
        _ => None,
    }
}

/// Law: the single-point decoding is tolerant — it yields a point exactly
/// for a two-element `[integer, bulk-string]` array, and "no value" for nil
/// and every other shape.
pub proof fn lemma_point_decode_tolerant(r: Reply)
    ensures
        spec_point(r) is Some <==> (r matches Reply::Array(items) && (items@.len() == 2 && (
        items@[0] matches Reply::Integer(_)) && (items@[1] matches Reply::Bulk(_)))),
        spec_point(Reply::Nil) is None,
{
}

/// The points of a range reply body, or nothing if any entry is malformed.
pub open spec fn spec_points_of(items: Seq<Reply>) -> Option<Seq<(i64, Seq<char>)>>
    decreases items.len(),
{
    if items.len() == 0 {
        Some(Seq::empty())
    } else {
        match (spec_points_of(items.drop_last()), spec_point(items.last())) {
            (Some(s), Some(p)) => Some(s.push(p)),
            _ => None,
        }
    }
}

/// What a single-series range reply means: an array of two-element entries,
/// in array order; an empty array is an empty range, any other shape is a
/// mismatch.
pub open spec fn spec_range_points(r: Reply) -> Result<Seq<(i64, Seq<char>)>, TsError> {
    match r {
        Reply::Array(items) => match spec_points_of(items@) {
            Some(s) => Ok(s),
            None => Err(TsError::ReplyShapeMismatch),
        },
        _ => Err(TsError::ReplyShapeMismatch),
    }
}

/// One label pair of a reply: a two-element `[name, value]` array of bulk
/// strings.
pub open spec fn spec_label_pair(r: Reply) -> Option<(Seq<char>, Seq<char>)> {
    match r {
        Reply::Array(items) => if items@.len() == 2 {
            match (items@[0], items@[1]) {
                (Reply::Bulk(n), Reply::Bulk(v)) => Some((n@, v@)),
                _ => None,
            }
        } else {
            None
        },
        _ => None,
    }
}

/// The label pairs of a label-list body, or nothing if any entry is
/// malformed.
pub open spec fn spec_label_pairs_of(items: Seq<Reply>) -> Option<Seq<(Seq<char>, Seq<char>)>>
    decreases items.len(),
{
    if items.len() == 0 {
        Some(Seq::empty())
    } else {
        match (spec_label_pairs_of(items.drop_last()), spec_label_pair(items.last())) {
            (Some(s), Some(p)) => Some(s.push(p)),
            _ => None,
        }
    }
}

/// What a label-list reply means: an array of name/value pairs, in array
/// order.
pub open spec fn spec_labels_of(r: Reply) -> Result<Seq<(Seq<char>, Seq<char>)>, TsError> {
    match r {
        Reply::Array(items) => match spec_label_pairs_of(items@) {
            Some(s) => Ok(s),
            None => Err(TsError::ReplyShapeMismatch),
        },
        _ => Err(TsError::ReplyShapeMismatch),
    }
}

/// The key strings of an index reply body, or nothing if an entry is not a
/// bulk string.
pub open spec fn spec_keys_of(items: Seq<Reply>) -> Option<Seq<Seq<char>>>
    decreases items.len(),
{
    if items.len() == 0 {
        Some(Seq::empty())
    } else {
        match (spec_keys_of(items.drop_last()), items.last()) {
            (Some(s), Reply::Bulk(k)) => Some(s.push(k@)),
            _ => None,
        }
    }
}

/// What an index-query reply means: an array of bulk-string keys, in array
/// order.
pub open spec fn spec_index_keys(r: Reply) -> Result<Seq<Seq<char>>, TsError> {
    match r {
        Reply::Array(items) => match spec_keys_of(items@) {
            Some(s) => Ok(s),
            None => Err(TsError::ReplyShapeMismatch),
        },
        _ => Err(TsError::ReplyShapeMismatch),
    }
}

proof fn lemma_points_of_poisoned(items: Seq<Reply>, i: int)
    requires
        0 <= i < items.len(),
        spec_point(items[i]) is None,
    ensures
        spec_points_of(items) is None,
    decreases items.len(),
{
    if i == items.len() - 1 {
    } else {
        lemma_points_of_poisoned(items.drop_last(), i);
    }
}

proof fn lemma_label_pairs_poisoned(items: Seq<Reply>, i: int)
    requires
        0 <= i < items.len(),
        spec_label_pair(items[i]) is None,
    ensures
        spec_label_pairs_of(items) is None,
    decreases items.len(),
{
    if i == items.len() - 1 {
    } else {
        lemma_label_pairs_poisoned(items.drop_last(), i);
    }
}

proof fn lemma_keys_poisoned(items: Seq<Reply>, i: int)
    requires
        0 <= i < items.len(),
        !(items[i] matches Reply::Bulk(_)),
    ensures
        spec_keys_of(items) is None,
    decreases items.len(),
{
    if i == items.len() - 1 {
    } else {
        lemma_keys_poisoned(items.drop_last(), i);
    }
}

/// Decodes a single-point lookup reply. A nil reply and any reply that is
/// not a well-formed two-element `[timestamp, value]` array both mean "no
/// value"; they are never an error.
pub fn decode_point(r: &Reply) -> (out: Option<TsPoint>)
    ensures
        match out {
            Some(p) => spec_point(*r) == Some((p.ts, p.value@)),
            None => spec_point(*r) is None,
        },
{
    match r {
        Reply::Array(items) => {
            if items.len() == 2 {
                let ts: i64 = match &items[0] {
                    Reply::Integer(t) => *t,
                    _ => {
                        return None;
                    },
                };
                match &items[1] {
                    Reply::Bulk(v) => Some(TsPoint { ts, value: v.clone() }),
                    _ => None,
                }
            } else {
                None
            }
        },
        _ => None,
    }
}

/// Decodes a single-series range reply into its points, preserving the
/// array order. An empty array decodes to an empty range; a malformed entry
/// or a non-array reply is a shape mismatch.
#[verifier::loop_isolation(false)]
pub fn decode_range(r: &Reply) -> (out: Result<Vec<TsPoint>, TsError>)
    ensures
        match out {
            Ok(ps) => spec_range_points(*r) == Ok::<_, TsError>(points_view(ps@)),
            Err(e) => spec_range_points(*r) == Err::<Seq<(i64, Seq<char>)>, _>(e),
        },
{
    match r {
        Reply::Array(items) => {
            let mut ps: Vec<TsPoint> = Vec::new();
            proof {
                assert(points_view(ps@) =~= Seq::<(i64, Seq<char>)>::empty());
                assert(items@.take(0) =~= Seq::<Reply>::empty());
            }
            let mut i: usize = 0;
            while i < items.len()
                invariant
                    i <= items@.len(),
                    spec_points_of(items@.take(i as int)) == Some(points_view(ps@)),
                decreases items@.len() - i,
            {
                match decode_point(&items[i]) {
                    Some(p) => {
                        let ghost pv = (p.ts, p.value@);
                        ps.push(p);
                        proof {
                            let t1 = items@.take(i + 1);
                            assert(t1.drop_last() =~= items@.take(i as int));
                            assert(t1.last() == items@[i as int]);
                            assert(points_view(ps@) =~= points_view(ps@.drop_last()).push(pv));
                        }
                    },
                    None => {
                        proof {
                            lemma_points_of_poisoned(items@, i as int);
                        }
                        return Err(TsError::ReplyShapeMismatch);
                    },
                }
                i += 1;
            }
            proof {
                assert(items@.take(items@.len() as int) =~= items@);
            }
            Ok(ps)
        },
        _ => Err(TsError::ReplyShapeMismatch),
    }
}

fn decode_label_pair(r: &Reply) -> (out: Option<(String, String)>)
    ensures
        match out {
            Some(p) => spec_label_pair(*r) == Some((p.0@, p.1@)),
            None => spec_label_pair(*r) is None,
        },
{
    match r {
        Reply::Array(items) => {
            if items.len() == 2 {
                let n: String = match &items[0] {
                    Reply::Bulk(n) => n.clone(),
                    _ => {
                        return None;
                    },
                };
                match &items[1] {
                    Reply::Bulk(v) => Some((n, v.clone())),
                    _ => None,
                }
            } else {
                None
            }
        },
        _ => None,
    }
}

/// Decodes a label-list reply into name/value pairs, preserving the array
/// order.
#[verifier::loop_isolation(false)]
pub fn decode_labels(r: &Reply) -> (out: Result<Vec<(String, String)>, TsError>)
    ensures
        match out {
            Ok(ls) => spec_labels_of(*r) == Ok::<_, TsError>(labels_view(ls@)),
            Err(e) => spec_labels_of(*r) == Err::<Seq<(Seq<char>, Seq<char>)>, _>(e),
        },
{
    match r {
        Reply::Array(items) => {
            let mut ls: Vec<(String, String)> = Vec::new();
            proof {
                assert(labels_view(ls@) =~= Seq::<(Seq<char>, Seq<char>)>::empty());
                assert(items@.take(0) =~= Seq::<Reply>::empty());
            }
            let mut i: usize = 0;
            while i < items.len()
                invariant
                    i <= items@.len(),
                    spec_label_pairs_of(items@.take(i as int)) == Some(labels_view(ls@)),
                decreases items@.len() - i,
            {
                match decode_label_pair(&items[i]) {
                    Some(p) => {
                        let ghost pv = (p.0@, p.1@);
                        ls.push(p);
                        proof {
                            let t1 = items@.take(i + 1);
                            assert(t1.drop_last() =~= items@.take(i as int));
                            assert(t1.last() == items@[i as int]);
                            assert(labels_view(ls@) =~= labels_view(ls@.drop_last()).push(pv));
                        }
                    },
                    None => {
                        proof {
                            lemma_label_pairs_poisoned(items@, i as int);
                        }
                        return Err(TsError::ReplyShapeMismatch);
                    },
                }
                i += 1;
            }
            proof {
                assert(items@.take(items@.len() as int) =~= items@);
            }
            Ok(ls)
        },
        _ => Err(TsError::ReplyShapeMismatch),
    }
}

/// The views of a key list.
pub open spec fn keys_view(ks: Seq<String>) -> Seq<Seq<char>> {
    Seq::new(ks.len(), |i: int| ks[i]@)
}

/// Decodes an index-query reply into its series keys, preserving the array
/// order.
#[verifier::loop_isolation(false)]
pub fn decode_index_keys(r: &Reply) -> (out: Result<Vec<String>, TsError>)
    ensures
        match out {
            Ok(ks) => spec_index_keys(*r) == Ok::<_, TsError>(keys_view(ks@)),
            Err(e) => spec_index_keys(*r) == Err::<Seq<Seq<char>>, _>(e),
        },
{
    match r {
        Reply::Array(items) => {
            let mut ks: Vec<String> = Vec::new();
            proof {
                assert(keys_view(ks@) =~= Seq::<Seq<char>>::empty());
                assert(items@.take(0) =~= Seq::<Reply>::empty());
            }
            let mut i: usize = 0;
            while i < items.len()
                invariant
                    i <= items@.len(),
                    spec_keys_of(items@.take(i as int)) == Some(keys_view(ks@)),
                decreases items@.len() - i,
            {
                match &items[i] {
                    Reply::Bulk(k) => {
                        let ghost kv = k@;
                        ks.push(k.clone());
                        proof {
                            let t1 = items@.take(i + 1);
                            assert(t1.drop_last() =~= items@.take(i as int));
                            assert(t1.last() == items@[i as int]);
                            assert(keys_view(ks@) =~= keys_view(ks@.drop_last()).push(kv));
                        }
                    },
                    _ => {
                        proof {
                            lemma_keys_poisoned(items@, i as int);
                        }
                        return Err(TsError::ReplyShapeMismatch);
                    },
                }
                i += 1;
            }
            proof {
                assert(items@.take(items@.len() as int) =~= items@);
            }
            Ok(ks)
        },
        _ => Err(TsError::ReplyShapeMismatch),
    }
}

} // verus!
