//! The filter expression set used to select series by their labels: an
//! ordered list of label predicates plus the auxiliary flags of the
//! multi-series operations. The remote protocol requires at least one
//! predicate, so an empty set is rejected before any token is built.

use vstd::prelude::*;

use crate::TsError;
use crate::wire::{dec_str, push_owned, push_tok, token_views, u64_to_dec};

verus! {

/// One label predicate, in the order of its wire form.
#[derive(Debug)]
pub enum TsFilter {
    /// `label=value`
    Equals(String, String),
    /// `label!=value`
    NotEquals(String, String),
    /// `label=`
    LabelExists(String),
    /// `label!=`
    LabelAbsent(String),
    /// `label=(v1,v2,...)`
    InSet(String, Vec<String>),
    /// `label!=(v1,v2,...)`
    NotInSet(String, Vec<String>),
}

/// The comma-joined rendering of a value set.
pub open spec fn spec_join_comma(vs: Seq<String>) -> Seq<char>
    decreases vs.len(),
{
    if vs.len() == 0 {
        Seq::empty()
    } else if vs.len() == 1 {
        vs[0]@
    } else {
        spec_join_comma(vs.drop_last()) + ","@ + vs.last()@
    }
}

/// The single wire token of one predicate.
pub open spec fn spec_filter_token(f: TsFilter) -> Seq<char> {
    match f {
        TsFilter::Equals(n, v) => n@ + "="@ + v@,
        TsFilter::NotEquals(n, v) => n@ + "!="@ + v@,
        TsFilter::LabelExists(n) => n@ + "="@,
        TsFilter::LabelAbsent(n) => n@ + "!="@,
        TsFilter::InSet(n, vs) => n@ + "=("@ + spec_join_comma(vs@) + ")"@,
        TsFilter::NotInSet(n, vs) => n@ + "!=("@ + spec_join_comma(vs@) + ")"@,
    }
}

/// The predicate tokens of a filter list, one token per predicate, in list
/// order.
pub open spec fn spec_filter_tokens(fs: Seq<TsFilter>) -> Seq<Seq<char>>
    decreases fs.len(),
{
    if fs.len() == 0 {
        seq![]
    } else {
        spec_filter_tokens(fs.drop_last()).push(spec_filter_token(fs.last()))
    }
}

fn join_comma(vs: &Vec<String>) -> (s: String)
    ensures
        s@ == spec_join_comma(vs@),
{
    let mut s = String::new();
    let mut i: usize = 0;
    while i < vs.len()
        invariant
            i <= vs@.len(),
            s@ == spec_join_comma(vs@.take(i as int)),
        decreases vs@.len() - i,
    {
        if i > 0 {
            s.append(",");
        }
        s.append(vs[i].as_str());
        proof {
            let t1 = vs@.take(i + 1);
            assert(t1.drop_last() =~= vs@.take(i as int));
            assert(t1.last() == vs@[i as int]);
            assert(s@ =~= spec_join_comma(t1));
        }
        i += 1;
    }
    proof {
        assert(vs@.take(vs@.len() as int) =~= vs@);
    }
    s
}

impl TsFilter {
    /// Renders this predicate's wire token.
    pub fn token(&self) -> (s: String)
        ensures
            s@ == spec_filter_token(*self),
    {
        let s = match self {
            TsFilter::Equals(n, v) => n.clone().concat("=").concat(v.as_str()),
            TsFilter::NotEquals(n, v) => n.clone().concat("!=").concat(v.as_str()),
            TsFilter::LabelExists(n) => n.clone().concat("="),
            TsFilter::LabelAbsent(n) => n.clone().concat("!="),
            TsFilter::InSet(n, vs) => n.clone().concat("=(").concat(
                join_comma(vs).as_str(),
            ).concat(")"),
            TsFilter::NotInSet(n, vs) => n.clone().concat("!=(").concat(
                join_comma(vs).as_str(),
            ).concat(")"),
        };
        proof {
            assert(s@ =~= spec_filter_token(*self));
        }
        s
    }
}

/// A filter expression set: the predicates, and the flags a multi-series
/// read may add after them.
#[derive(Debug)]
pub struct TsFilterOptions {
    pub filters: Vec<TsFilter>,
    pub with_labels: bool,
    pub selected_labels: Vec<String>,
    pub count: Option<u64>,
}

/// The `WITHLABELS` flag token, when requested.
pub open spec fn spec_withlabels_tokens(w: bool) -> Seq<Seq<char>> {
    if w {
        seq!["WITHLABELS"@]
    } else {
        seq![]
    }
}

/// The `SELECTED_LABELS` block, when any label name was selected.
pub open spec fn spec_selected_tokens(ls: Seq<String>) -> Seq<Seq<char>>
    decreases ls.len(),
{
    if ls.len() == 0 {
        seq![]
    } else if ls.len() == 1 {
        seq!["SELECTED_LABELS"@, ls[0]@]
    } else {
        spec_selected_tokens(ls.drop_last()).push(ls.last()@)
    }
}

/// The `COUNT` pair, when a count limit was requested.
pub open spec fn spec_count_tokens(c: Option<u64>) -> Seq<Seq<char>> {
    match c {
        Some(n) => seq!["COUNT"@, dec_str(n as nat)],
        None => seq![],
    }
}

/// The full token sequence of a filter expression set: the predicates, then
/// `WITHLABELS`, `SELECTED_LABELS ...` and `COUNT n` when requested. An
/// empty predicate list is a caller error.
pub open spec fn spec_filter_options_tokens(f: TsFilterOptions) -> Result<Seq<Seq<char>>, TsError> {
    if f.filters@.len() == 0 {
        Err(TsError::EmptyFilter)
    } else {
        Ok(
            spec_filter_tokens(f.filters@) + spec_withlabels_tokens(f.with_labels)
                + spec_selected_tokens(f.selected_labels@) + spec_count_tokens(f.count),
        )
    }
}

impl Default for TsFilterOptions {
    /// A filter set with no predicate and no flag requested.
    fn default() -> (f: TsFilterOptions)
        ensures
            f.filters@ == Seq::<TsFilter>::empty(),
            f.with_labels == false,
            f.selected_labels@ == Seq::<String>::empty(),
            f.count is None,
    {
        TsFilterOptions {
            filters: Vec::new(),
            with_labels: false,
            selected_labels: Vec::new(),
            count: None,
        }
    }
}

impl TsFilterOptions {
    /// Adds an equality predicate.
    pub fn equals(self, name: String, value: String) -> (f: TsFilterOptions)
        ensures
            f.filters@ == self.filters@.push(TsFilter::Equals(name, value)),
            f.with_labels == self.with_labels,
            f.selected_labels@ == self.selected_labels@,
            f.count == self.count,
    {
        let mut filters = self.filters;
        filters.push(TsFilter::Equals(name, value));
        TsFilterOptions { filters, ..self }
    }

    /// Adds an inequality predicate.
    pub fn not_equals(self, name: String, value: String) -> (f: TsFilterOptions)
        ensures
            f.filters@ == self.filters@.push(TsFilter::NotEquals(name, value)),
            f.with_labels == self.with_labels,
            f.selected_labels@ == self.selected_labels@,
            f.count == self.count,
    {
        let mut filters = self.filters;
        filters.push(TsFilter::NotEquals(name, value));
        TsFilterOptions { filters, ..self }
    }

    /// Adds a label-exists predicate.
    pub fn label_exists(self, name: String) -> (f: TsFilterOptions)
        ensures
            f.filters@ == self.filters@.push(TsFilter::LabelExists(name)),
            f.with_labels == self.with_labels,
            f.selected_labels@ == self.selected_labels@,
            f.count == self.count,
    {
        let mut filters = self.filters;
        filters.push(TsFilter::LabelExists(name));
        TsFilterOptions { filters, ..self }
    }

    /// Adds a label-absent predicate.
    pub fn label_absent(self, name: String) -> (f: TsFilterOptions)
        ensures
            f.filters@ == self.filters@.push(TsFilter::LabelAbsent(name)),
            f.with_labels == self.with_labels,
            f.selected_labels@ == self.selected_labels@,
            f.count == self.count,
    {
        let mut filters = self.filters;
        filters.push(TsFilter::LabelAbsent(name));
        TsFilterOptions { filters, ..self }
    }

    /// Adds a value-in-set predicate.
    pub fn in_set(self, name: String, values: Vec<String>) -> (f: TsFilterOptions)
        ensures
            f.filters@ == self.filters@.push(TsFilter::InSet(name, values)),
            f.with_labels == self.with_labels,
            f.selected_labels@ == self.selected_labels@,
            f.count == self.count,
    {
        let mut filters = self.filters;
        filters.push(TsFilter::InSet(name, values));
        TsFilterOptions { filters, ..self }
    }

    /// Adds a value-not-in-set predicate.
    pub fn not_in_set(self, name: String, values: Vec<String>) -> (f: TsFilterOptions)
        ensures
            f.filters@ == self.filters@.push(TsFilter::NotInSet(name, values)),
            f.with_labels == self.with_labels,
            f.selected_labels@ == self.selected_labels@,
            f.count == self.count,
    {
        let mut filters = self.filters;
        filters.push(TsFilter::NotInSet(name, values));
        TsFilterOptions { filters, ..self }
    }

    /// Requests that matched series carry their labels in the reply.
    pub fn with_labels(self, w: bool) -> (f: TsFilterOptions)
        ensures
            f.filters@ == self.filters@,
            f.with_labels == w,
            f.selected_labels@ == self.selected_labels@,
            f.count == self.count,
    {
        TsFilterOptions { with_labels: w, ..self }
    }

    /// Requests a subset of labels in the reply.
    pub fn selected_labels(self, ls: Vec<String>) -> (f: TsFilterOptions)
        ensures
            f.filters@ == self.filters@,
            f.with_labels == self.with_labels,
            f.selected_labels@ == ls@,
            f.count == self.count,
    {
        TsFilterOptions { selected_labels: ls, ..self }
    }

    /// Caps the number of matched series.
    pub fn count(self, n: u64) -> (f: TsFilterOptions)
        ensures
            f.filters@ == self.filters@,
            f.with_labels == self.with_labels,
            f.selected_labels@ == self.selected_labels@,
            f.count == Some(n),
    {
        TsFilterOptions { count: Some(n), ..self }
    }

    /// The predicate tokens alone, one per predicate, in list order.
    pub fn get_filters(&self) -> (out: Vec<String>)
        ensures
            token_views(out@) == spec_filter_tokens(self.filters@),
    {
        let mut out: Vec<String> = Vec::new();
        let mut i: usize = 0;
        while i < self.filters.len()
            invariant
                i <= self.filters@.len(),
                token_views(out@) == spec_filter_tokens(self.filters@.take(i as int)),
            decreases self.filters@.len() - i,
        {
            push_owned(&mut out, self.filters[i].token());
            proof {
                let t1 = self.filters@.take(i + 1);
                assert(t1.drop_last() =~= self.filters@.take(i as int));
                assert(t1.last() == self.filters@[i as int]);
                assert(token_views(out@) =~= spec_filter_tokens(t1));
            }
            i += 1;
        }
        proof {
            assert(self.filters@.take(self.filters@.len() as int) =~= self.filters@);
        }
        out
    }

    /// Encodes the whole filter expression set. Fails, before producing any
    /// token, if and only if no predicate is present.
    pub fn to_tokens(&self) -> (r: Result<Vec<String>, TsError>)
        ensures
            match r {
                Ok(out) => spec_filter_options_tokens(*self) == Ok::<_, TsError>(
                    token_views(out@),
                ),
                Err(e) => spec_filter_options_tokens(*self) == Err::<Seq<Seq<char>>, _>(e)
                    && self.filters@.len() == 0,
            },
    {
        if self.filters.len() == 0 {
            return Err(TsError::EmptyFilter);
        }
        let mut out = self.get_filters();
        let ghost s0 = token_views(out@);
        if self.with_labels {
            push_tok(&mut out, "WITHLABELS");
        }
        proof {
            assert(token_views(out@) =~= s0 + spec_withlabels_tokens(self.with_labels));
        }
        let ghost s1 = token_views(out@);
        if self.selected_labels.len() > 0 {
            push_tok(&mut out, "SELECTED_LABELS");
            let ghost pre = token_views(out@);
            let mut i: usize = 0;
            while i < self.selected_labels.len()
                invariant
                    i <= self.selected_labels@.len(),
                    pre =~= s1.push("SELECTED_LABELS"@),
                    i == 0 ==> token_views(out@) == pre,
                    i > 0 ==> token_views(out@) == s1 + spec_selected_tokens(
                        self.selected_labels@.take(i as int),
                    ),
                decreases self.selected_labels@.len() - i,
            {
                push_owned(&mut out, self.selected_labels[i].clone());
                proof {
                    let t1 = self.selected_labels@.take(i + 1);
                    assert(t1.drop_last() =~= self.selected_labels@.take(i as int));
                    assert(t1.last() == self.selected_labels@[i as int]);
                    if i == 0 {
                        assert(t1 =~= seq![self.selected_labels@[0]]);
                        assert(token_views(out@) =~= s1 + spec_selected_tokens(t1));
                    } else {
                        assert(token_views(out@) =~= s1 + spec_selected_tokens(t1));
                    }
                }
                i += 1;
            }
            proof {
                assert(self.selected_labels@.take(self.selected_labels@.len() as int)
                    =~= self.selected_labels@);
            }
        }
        proof {
            assert(token_views(out@) =~= s1 + spec_selected_tokens(self.selected_labels@));
        }
        let ghost s2 = token_views(out@);
        match self.count {
            Some(n) => {
                push_tok(&mut out, "COUNT");
                push_owned(&mut out, u64_to_dec(n));
            },
            None => {},
        }
        proof {
            assert(token_views(out@) =~= s2 + spec_count_tokens(self.count));
            assert(token_views(out@) =~= spec_filter_tokens(self.filters@)
                + spec_withlabels_tokens(self.with_labels) + spec_selected_tokens(
                self.selected_labels@,
            ) + spec_count_tokens(self.count));
        }
        Ok(out)
    }
}

} // verus!
