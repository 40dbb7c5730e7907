//! The series configuration used by creation and alteration: retention,
//! labels, the uncompressed flag, chunk size and duplicate-insert policy.
//! Every field is optional; an unset field contributes no token at all, so
//! the server default is left alone and alteration can leave a setting as it
//! is.

use vstd::prelude::*;

use crate::wire::{dec_str, push_owned, push_tok, token_views, u64_to_dec};

verus! {

/// The policy applied when a sample is inserted at an already-populated
/// timestamp.
#[derive(Clone, Copy, Debug, PartialEq, Eq, Structural)]
pub enum TsDuplicatePolicy {
    Block,
    First,
    Last,
    Min,
    Max,
    Sum,
}

/// The wire token for a duplicate-insert policy.
pub open spec fn spec_policy_token(p: TsDuplicatePolicy) -> Seq<char> {
    match p {
        TsDuplicatePolicy::Block => "block"@,
        TsDuplicatePolicy::First => "first"@,
        TsDuplicatePolicy::Last => "last"@,
        TsDuplicatePolicy::Min => "min"@,
        TsDuplicatePolicy::Max => "max"@,
        TsDuplicatePolicy::Sum => "sum"@,
    }
}

impl TsDuplicatePolicy {
    fn token(&self) -> (s: &'static str)
        ensures
            s@ == spec_policy_token(*self),
    {
        match self {
            TsDuplicatePolicy::Block => "block",
            TsDuplicatePolicy::First => "first",
            TsDuplicatePolicy::Last => "last",
            TsDuplicatePolicy::Min => "min",
            TsDuplicatePolicy::Max => "max",
            TsDuplicatePolicy::Sum => "sum",
        }
    }
}

/// Configuration for creating or altering a series. Built by chaining the
/// methods below; a field never set is never encoded.
#[derive(Debug)]
pub struct TsOptions {
    pub retention: Option<u64>,
    pub chunk_size: Option<u64>,
    pub duplicate_policy: Option<TsDuplicatePolicy>,
    pub uncompressed: Option<bool>,
    pub labels: Vec<(String, String)>,
}

/// The predicate that keeps every label except those under the given name.
pub open spec fn spec_other_label(name: String) -> spec_fn((String, String)) -> bool {
    |p: (String, String)| p.0@ != name@
}

/// The views of a label list's name/value pairs.
pub open spec fn labels_view(ls: Seq<(String, String)>) -> Seq<(Seq<char>, Seq<char>)> {
    Seq::new(ls.len(), |i: int| (ls[i].0@, ls[i].1@))
}

/// The name/value tokens of a label list, in list order.
pub open spec fn spec_label_tokens(ls: Seq<(String, String)>) -> Seq<Seq<char>>
    decreases ls.len(),
{
    if ls.len() == 0 {
        seq![]
    } else {
        spec_label_tokens(ls.drop_last()) + seq![ls.last().0@, ls.last().1@]
    }
}

/// The tokens of an optional `<keyword> <number>` field: nothing when unset.
pub open spec fn spec_opt_u64_tokens(kw: Seq<char>, v: Option<u64>) -> Seq<Seq<char>> {
    match v {
        Some(n) => seq![kw, dec_str(n as nat)],
        None => seq![],
    }
}

/// The tokens of the optional duplicate-policy field: nothing when unset.
pub open spec fn spec_policy_tokens(p: Option<TsDuplicatePolicy>) -> Seq<Seq<char>> {
    match p {
        Some(q) => seq!["DUPLICATE_POLICY"@, spec_policy_token(q)],
        None => seq![],
    }
}

/// The token of the uncompressed flag: present only when explicitly true.
pub open spec fn spec_uncompressed_tokens(u: Option<bool>) -> Seq<Seq<char>> {
    if u == Some(true) {
        seq!["UNCOMPRESSED"@]
    } else {
        seq![]
    }
}

/// The `LABELS` block: nothing when no label is present.
pub open spec fn spec_labels_block(ls: Seq<(String, String)>) -> Seq<Seq<char>> {
    if ls.len() == 0 {
        seq![]
    } else {
        seq!["LABELS"@] + spec_label_tokens(ls)
    }
}

/// The full token sequence of a configuration, in the fixed order the remote
/// command grammar expects: retention, chunk size, duplicate policy,
/// uncompressed flag, labels.
pub open spec fn spec_options_tokens(o: TsOptions) -> Seq<Seq<char>> {
    spec_opt_u64_tokens("RETENTION"@, o.retention) + spec_opt_u64_tokens(
        "CHUNK_SIZE"@,
        o.chunk_size,
    ) + spec_policy_tokens(o.duplicate_policy) + spec_uncompressed_tokens(o.uncompressed)
        + spec_labels_block(o.labels@)
}

/// Law: a configuration with only the duplicate policy set encodes to exactly
/// the `DUPLICATE_POLICY` keyword and the policy token, and nothing else.
pub proof fn lemma_only_policy_set_tokens(o: TsOptions, p: TsDuplicatePolicy)
    requires
        o.retention is None,
        o.chunk_size is None,
        o.duplicate_policy == Some(p),
        o.uncompressed is None,
        o.labels@.len() == 0,
    ensures
        spec_options_tokens(o) =~= seq!["DUPLICATE_POLICY"@, spec_policy_token(p)],
{
}

/// Law: a configuration with every field unset encodes to no token at all.
pub proof fn lemma_all_unset_no_tokens(o: TsOptions)
    requires
        o.retention is None,
        o.chunk_size is None,
        o.duplicate_policy is None,
        o.uncompressed is None,
        o.labels@.len() == 0,
    ensures
        spec_options_tokens(o) =~= Seq::<Seq<char>>::empty(),
{
}

proof fn lemma_label_filter_props(ls: Seq<(String, String)>, name: String)
    requires
        forall|i: int, j: int| 0 <= i < j < ls.len() ==> ls[i].0@ != ls[j].0@,
    ensures
        forall|i: int| #![trigger ls.filter(spec_other_label(name))[i]]
            0 <= i < ls.filter(spec_other_label(name)).len() ==> exists|k: int|
                0 <= k < ls.len() && #[trigger] ls[k] == ls.filter(spec_other_label(name))[i],
        forall|i: int, j: int|
            0 <= i < j < ls.filter(spec_other_label(name)).len() ==> #[trigger] ls.filter(
                spec_other_label(name),
            )[i].0@ != #[trigger] ls.filter(spec_other_label(name))[j].0@,
    decreases ls.len(),
{
    reveal(Seq::filter);
    if ls.len() > 0 {
        lemma_label_filter_props(ls.drop_last(), name);
        let f = ls.filter(spec_other_label(name));
        let fsub = ls.drop_last().filter(spec_other_label(name));
        assert forall|i: int| #![trigger f[i]] 0 <= i < f.len() implies exists|k: int|
            0 <= k < ls.len() && #[trigger] ls[k] == f[i] by {
            if i < fsub.len() {
                assert(f[i] == fsub[i]);
                let k = choose|k: int|
                    0 <= k < ls.drop_last().len() && ls.drop_last()[k] == fsub[i];
                assert(ls[k] == f[i]);
            } else {
                assert(f[i] == ls.last());
                assert(ls[ls.len() - 1] == f[i]);
            }
        }
        assert forall|i: int, j: int| 0 <= i < j < f.len() implies f[i].0@ != f[j].0@ by {
            if j < fsub.len() {
                assert(f[i] == fsub[i] && f[j] == fsub[j]);
            } else {
                assert(f[j] == ls.last());
                assert(f[i] == fsub[i]);
                let k = choose|k: int|
                    0 <= k < ls.drop_last().len() && ls.drop_last()[k] == fsub[i];
                assert(ls[k].0@ != ls[ls.len() - 1].0@);
            }
        }
    }
}

/// Law: label names never repeat — setting a label on a list whose names
/// are pairwise distinct yields a list whose names are pairwise distinct,
/// so a configuration built by the setter never carries, nor encodes, two
/// labels under one name.
pub proof fn lemma_label_names_stay_unique(ls: Seq<(String, String)>, name: String, value: String)
    requires
        forall|i: int, j: int| 0 <= i < j < ls.len() ==> ls[i].0@ != ls[j].0@,
    ensures
        ({
            let ls2 = ls.filter(spec_other_label(name)).push((name, value));
            forall|i: int, j: int| 0 <= i < j < ls2.len() ==> ls2[i].0@ != ls2[j].0@
        }),
{
    lemma_label_filter_props(ls, name);
    broadcast use vstd::seq_lib::group_filter_ensures;

    let f = ls.filter(spec_other_label(name));
    let ls2 = f.push((name, value));
    assert forall|i: int, j: int| 0 <= i < j < ls2.len() implies ls2[i].0@ != ls2[j].0@ by {
        if j < f.len() {
            assert(ls2[i] == f[i] && ls2[j] == f[j]);
        } else {
            assert(ls2[j] == (name, value));
            assert(ls2[i] == f[i]);
        }
    }
}

impl Default for TsOptions {
    /// A configuration with every field unset.
    fn default() -> (o: TsOptions)
        ensures
            o.retention is None,
            o.chunk_size is None,
            o.duplicate_policy is None,
            o.uncompressed is None,
            o.labels@ == Seq::<(String, String)>::empty(),
    {
        TsOptions {
            retention: None,
            chunk_size: None,
            duplicate_policy: None,
            uncompressed: None,
            labels: Vec::new(),
        }
    }
}

impl TsOptions {
    /// Sets the retention duration in milliseconds.
    pub fn retention_time(self, t: u64) -> (o: TsOptions)
        ensures
            o == (TsOptions { retention: Some(t), ..self }),
    {
        TsOptions { retention: Some(t), ..self }
    }

    /// Sets the chunk size in bytes.
    pub fn chunk_size(self, c: u64) -> (o: TsOptions)
        ensures
            o == (TsOptions { chunk_size: Some(c), ..self }),
    {
        TsOptions { chunk_size: Some(c), ..self }
    }

    /// Sets the duplicate-insert policy.
    pub fn duplicate_policy(self, p: TsDuplicatePolicy) -> (o: TsOptions)
        ensures
            o == (TsOptions { duplicate_policy: Some(p), ..self }),
    {
        TsOptions { duplicate_policy: Some(p), ..self }
    }

    /// Sets the uncompressed flag explicitly. Encoding emits the flag only
    /// when it was set to true; unset and explicitly-false both emit nothing.
    pub fn uncompressed(self, u: bool) -> (o: TsOptions)
        ensures
            o == (TsOptions { uncompressed: Some(u), ..self }),
    {
        TsOptions { uncompressed: Some(u), ..self }
    }

    /// Sets one label. A label already carried under the same name is
    /// dropped first, so the last write of a name wins and names stay
    /// unique; the new pair goes to the end of the list.
    pub fn label(self, name: String, value: String) -> (o: TsOptions)
        ensures
            o.retention == self.retention,
            o.chunk_size == self.chunk_size,
            o.duplicate_policy == self.duplicate_policy,
            o.uncompressed == self.uncompressed,
            o.labels@ == self.labels@.filter(spec_other_label(name)).push((name, value)),
    {
        let mut kept: Vec<(String, String)> = Vec::new();
        proof {
            reveal_with_fuel(Seq::<_>::filter, 1);
            assert(self.labels@.take(0).filter(spec_other_label(name))
                =~= Seq::<(String, String)>::empty());
        }
        let mut i: usize = 0;
        while i < self.labels.len()
            invariant
                i <= self.labels@.len(),
                kept@ == self.labels@.take(i as int).filter(spec_other_label(name)),
            decreases self.labels@.len() - i,
        {
            let keep = !(self.labels[i].0 == name);
            if keep {
                let pair = (self.labels[i].0.clone(), self.labels[i].1.clone());
                proof {
                    assert(pair == self.labels@[i as int]);
                }
                kept.push(pair);
            }
            proof {
                reveal_with_fuel(Seq::<_>::filter, 2);
                let t1 = self.labels@.take(i + 1);
                assert(t1.drop_last() =~= self.labels@.take(i as int));
                assert(t1.last() == self.labels@[i as int]);
                assert(kept@ == t1.filter(spec_other_label(name)));
            }
            i += 1;
        }
        proof {
            assert(self.labels@.take(self.labels@.len() as int) =~= self.labels@);
        }
        let mut kept = kept;
        kept.push((name, value));
        TsOptions {
            retention: self.retention,
            chunk_size: self.chunk_size,
            duplicate_policy: self.duplicate_policy,
            uncompressed: self.uncompressed,
            labels: kept,
        }
    }

    fn append_opt_u64(out: &mut Vec<String>, kw: &'static str, v: Option<u64>)
        ensures
            token_views(final(out)@) == token_views(old(out)@) + spec_opt_u64_tokens(kw@, v),
    {
        match v {
            Some(n) => {
                push_tok(out, kw);
                push_owned(out, u64_to_dec(n));
            },
            None => {},
        }
        proof {
            assert(token_views(out@) =~= token_views(old(out)@) + spec_opt_u64_tokens(kw@, v));
        }
    }

    fn append_policy(out: &mut Vec<String>, p: &Option<TsDuplicatePolicy>)
        ensures
            token_views(final(out)@) == token_views(old(out)@) + spec_policy_tokens(*p),
    {
        match p {
            Some(q) => {
                push_tok(out, "DUPLICATE_POLICY");
                push_tok(out, q.token());
            },
            None => {},
        }
        proof {
            assert(token_views(out@) =~= token_views(old(out)@) + spec_policy_tokens(*p));
        }
    }

    fn append_labels_block(out: &mut Vec<String>, ls: &Vec<(String, String)>)
        ensures
            token_views(final(out)@) == token_views(old(out)@) + spec_labels_block(ls@),
    {
        if ls.len() > 0 {
            push_tok(out, "LABELS");
            let ghost pre = token_views(out@);
            let mut i: usize = 0;
            while i < ls.len()
                invariant
                    i <= ls@.len(),
                    token_views(out@) == pre + spec_label_tokens(ls@.take(i as int)),
                decreases ls@.len() - i,
            {
                push_owned(out, ls[i].0.clone());
                push_owned(out, ls[i].1.clone());
                proof {
                    let t1 = ls@.take(i + 1);
                    assert(t1.drop_last() =~= ls@.take(i as int));
                    assert(t1.last() == ls@[i as int]);
                    assert(token_views(out@) =~= pre + spec_label_tokens(t1));
                }
                i += 1;
            }
            proof {
                assert(ls@.take(ls@.len() as int) =~= ls@);
                assert(token_views(out@) =~= token_views(old(out)@) + spec_labels_block(ls@));
            }
        } else {
            proof {
                assert(token_views(out@) =~= token_views(old(out)@) + spec_labels_block(ls@));
            }
        }
    }

    fn append_tokens(&self, out: &mut Vec<String>, include_uncompressed: bool)
        ensures
            token_views(final(out)@) == token_views(old(out)@) + spec_options_tokens(
                TsOptions {
                    uncompressed: if include_uncompressed {
                        self.uncompressed
                    } else {
                        None
                    },
                    ..*self
                },
            ),
    {
        let ghost eff = TsOptions {
            uncompressed: if include_uncompressed {
                self.uncompressed
            } else {
                None
            },
            ..*self
        };
        let ghost base = token_views(out@);
        Self::append_opt_u64(out, "RETENTION", self.retention);
        Self::append_opt_u64(out, "CHUNK_SIZE", self.chunk_size);
        Self::append_policy(out, &self.duplicate_policy);
        if include_uncompressed {
            match self.uncompressed {
                Some(u) => {
                    if u {
                        push_tok(out, "UNCOMPRESSED");
                    }
                },
                None => {},
            }
        }
        proof {
            assert(token_views(out@) =~= base + spec_opt_u64_tokens("RETENTION"@, eff.retention)
                + spec_opt_u64_tokens("CHUNK_SIZE"@, eff.chunk_size) + spec_policy_tokens(
                eff.duplicate_policy,
            ) + spec_uncompressed_tokens(eff.uncompressed));
        }
        Self::append_labels_block(out, &self.labels);
        proof {
            assert(token_views(out@) =~= base + spec_options_tokens(eff));
        }
    }

    /// Encodes the configuration for series creation: all set fields, in the
    /// fixed grammar order.
    pub fn tokens(&self) -> (out: Vec<String>)
        ensures
            token_views(out@) == spec_options_tokens(*self),
    {
        let mut out: Vec<String> = Vec::new();
        self.append_tokens(&mut out, true);
        proof {
            assert(TsOptions { uncompressed: self.uncompressed, ..*self } == *self);
            assert(token_views(out@) =~= spec_options_tokens(*self));
        }
        out
    }

    /// Encodes the configuration for series alteration, where the
    /// uncompressed flag must always be omitted so that the stored setting
    /// is left as it is.
    pub fn alter_tokens(&self) -> (out: Vec<String>)
        ensures
            token_views(out@) == spec_options_tokens(TsOptions { uncompressed: None, ..*self }),
    {
        let mut out: Vec<String> = Vec::new();
        self.append_tokens(&mut out, false);
        proof {
            assert(token_views(out@) =~= spec_options_tokens(
                TsOptions { uncompressed: None, ..*self },
            ));
        }
        out
    }
}

} // verus!
