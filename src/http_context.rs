use std::rc::Rc;

use vstd::prelude::*;

use crate::config::{Config, HeaderConfig};

verus! {

/// The header writes that a policy makes, in order: the single header first,
/// where both its name and value are present, then each rule of the list.
pub open spec fn planned_writes(c: Config) -> Seq<(Seq<char>, Seq<char>)> {
    let single = match (c.header_name, c.header_value) {
        (Some(n), Some(v)) => seq![(n@, v@)],
        _ => Seq::empty(),
    };
    let rules = match c.headers {
        Some(h) => h@.map_values(|r: HeaderConfig| r@),
        None => Seq::empty(),
    };
    single + rules
}

/// Header values after the writes, applied in order; a later write to a
/// name replaces an earlier one.
pub open spec fn apply_writes(
    h: Map<Seq<char>, Seq<char>>,
    w: Seq<(Seq<char>, Seq<char>)>,
) -> Map<Seq<char>, Seq<char>>
    decreases w.len(),
{
    if w.len() == 0 {
        h
    } else {
        apply_writes(h, w.drop_last()).insert(w.last().0, w.last().1)
    }
}


/// A policy with no single header and an empty (or absent) rule list makes no
/// header writes, so applying it leaves every header as it was.
pub proof fn lemma_empty_policy_writes_nothing(c: Config, h: Map<Seq<char>, Seq<char>>)
    requires
        c.wf(),
        c.header_name is None,
        c.headers is None || c.headers->0@.len() == 0,
    ensures
        planned_writes(c).len() == 0,
        apply_writes(h, planned_writes(c)) == h,
{
    assert(planned_writes(c) =~= Seq::empty());
}

/// Applying writes overlays, on the headers there were, the map that the
/// writes alone make.
pub proof fn lemma_apply_overlays(h: Map<Seq<char>, Seq<char>>, w: Seq<(Seq<char>, Seq<char>)>)
    ensures
        apply_writes(h, w) == h.union_prefer_right(apply_writes(Map::empty(), w)),
    decreases w.len(),
{
    if w.len() == 0 {
        assert(h.union_prefer_right(Map::empty()) =~= h);
    } else {
        lemma_apply_overlays(h, w.drop_last());
        let m = apply_writes(Map::empty(), w.drop_last());
        assert(h.union_prefer_right(m).insert(w.last().0, w.last().1)
            =~= h.union_prefer_right(m.insert(w.last().0, w.last().1)));
    }
}

/// Applying a policy's writes twice gives the same headers as applying them once.
pub proof fn lemma_apply_idempotent(c: Config, h: Map<Seq<char>, Seq<char>>)
    ensures
        apply_writes(apply_writes(h, planned_writes(c)), planned_writes(c))
            == apply_writes(h, planned_writes(c)),
{
    let w = planned_writes(c);
    let m = apply_writes(Map::empty(), w);
    lemma_apply_overlays(h, w);
    lemma_apply_overlays(apply_writes(h, w), w);
    assert(h.union_prefer_right(m).union_prefer_right(m) =~= h.union_prefer_right(m));
}


/// A per-request context: a read-only share of the policy that was current
/// when it was made.
pub struct HeaderSet {
    config: Rc<Config>,
}

/// Relies on Rc::clone: a new share of the same value.
#[verifier::external_body]
pub(crate) fn share(c: &Rc<Config>) -> (r: Rc<Config>)
    ensures
        *r == **c,
{
    Rc::clone(c)
}

impl HeaderSet {
    pub closed spec fn policy(&self) -> Config {
        *self.config
    }

    pub fn new(config: Rc<Config>) -> (r: HeaderSet)
        ensures
            r.policy() == *config,
    {
        HeaderSet { config }
    }

    /// The header writes to make on a request, in the order to make them.
    pub fn header_writes(&self) -> (w: Vec<HeaderConfig>)
        ensures
            w@.map_values(|r: HeaderConfig| r@) == planned_writes(self.policy()),
    {
        let c: &Config = &*self.config;
        let mut w: Vec<HeaderConfig> = Vec::new();
        match (&c.header_name, &c.header_value) {
            (Some(n), Some(v)) => {
                w.push(HeaderConfig { header_name: n.clone(), header_value: v.clone() });
            },
            _ => {},
        }
        let ghost first = w@.map_values(|r: HeaderConfig| r@);
        match &c.headers {
            Some(h) => {
                let ghost hv = h@.map_values(|r: HeaderConfig| r@);
                let mut i: usize = 0;
                while i < h.len()
                    invariant
                        i <= h@.len(),
                        hv == h@.map_values(|r: HeaderConfig| r@),
                        w@.map_values(|r: HeaderConfig| r@) =~= first + hv.take(i as int),
                    decreases h@.len() - i,
                {
                    let r = &h[i];
                    let item = HeaderConfig { header_name: r.header_name.clone(), header_value: r.header_value.clone() };
                    let ghost before = w@;
                    w.push(item);
                    proof {
                        assert(item@ == hv[i as int]);
                        assert(w@ =~= before.push(item));
                        assert(w@.map_values(|r: HeaderConfig| r@) =~= before.map_values(|r: HeaderConfig| r@).push(item@));
                        assert(hv.take(i + 1) =~= hv.take(i as int).push(hv[i as int]));
                        assert(w@.map_values(|r: HeaderConfig| r@) =~= first + hv.take(i + 1));
                    }
                    i = i + 1;
                }
                proof {
                    assert(hv.take(i as int) =~= hv);
                }
            },
            None => {},
        }
        proof {
            assert(w@.map_values(|r: HeaderConfig| r@) =~= planned_writes(*self.config));
        }
        w
    }
}

} // verus!
