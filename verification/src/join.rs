//! Joining the two listings, and the distinct tag keys.
//!
//! In "list" mode the drained function listing becomes a lookup by
//! identifier, and each drained tag mapping is joined to the record its
//! identifier resolves to; a mapping whose identifier matches no record is
//! silently dropped, and the result follows the tag listing's order. In
//! "tags" mode the mappings are folded into the set of distinct tag keys,
//! in natural string order.

use vstd::prelude::*;

use crate::model::Func;
use crate::model::FuncV;
use crate::model::FunctionRecord;
use crate::model::FunctionRecordV;
use crate::model::TagMapping;
use crate::model::TagMappingV;
use crate::model::TagV;
use crate::model::opt_key;
use crate::strorder::lemma_lex_lt_transitive;
use crate::strorder::lemma_lex_lt_trichotomy;
use crate::strorder::lex_lt;
use crate::strorder::str_eq;
use crate::strorder::str_lt;

verus! {

/// The join key a function record carries: its identifier, absent read as
/// the empty string.
pub open spec fn record_key(f: FunctionRecordV) -> Seq<char> {
    opt_key(f.function_arn)
}

/// The join key a tag mapping refers to: its target identifier, absent
/// read as the empty string.
pub open spec fn mapping_key(m: TagMappingV) -> Seq<char> {
    opt_key(m.resource_arn)
}

/// The tag pairs a mapping carries, absent read as none.
pub open spec fn mapping_tags(m: TagMappingV) -> Seq<TagV> {
    match m.tags {
        Option::Some(ts) => ts,
        Option::None => Seq::empty(),
    }
}

/// The record a key resolves to: the last record in the listing carrying
/// that key, so that a later record wins when identifiers repeat.
pub open spec fn lookup_spec(fs: Seq<FunctionRecordV>, key: Seq<char>) -> Option<FunctionRecordV>
    decreases fs.len(),
{
    if fs.len() == 0 {
        Option::None
    } else if record_key(fs.last()) == key {
        Option::Some(fs.last())
    } else {
        lookup_spec(fs.drop_last(), key)
    }
}

/// The joined listing: each mapping, in order, paired with the record its
/// key resolves to; mappings that resolve to nothing contribute nothing.
pub open spec fn join_spec(fs: Seq<FunctionRecordV>, ms: Seq<TagMappingV>) -> Seq<FuncV>
    decreases ms.len(),
{
    if ms.len() == 0 {
        Seq::empty()
    } else {
        let rest = join_spec(fs, ms.drop_last());
        match lookup_spec(fs, mapping_key(ms.last())) {
            Option::Some(f) => rest.push(FuncV { config: f, tags: mapping_tags(ms.last()) }),
            Option::None => rest,
        }
    }
}

/// Whether two optional identifiers are the same key, an absent one
/// reading as the empty string.
fn opt_key_eq(a: &Option<String>, b: &Option<String>) -> (r: bool)
    ensures
        r == (opt_key(a.deep_view()) == opt_key(b.deep_view())),
{
    match (a, b) {
        (Option::Some(x), Option::Some(y)) => str_eq(x.as_str(), y.as_str()),
        (Option::None, Option::None) => true,
        (Option::Some(x), Option::None) => {
            proof {
                if x@.len() == 0 {
                    assert(x@ =~= Seq::<char>::empty());
                }
            }
            x.as_str().is_empty()
        },
        (Option::None, Option::Some(y)) => {
            proof {
                if y@.len() == 0 {
                    assert(y@ =~= Seq::<char>::empty());
                }
            }
            y.as_str().is_empty()
        },
    }
}

/// Finds the record the given identifier resolves to, scanning from the
/// end so that a later record wins.
fn lookup(functions: &Vec<FunctionRecord>, key: &Option<String>) -> (r: Option<FunctionRecord>)
    ensures
        r.deep_view() == lookup_spec(functions.deep_view(), opt_key(key.deep_view())),
{
    let ghost fv = functions.deep_view();
    let ghost k = opt_key(key.deep_view());
    let mut j: usize = functions.len();
    proof {
        assert(fv.take(j as int) =~= fv);
    }
    #[verifier::loop_isolation(false)]
    while j > 0
        invariant
            j <= functions@.len(),
            lookup_spec(fv, k) == lookup_spec(fv.take(j as int), k),
        decreases j,
    {
        j = j - 1;
        proof {
            assert(fv.take(j as int + 1).last() == fv[j as int]);
            assert(fv.take(j as int + 1).drop_last() =~= fv.take(j as int));
        }
        if opt_key_eq(&functions[j].function_arn, key) {
            proof {
                assert(record_key(fv[j as int]) == k);
                assert(lookup_spec(fv.take(j as int + 1), k) == Option::Some(fv[j as int]));
            }
            return Option::Some(functions[j].clone());
        }
    }
    proof {
        assert(lookup_spec(fv.take(0), k) is None);
    }
    Option::None
}

/// Joins the drained tag mappings to the drained function records by
/// identifier: one joined function per mapping whose identifier resolves
/// to a record (a later record winning on repeated identifiers), in the
/// tag listing's order; every other mapping is dropped.
pub fn join_functions(functions: &Vec<FunctionRecord>, mappings: Vec<TagMapping>) -> (r: Vec<Func>)
    ensures
        r.deep_view() == join_spec(functions.deep_view(), mappings.deep_view()),
{
    let ghost fv = functions.deep_view();
    let ghost morig = mappings@;
    let ghost mv = mappings.deep_view();
    let mut rest = mappings;
    let mut out: Vec<Func> = Vec::new();
    let ghost mut mi: int = 0;
    proof {
        assert(out.deep_view() =~= join_spec(fv, mv.take(0)));
    }
    #[verifier::loop_isolation(false)]
    while rest.len() > 0
        invariant
            0 <= mi == morig.len() - rest@.len(),
            rest@ == morig.skip(mi),
            out.deep_view() == join_spec(fv, mv.take(mi)),
        decreases rest@.len(),
    {
        let m = rest.remove(0);
        proof {
            assert(m == morig[mi]);
            assert(rest@ =~= morig.skip(mi + 1));
            assert(mv[mi] == m.deep_view());
            assert(mv.take(mi + 1).drop_last() =~= mv.take(mi));
            assert(mv.take(mi + 1).last() == mv[mi as int]);
        }
        let ghost mdeep = m.deep_view();
        let ghost out_before = out.deep_view();
        let found = lookup(functions, &m.resource_arn);
        match found {
            Option::Some(config) => {
                let tags = match m.tags {
                    Option::Some(ts) => ts,
                    Option::None => Vec::new(),
                };
                proof {
                    assert(tags.deep_view() =~= mapping_tags(mdeep));
                }
                let joined = Func { config, tags };
                out.push(joined);
                proof {
                    assert(out.deep_view() =~= out_before.push(joined.deep_view()));
                    assert(joined.deep_view() == FuncV {
                        config: lookup_spec(fv, mapping_key(mdeep))->0,
                        tags: mapping_tags(mdeep),
                    });
                    assert(out.deep_view() == join_spec(fv, mv.take(mi + 1)));
                }
            },
            Option::None => {
                proof {
                    assert(out.deep_view() == join_spec(fv, mv.take(mi + 1)));
                }
            },
        }
        proof {
            mi = mi + 1;
        }
    }
    proof {
        assert(mv.take(mv.len() as int) =~= mv);
    }
    out
}

/// A key list in strictly ascending natural string order; strictness makes
/// it free of duplicates.
pub open spec fn strictly_ascending(s: Seq<Seq<char>>) -> bool {
    forall|i: int, j: int| 0 <= i < j < s.len() ==> lex_lt(s[i], s[j])
}

/// The keys of a batch of tags.
pub open spec fn keys_of_tags(ts: Seq<TagV>) -> Set<Seq<char>>
    decreases ts.len(),
{
    if ts.len() == 0 {
        Set::empty()
    } else {
        keys_of_tags(ts.drop_last()).insert(ts.last().key)
    }
}

/// Every tag key observed across the mappings.
pub open spec fn all_tag_keys(ms: Seq<TagMappingV>) -> Set<Seq<char>>
    decreases ms.len(),
{
    if ms.len() == 0 {
        Set::empty()
    } else {
        all_tag_keys(ms.drop_last()).union(keys_of_tags(mapping_tags(ms.last())))
    }
}

/// Inserts a key into a strictly ascending key list at its place; a key
/// already present is dropped.
fn insert_key(keys: &mut Vec<String>, key: &String)
    requires
        strictly_ascending(old(keys).deep_view()),
    ensures
        strictly_ascending(final(keys).deep_view()),
        final(keys).deep_view().to_set() == old(keys).deep_view().to_set().insert(key@),
{
    let ghost kv = keys.deep_view();
    let mut idx: usize = 0;
    #[verifier::loop_isolation(false)]
    while idx < keys.len() && str_lt(keys[idx].as_str(), key.as_str())
        invariant
            idx <= keys@.len(),
            forall|j: int| 0 <= j < idx ==> lex_lt(kv[j], key@),
        decreases keys@.len() - idx,
    {
        idx = idx + 1;
    }
    if idx < keys.len() && str_eq(keys[idx].as_str(), key.as_str()) {
        proof {
            assert(kv[idx as int] == key@);
            assert(kv.to_set().contains(key@));
            assert(kv.to_set() =~= kv.to_set().insert(key@));
        }
    } else {
        proof {
            if idx < kv.len() {
                lemma_lex_lt_trichotomy(kv[idx as int], key@);
                assert(lex_lt(key@, kv[idx as int]));
            }
        }
        keys.insert(idx, key.clone());
        proof {
            let nv = keys.deep_view();
            assert(nv =~= kv.insert(idx as int, key@)) by {
                kv.insert_ensures(idx as int, key@);
                assert forall|i: int| 0 <= i < nv.len() implies nv[i] == kv.insert(
                    idx as int,
                    key@,
                )[i] by {
                    kv.insert_ensures(idx as int, key@);
                }
            }
            kv.insert_ensures(idx as int, key@);
            assert forall|x: int, y: int| 0 <= x < y < nv.len() implies lex_lt(nv[x], nv[y]) by {
                if y < idx {
                } else if y == idx {
                    assert(nv[y] == key@);
                } else if x == idx {
                    assert(nv[x] == key@);
                    if y - 1 > idx {
                        lemma_lex_lt_transitive(key@, kv[idx as int], kv[y - 1]);
                    }
                } else if x < idx {
                    assert(nv[x] == kv[x]);
                    assert(nv[y] == kv[y - 1]);
                    if x == y - 1 {
                        assert(lex_lt(kv[x], key@));
                        assert(false);
                    }
                } else {
                    assert(nv[x] == kv[x - 1]);
                    assert(nv[y] == kv[y - 1]);
                }
            }
            assert forall|e: Seq<char>| #[trigger]
                nv.to_set().contains(e) implies kv.to_set().insert(key@).contains(e) by {
                let i = choose|i: int| 0 <= i < nv.len() && nv[i] == e;
                if i < idx {
                    assert(kv[i] == e);
                } else if i > idx {
                    assert(kv[i - 1] == e);
                }
            }
            assert forall|e: Seq<char>| #[trigger]
                kv.to_set().insert(key@).contains(e) implies nv.to_set().contains(e) by {
                if e == key@ {
                    assert(nv[idx as int] == e);
                } else {
                    let i = choose|i: int| 0 <= i < kv.len() && kv[i] == e;
                    if i < idx {
                        assert(nv[i] == e);
                    } else {
                        assert(nv[i + 1] == e);
                    }
                }
            }
            assert(nv.to_set() =~= kv.to_set().insert(key@));
        }
    }
}

/// Folds every tag key of the drained mappings into one deduplicated list
/// in natural (code-point ascending) string order.
pub fn tag_keys(mappings: &Vec<TagMapping>) -> (r: Vec<String>)
    ensures
        strictly_ascending(r.deep_view()),
        r.deep_view().to_set() == all_tag_keys(mappings.deep_view()),
{
    let ghost mv = mappings.deep_view();
    let mut keys: Vec<String> = Vec::new();
    let mut mi: usize = 0;
    proof {
        assert(keys.deep_view() =~= Seq::<Seq<char>>::empty());
        assert(keys.deep_view().to_set() =~= all_tag_keys(mv.take(0)));
    }
    #[verifier::loop_isolation(false)]
    while mi < mappings.len()
        invariant
            mi <= mappings@.len(),
            strictly_ascending(keys.deep_view()),
            keys.deep_view().to_set() == all_tag_keys(mv.take(mi as int)),
        decreases mappings@.len() - mi,
    {
        let ghost mdeep = mv[mi as int];
        proof {
            assert(mv.take(mi as int + 1).drop_last() =~= mv.take(mi as int));
            assert(mv.take(mi as int + 1).last() == mv[mi as int]);
        }
        match &mappings[mi].tags {
            Option::Some(ts) => {
                let ghost tv = mapping_tags(mdeep);
                proof {
                    assert(tv == ts.deep_view());
                }
                let mut tj: usize = 0;
                proof {
                    assert(keys.deep_view().to_set() =~= all_tag_keys(mv.take(mi as int)).union(
                        keys_of_tags(tv.take(0)),
                    ));
                }
                #[verifier::loop_isolation(false)]
                while tj < ts.len()
                    invariant
                        tj <= ts@.len(),
                        strictly_ascending(keys.deep_view()),
                        keys.deep_view().to_set() == all_tag_keys(mv.take(mi as int)).union(
                            keys_of_tags(tv.take(tj as int)),
                        ),
                    decreases ts@.len() - tj,
                {
                    insert_key(&mut keys, &ts[tj].key);
                    proof {
                        assert(tv.take(tj as int + 1).drop_last() =~= tv.take(tj as int));
                        assert(tv.take(tj as int + 1).last() == tv[tj as int]);
                        assert(tv[tj as int].key == ts@[tj as int].key@);
                        assert(keys.deep_view().to_set() =~= all_tag_keys(mv.take(mi as int)).union(
                            keys_of_tags(tv.take(tj as int + 1)),
                        ));
                    }
                    tj = tj + 1;
                }
                proof {
                    assert(tv.take(ts@.len() as int) =~= tv);
                    assert(keys.deep_view().to_set() =~= all_tag_keys(mv.take(mi as int + 1)));
                }
            },
            Option::None => {
                proof {
                    assert(mapping_tags(mdeep) =~= Seq::<TagV>::empty());
                    assert(keys_of_tags(mapping_tags(mdeep)) =~= Set::<Seq<char>>::empty());
                    assert(keys.deep_view().to_set() =~= all_tag_keys(mv.take(mi as int + 1)));
                }
            },
        }
        mi = mi + 1;
    }
    proof {
        assert(mv.take(mv.len() as int) =~= mv);
    }
    keys
}

} // verus!
