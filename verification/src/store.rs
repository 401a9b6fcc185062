//! The store: the immutable collection of entries built from one
//! configuration load, and ranked query matching over it.

use crate::entry::{parse_entry, score_spec, ConfigValue, EntryData, EntryId, Error, ParseFailure, StoreEntry};
use crate::icon::IconCache;
use vstd::prelude::*;

verus! {

/// An immutable (per load) ordered collection of entries.  It is
/// replaced wholesale on reload; there is no incremental patching
/// and no deletion.
#[derive(Debug)]
pub struct Store {
    entries: Vec<StoreEntry>,
}

impl View for Store {
    type V = Seq<EntryData>;

    closed spec fn view(&self) -> Seq<EntryData> {
        Seq::new(self.entries@.len(), |i: int| self.entries@[i]@)
    }
}

/// Entry `a` ranks strictly before entry `b` under `q`: it scores
/// higher, or it scores the same and was declared later.
pub open spec fn ranked_before(entries: Seq<EntryData>, q: Seq<char>, a: int, b: int) -> bool {
    score_spec(entries[a], q) > score_spec(entries[b], q) || (score_spec(entries[a], q)
        == score_spec(entries[b], q) && a > b)
}

impl Store {
    /// Parses every named value into an entry, in order; the first
    /// failure aborts the whole build with that entry's error.
    #[verifier::loop_isolation(false)]
    pub fn build(serialized_entries: Vec<(String, ConfigValue)>) -> (r: Result<Store, Error>)
        ensures
            match r {
                Ok(store) => {
                    &&& store@.len() == serialized_entries@.len()
                    &&& forall|i: int|
                        0 <= i < store@.len() ==> parse_entry(
                            serialized_entries@[i].0@,
                            serialized_entries@[i].1@,
                        ) == Result::Ok::<EntryData, ParseFailure>(store@[i])
                },
                Err(e) => exists|i: int|
                    #![auto]
                    0 <= i < serialized_entries@.len() && (forall|j: int|
                        0 <= j < i ==> parse_entry(
                            serialized_entries@[j].0@,
                            serialized_entries@[j].1@,
                        ) is Ok) && (match e {
                        Error::BareKeyError(s) => parse_entry(
                            serialized_entries@[i].0@,
                            serialized_entries@[i].1@,
                        ) == Result::Err::<EntryData, ParseFailure>(ParseFailure::BareKey) && s@
                            == serialized_entries@[i].0@,
                        Error::ParseError(_) => parse_entry(
                            serialized_entries@[i].0@,
                            serialized_entries@[i].1@,
                        ) == Result::Err::<EntryData, ParseFailure>(ParseFailure::BadField),
                        Error::ConflictError(s) => parse_entry(
                            serialized_entries@[i].0@,
                            serialized_entries@[i].1@,
                        ) == Result::Err::<EntryData, ParseFailure>(ParseFailure::Conflict) && s@
                            == serialized_entries@[i].0@,
                    }),
            },
    {
        let ghost orig = serialized_entries@;
        let mut rest = serialized_entries;
        let mut entries: Vec<StoreEntry> = Vec::new();
        let ghost mut done: int = 0;
        while rest.len() > 0
            invariant
                0 <= done <= orig.len(),
                rest@ =~= orig.skip(done),
                entries@.len() == done,
                forall|i: int|
                    0 <= i < done ==> parse_entry(orig[i].0@, orig[i].1@)
                        == Result::Ok::<EntryData, ParseFailure>(entries@[i]@),
            decreases rest@.len(),
        {
            let (name, val) = rest.remove(0);
            let ghost gname = name@;
            let ghost gval = val@;
            proof {
                assert(orig.skip(done)[0] == orig[done]);
                assert(orig.skip(done).remove(0) =~= orig.skip(done + 1));
            }
            match StoreEntry::from_value(name, val) {
                Ok(e) => {
                    entries.push(e);
                },
                Err(err) => {
                    proof {
                        assert forall|j: int| 0 <= j < done implies parse_entry(
                            orig[j].0@,
                            orig[j].1@,
                        ) is Ok by {
                            assert(parse_entry(orig[j].0@, orig[j].1@)
                                == Result::Ok::<EntryData, ParseFailure>(entries@[j]@));
                        }
                        assert(serialized_entries@ == orig);
                        assert(0 <= done < orig.len());
                        assert(orig[done].0@ == gname && orig[done].1@ == gval);
                        match &err {
                            Error::BareKeyError(s) => {
                                assert(parse_entry(orig[done].0@, orig[done].1@)
                                    == Result::Err::<EntryData, ParseFailure>(
                                    ParseFailure::BareKey,
                                ) && s@ == orig[done].0@);
                            },
                            Error::ParseError(_) => {
                                assert(parse_entry(orig[done].0@, orig[done].1@)
                                    == Result::Err::<EntryData, ParseFailure>(
                                    ParseFailure::BadField,
                                ));
                            },
                            Error::ConflictError(s) => {
                                assert(parse_entry(orig[done].0@, orig[done].1@)
                                    == Result::Err::<EntryData, ParseFailure>(
                                    ParseFailure::Conflict,
                                ) && s@ == orig[done].0@);
                            },
                        }
                    }
                    return Err(err);
                },
            }
            proof {
                done = done + 1;
            }
        }
        proof {
            assert(orig.skip(done).len() == 0);
            assert(done == orig.len());
        }
        let store = Store { entries };
        proof {
            assert forall|i: int| 0 <= i < store@.len() implies parse_entry(
                orig[i].0@,
                orig[i].1@,
            ) == Result::Ok::<EntryData, ParseFailure>(store@[i]) by {
                assert(store@[i] == store.entries@[i]@);
                assert(parse_entry(orig[i].0@, orig[i].1@) == Result::Ok::<
                    EntryData,
                    ParseFailure,
                >(store.entries@[i]@));
            }
        }
        Ok(store)
    }

    /// The number of entries.
    pub fn len(&self) -> (r: usize)
        ensures
            r == self@.len(),
    {
        self.entries.len()
    }

    /// The entry behind an identifier returned by `find_matches`.
    pub fn get(&self, id: EntryId) -> (r: &StoreEntry)
        requires
            id < self@.len(),
        ensures
            r@ == self@[id as int],
    {
        &self.entries[id]
    }

    /// Asks the cache for the icon of each displayed entry, so that
    /// every one of them is at least pending: a key already pending
    /// or resolved is left exactly as it was (and queues no further
    /// request), and no key outside the displayed entries changes.
    #[verifier::loop_isolation(false)]
    pub fn request_icons(&self, ids: &[EntryId], cache: &mut IconCache)
        requires
            old(cache).wf(),
            forall|i: int| 0 <= i < ids@.len() ==> ids@[i] < self@.len(),
        ensures
            final(cache).wf(),
            final(cache).worker_registered() == old(cache).worker_registered(),
            forall|i: int|
                0 <= i < ids@.len() ==> !(final(cache).state_of(
                    self@[ids@[i] as int].icon_type,
                ) is Unrequested),
            forall|k: crate::icon::IconKey|
                !(old(cache).state_of(k) is Unrequested) ==> final(cache).state_of(k) == old(
                    cache,
                ).state_of(k),
            forall|k: crate::icon::IconKey|
                final(cache).state_of(k) is Unrequested ==> old(cache).state_of(k) is Unrequested,
    {
        let mut i: usize = 0;
        while i < ids.len()
            invariant
                0 <= i <= ids@.len(),
                cache.wf(),
                cache.worker_registered() == old(cache).worker_registered(),
                forall|j: int|
                    0 <= j < i ==> !(cache.state_of(self@[ids@[j] as int].icon_type) is Unrequested),
                forall|k: crate::icon::IconKey|
                    !(old(cache).state_of(k) is Unrequested) ==> cache.state_of(k) == old(
                        cache,
                    ).state_of(k),
                forall|k: crate::icon::IconKey|
                    cache.state_of(k) is Unrequested ==> old(cache).state_of(k) is Unrequested,
            decreases ids@.len() - i,
        {
            let id = ids[i];
            let key = self.entries[id].icontype().dup();
            let _ = cache.get(&key);
            i += 1;
        }
    }

    /// The identifiers of all entries with a positive score against
    /// `query`, ranked: higher scores first, and among equal scores
    /// the later-declared entry before the earlier one.
    #[verifier::loop_isolation(false)]
    pub fn find_matches(&self, query: &str) -> (r: Vec<EntryId>)
        ensures
            forall|i: int|
                0 <= i < r@.len() ==> r@[i] < self@.len() && score_spec(
                    self@[r@[i] as int],
                    query@,
                ) > 0,
            forall|i: int, j: int|
                0 <= i < j < r@.len() ==> ranked_before(self@, query@, r@[i] as int, r@[j] as int),
            forall|id: int|
                0 <= id < self@.len() && score_spec(self@[id], query@) > 0 ==> exists|i: int|
                    0 <= i < r@.len() && r@[i] == id,
    {
        let n = self.entries.len();
        let mut scores: Vec<u32> = Vec::new();
        let mut i: usize = 0;
        while i < n
            invariant
                0 <= i <= n,
                scores@.len() == i,
                forall|k: int| 0 <= k < i ==> scores@[k] == score_spec(self@[k], query@),
            decreases n - i,
        {
            scores.push(self.entries[i].score(query));
            i += 1;
        }

        let mut res: Vec<EntryId> = Vec::new();
        let mut id: usize = 0;
        while id < n
            invariant
                0 <= id <= n,
                forall|k: int|
                    0 <= k < res@.len() ==> res@[k] < id && score_spec(self@[res@[k] as int], query@)
                        > 0,
                forall|k: int, l: int|
                    0 <= k < l < res@.len() ==> ranked_before(
                        self@,
                        query@,
                        res@[k] as int,
                        res@[l] as int,
                    ),
                forall|m: int|
                    0 <= m < id && score_spec(self@[m], query@) > 0 ==> exists|k: int|
                        0 <= k < res@.len() && res@[k] == m,
            decreases n - id,
        {
            let s = scores[id];
            if s > 0 {
                let mut p: usize = 0;
                while p < res.len() && scores[res[p]] > s
                    invariant
                        0 <= p <= res@.len(),
                        forall|k: int|
                            0 <= k < p ==> score_spec(self@[res@[k] as int], query@) > s,
                    decreases res@.len() - p,
                {
                    p += 1;
                }
                let ghost pre = res@;
                res.insert(p, id);
                proof {
                    assert(res@ =~= pre.insert(p as int, id as EntryId));
                    assert forall|k: int, l: int|
                        0 <= k < l < res@.len() implies ranked_before(
                        self@,
                        query@,
                        res@[k] as int,
                        res@[l] as int,
                    ) by {
                        if l < p {
                        } else if k < p && l == p {
                            assert(res@[l] == id);
                        } else if k < p && l > p {
                            assert(res@[l] == pre[l - 1]);
                        } else if k == p {
                            assert(res@[k] == id);
                            assert(res@[l] == pre[l - 1]);
                            if p < pre.len() {
                                assert(score_spec(self@[pre[p as int] as int], query@) <= s);
                                if l - 1 > p {
                                    assert(ranked_before(
                                        self@,
                                        query@,
                                        pre[p as int] as int,
                                        pre[l - 1] as int,
                                    ));
                                }
                            }
                        } else {
                            assert(res@[k] == pre[k - 1]);
                            assert(res@[l] == pre[l - 1]);
                        }
                    }
                    assert forall|m: int|
                        0 <= m < id + 1 && score_spec(self@[m], query@) > 0 implies exists|k: int|
                        0 <= k < res@.len() && res@[k] == m by {
                        if m == id {
                            assert(res@[p as int] == m);
                        } else {
                            let k0 = choose|k: int| 0 <= k < pre.len() && pre[k] == m;
                            if k0 < p {
                                assert(res@[k0] == m);
                            } else {
                                assert(res@[k0 + 1] == m);
                            }
                        }
                    }
                }
            }
            id += 1;
        }
        res
    }
}

} // verus!
