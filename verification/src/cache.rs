//! Cache of uploaded objects, keyed by the text of the local path.
//!
//! The cache is an ordinary value: whoever shares it between conversions
//! guards it with a lock of their own and hands it in while they hold it.

use vstd::prelude::*;
use crate::remote::{expired_at, RemoteObjectRef, RemoteObjectView};
use crate::text::same_text;

verus! {

/// One remembered upload.
struct CacheEntry {
    path: String,
    object: RemoteObjectRef,
}

/// At most one remote object per local path.
pub struct RemoteObjectCache {
    entries: Vec<CacheEntry>,
}

/// No path occurs twice among the entries.
spec fn distinct_paths(entries: Seq<CacheEntry>) -> bool {
    forall|i: int, j: int|
        0 <= i < j < entries.len() ==> (#[trigger] entries[i]).path@ != (#[trigger] entries[j]).path@
}

/// Whether position `i` holds the entry for `path`.
spec fn holds(entries: Seq<CacheEntry>, i: int, path: Seq<char>) -> bool {
    0 <= i < entries.len() && entries[i].path@ == path
}

/// A position that holds the entry for `path`, where there is one.
spec fn position_of(entries: Seq<CacheEntry>, path: Seq<char>) -> int {
    choose|i: int| holds(entries, i, path)
}

/// The entries as a map from path to object.
spec fn as_map(entries: Seq<CacheEntry>) -> Map<Seq<char>, RemoteObjectView> {
    Map::new(
        |path: Seq<char>| exists|i: int| holds(entries, i, path),
        |path: Seq<char>| entries[position_of(entries, path)].object@,
    )
}

/// With distinct paths, the entry at a position is what the map gives for
/// its path.
proof fn lemma_entry_is_mapped(entries: Seq<CacheEntry>, i: int)
    requires
        distinct_paths(entries),
        0 <= i < entries.len(),
    ensures
        as_map(entries).dom().contains(entries[i].path@),
        as_map(entries)[entries[i].path@] == entries[i].object@,
{
    let path = entries[i].path@;
    assert(holds(entries, i, path));
    let j = position_of(entries, path);
    assert(holds(entries, j, path));
    if j != i {
        if j < i {
            assert(entries[j].path@ != entries[i].path@);
        } else {
            assert(entries[i].path@ != entries[j].path@);
        }
    }
}

/// View of an optional object.
pub open spec fn object_view(object: Option<RemoteObjectRef>) -> Option<RemoteObjectView> {
    match object {
        Some(o) => Some(o@),
        None => None,
    }
}

/// What a lookup at time `now` finds: the object remembered for `path`,
/// unless there is none or it has expired.
pub open spec fn live_entry(
    cache: Map<Seq<char>, RemoteObjectView>,
    path: Seq<char>,
    now: int,
) -> Option<RemoteObjectView> {
    if cache.dom().contains(path) && !expired_at(cache[path].expiration, now) {
        Some(cache[path])
    } else {
        None
    }
}

/// `time::OffsetDateTime::now_utc` followed by `unix_timestamp_nanos`: the
/// system clock's time in nanoseconds since the Unix epoch. Nothing is
/// claimed of the value.
#[verifier::external_body]
fn now_unix_nanos() -> i128 {
    time::OffsetDateTime::now_utc().unix_timestamp_nanos()
}

impl View for RemoteObjectCache {
    type V = Map<Seq<char>, RemoteObjectView>;

    closed spec fn view(&self) -> Map<Seq<char>, RemoteObjectView> {
        as_map(self.entries@)
    }
}

impl RemoteObjectCache {
    #[verifier::type_invariant]
    spec fn well_formed(&self) -> bool {
        distinct_paths(self.entries@)
    }

    /// An empty cache.
    pub fn new() -> (cache: Self)
        ensures
            cache@ == Map::<Seq<char>, RemoteObjectView>::empty(),
    {
        let cache = RemoteObjectCache { entries: Vec::new() };
        assert(cache@ =~= Map::<Seq<char>, RemoteObjectView>::empty());
        cache
    }

    /// Position of the entry for `path`.
    fn find(&self, path: &str) -> (r: Option<usize>)
        ensures
            match r {
                Some(i) => holds(self.entries@, i as int, path@),
                None => forall|i: int| !holds(self.entries@, i, path@),
            },
    {
        let mut i: usize = 0;
        while i < self.entries.len()
            invariant
                i <= self.entries@.len(),
                forall|k: int| 0 <= k < i ==> !holds(self.entries@, k, path@),
            decreases self.entries@.len() - i,
        {
            if same_text(self.entries[i].path.as_str(), path) {
                return Some(i);
            }
            i += 1;
        }
        None
    }

    /// The object remembered for `path`, if there is one and it has not
    /// expired at `now` (nanoseconds since the Unix epoch). An expired entry
    /// stays where it is and is not returned.
    pub fn lookup(&self, path: &str, now: i128) -> (r: Option<RemoteObjectRef>)
        ensures
            object_view(r) == live_entry(self@, path@, now as int),
    {
        proof {
            use_type_invariant(self);
        }
        match self.find(path) {
            Some(i) => {
                proof {
                    lemma_entry_is_mapped(self.entries@, i as int);
                }
                if self.entries[i].object.is_expired(now) {
                    None
                } else {
                    Some(self.entries[i].object.clone())
                }
            },
            None => None,
        }
    }

    /// The object remembered for `path`, if there is one and it has not
    /// expired by the system clock.
    pub fn lookup_now(&self, path: &str) -> (r: Option<RemoteObjectRef>)
        ensures
            exists|now: int| object_view(r) == #[trigger] live_entry(self@, path@, now),
    {
        let now = now_unix_nanos();
        self.lookup(path, now)
    }

    /// Remembers `object` for `path`, in place of whatever was remembered
    /// for it before.
    pub fn insert(&mut self, path: &str, object: RemoteObjectRef)
        ensures
            final(self)@ == old(self)@.insert(path@, object@),
    {
        proof {
            use_type_invariant(&*self);
        }
        let ghost before = self.entries@;
        let found = self.find(path);
        let entry = CacheEntry { path: path.to_owned(), object };
        let mut entries: Vec<CacheEntry> = Vec::new();
        core::mem::swap(&mut self.entries, &mut entries);
        match found {
            Some(i) => {
                entries.set(i, entry);
            },
            None => {
                entries.push(entry);
            },
        }
        proof {
            let after = entries@;
            let at: int = match found {
                Some(i) => i as int,
                None => before.len() as int,
            };
            assert(holds(after, at, path@));
            assert forall|i: int| 0 <= i < after.len() && i != at implies after[i] == before[i]
                && after[i].path@ != path@ by {
                assert(holds(before, i, after[i].path@));
                if found is Some {
                    if i < at {
                        assert(before[i].path@ != before[at].path@);
                    } else {
                        assert(before[at].path@ != before[i].path@);
                    }
                } else {
                    assert(!holds(before, i, path@));
                }
            }
            assert(distinct_paths(after)) by {
                assert forall|i: int, j: int| 0 <= i < j < after.len() implies after[i].path@
                    != after[j].path@ by {
                    if i != at && j != at {
                        assert(before[i].path@ != before[j].path@);
                    }
                }
            }
            let target = as_map(before).insert(path@, object@);
            assert forall|q: Seq<char>| as_map(after).dom().contains(q) <==> target.dom().contains(
                q,
            ) by {
                if as_map(after).dom().contains(q) {
                    let k = choose|k: int| holds(after, k, q);
                    if k != at {
                        assert(holds(before, k, q));
                    }
                }
                if as_map(before).dom().contains(q) && q != path@ {
                    let k = choose|k: int| holds(before, k, q);
                    assert(k != at);
                    assert(holds(after, k, q));
                }
            }
            assert forall|q: Seq<char>| as_map(after).dom().contains(q) implies as_map(after)[q]
                == target[q] by {
                let k = choose|k: int| holds(after, k, q);
                lemma_entry_is_mapped(after, k);
                if k != at {
                    assert(q != path@);
                    lemma_entry_is_mapped(before, k);
                }
            }
            assert(as_map(after) =~= target);
        }
        self.entries = entries;
    }

    /// How many paths the cache remembers.
    pub fn len(&self) -> (n: usize)
        ensures
            n == self@.dom().len(),
            self@.dom().finite(),
    {
        proof {
            use_type_invariant(self);
            lemma_domain_size(self.entries@);
        }
        self.entries.len()
    }
}

/// With distinct paths the map has as many keys as there are entries.
proof fn lemma_domain_size(entries: Seq<CacheEntry>)
    requires
        distinct_paths(entries),
    ensures
        as_map(entries).dom().finite(),
        as_map(entries).dom().len() == entries.len(),
    decreases entries.len(),
{
    if entries.len() == 0 {
        assert(as_map(entries).dom() =~= Set::<Seq<char>>::empty());
    } else {
        let rest = entries.drop_last();
        let last = entries.last();
        assert forall|i: int, j: int| 0 <= i < j < rest.len() implies rest[i].path@
            != rest[j].path@ by {
            assert(entries[i].path@ != entries[j].path@);
        }
        lemma_domain_size(rest);
        assert(!as_map(rest).dom().contains(last.path@)) by {
            if as_map(rest).dom().contains(last.path@) {
                let k = choose|k: int| holds(rest, k, last.path@);
                assert(entries[k].path@ != entries[entries.len() - 1].path@);
            }
        }
        assert(as_map(entries).dom() =~= as_map(rest).dom().insert(last.path@)) by {
            assert forall|q: Seq<char>| as_map(entries).dom().contains(q) <==> as_map(
                rest,
            ).dom().insert(last.path@).contains(q) by {
                if as_map(entries).dom().contains(q) {
                    let k = choose|k: int| holds(entries, k, q);
                    if k < rest.len() {
                        assert(holds(rest, k, q));
                    }
                }
                if as_map(rest).dom().contains(q) {
                    let k = choose|k: int| holds(rest, k, q);
                    assert(holds(entries, k, q));
                }
                if q == last.path@ {
                    assert(holds(entries, entries.len() - 1, q));
                }
            }
        }
    }
}

} // verus!
