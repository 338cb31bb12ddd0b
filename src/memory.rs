//! The memory tier: a process-local map from key to the last recorded result.
use vstd::prelude::*;
use crate::codec::{IconKey, KeyModel};

verus! {

/// Age, in milliseconds, under which a remembered failure answers lookups.
pub const NEGATIVE_CACHE_TTL_MS: u64 = 300_000;

/// A recorded result: `Some(data_url)` for an image, `None` for a failed
/// extraction, with the clock reading (milliseconds) at which it was recorded.
#[derive(Debug)]
pub struct CacheEntry {
    pub data: Option<String>,
    pub created_at: u64,
}

pub struct EntryModel {
    pub data: Option<Seq<char>>,
    pub created_at: u64,
}

pub open spec fn data_model(d: Option<String>) -> Option<Seq<char>> {
    match d {
        Some(s) => Some(s@),
        None => None,
    }
}

impl View for CacheEntry {
    type V = EntryModel;

    open spec fn view(&self) -> EntryModel {
        EntryModel { data: data_model(self.data), created_at: self.created_at }
    }
}

/// What the memory tier knows of a key at a given time.
#[derive(Debug)]
pub enum HitKind {
    Positive(String),
    NegativeFresh,
    NegativeExpired,
    Absent,
}

pub enum HitModel {
    Positive(Seq<char>),
    NegativeFresh,
    NegativeExpired,
    Absent,
}

impl View for HitKind {
    type V = HitModel;

    open spec fn view(&self) -> HitModel {
        match self {
            HitKind::Positive(s) => HitModel::Positive(s@),
            HitKind::NegativeFresh => HitModel::NegativeFresh,
            HitKind::NegativeExpired => HitModel::NegativeExpired,
            HitKind::Absent => HitModel::Absent,
        }
    }
}

/// Time elapsed since `created_at`; a clock reading before it counts as none.
pub open spec fn age(created_at: u64, now: u64) -> nat {
    if now >= created_at {
        (now - created_at) as nat
    } else {
        0
    }
}

/// The entry recorded for `k`, if any.
pub open spec fn entry_of(m: Map<KeyModel, EntryModel>, k: KeyModel) -> Option<EntryModel> {
    if m.contains_key(k) {
        Some(m[k])
    } else {
        None
    }
}

/// How a lookup at time `now` classifies what is recorded: an image is
/// returned whatever its age; a failure counts while younger than the TTL.
pub open spec fn classify(e: Option<EntryModel>, now: u64) -> HitModel {
    match e {
        None => HitModel::Absent,
        Some(e) => match e.data {
            Some(d) => HitModel::Positive(d),
            None => if age(e.created_at, now) < NEGATIVE_CACHE_TTL_MS {
                HitModel::NegativeFresh
            } else {
                HitModel::NegativeExpired
            },
        },
    }
}

/// The memory tier. Each key occurs at most once in `entries`.
pub struct IconCache {
    entries: Vec<(IconKey, CacheEntry)>,
    model: Ghost<Map<KeyModel, EntryModel>>,
}

impl View for IconCache {
    type V = Map<KeyModel, EntryModel>;

    closed spec fn view(&self) -> Map<KeyModel, EntryModel> {
        self.model@
    }
}

impl IconCache {
    /// Keys are distinct, and the entries hold exactly the map.
    pub closed spec fn wf(&self) -> bool {
        &&& forall|i: int, j: int|
            0 <= i < j < self.entries@.len() ==> self.entries@[i].0@ != self.entries@[j].0@
        &&& forall|i: int|
            0 <= i < self.entries@.len() ==> {
                &&& #[trigger] self.model@.contains_key(self.entries@[i].0@)
                &&& self.model@[self.entries@[i].0@] == self.entries@[i].1@
            }
        &&& forall|k: KeyModel|
            #[trigger] self.model@.contains_key(k) ==> exists|i: int|
                0 <= i < self.entries@.len() && self.entries@[i].0@ == k
    }

    /// An empty memory tier.
    pub fn new() -> (r: IconCache)
        ensures
            r.wf(),
            r@ == Map::<KeyModel, EntryModel>::empty(),
    {
        IconCache { entries: Vec::new(), model: Ghost(Map::empty()) }
    }

    /// The number of keys recorded.
    pub fn len(&self) -> (r: usize)
        requires
            self.wf(),
        ensures
            r == self@.len(),
    {
        proof {
            self.lemma_dom_is_keys();
        }
        self.entries.len()
    }

    proof fn lemma_dom_is_keys(&self)
        requires
            self.wf(),
        ensures
            self@.dom() == Seq::new(self.entries@.len(), |i: int| self.entries@[i].0@).to_set(),
            self@.len() == self.entries@.len(),
    {
        let s = Seq::new(self.entries@.len(), |i: int| self.entries@[i].0@);
        assert(self@.dom() =~= s.to_set()) by {
            assert forall|k: KeyModel| self@.dom().contains(k) implies s.to_set().contains(k) by {
                let i = choose|i: int| 0 <= i < self.entries@.len() && self.entries@[i].0@ == k;
                assert(s[i] == k);
            }
            assert forall|k: KeyModel| s.to_set().contains(k) implies self@.dom().contains(k) by {
                let i = choose|i: int| 0 <= i < s.len() && s[i] == k;
                assert(self.model@.contains_key(self.entries@[i].0@));
            }
        }
        assert(s.no_duplicates());
        s.unique_seq_to_set();
    }

    /// Where `key` stands in `entries`, if it is recorded.
    fn position(&self, key: &IconKey) -> (r: Option<usize>)
        requires
            self.wf(),
        ensures
            match r {
                Some(i) => i < self.entries@.len() && self.entries@[i as int].0@ == key@,
                None => !self@.contains_key(key@),
            },
    {
        let mut i: usize = 0;
        while i < self.entries.len()
            invariant
                i <= self.entries@.len(),
                forall|j: int| 0 <= j < i ==> self.entries@[j].0@ != key@,
            decreases self.entries@.len() - i,
        {
            if self.entries[i].0.same_as(key) {
                return Some(i);
            }
            i = i + 1;
        }
        None
    }

    /// Classifies what is recorded for `key` at clock reading `now`.
    pub fn lookup(&self, key: &IconKey, now: u64) -> (r: HitKind)
        requires
            self.wf(),
        ensures
            r@ == classify(entry_of(self@, key@), now),
    {
        match self.position(key) {
            None => HitKind::Absent,
            Some(i) => {
                let entry = &self.entries[i].1;
                proof {
                    assert(self.model@.contains_key(self.entries@[i as int].0@));
                }
                match &entry.data {
                    Some(d) => HitKind::Positive(d.clone()),
                    None => {
                        let age: u64 = if now >= entry.created_at {
                            now - entry.created_at
                        } else {
                            0
                        };
                        if age < NEGATIVE_CACHE_TTL_MS {
                            HitKind::NegativeFresh
                        } else {
                            HitKind::NegativeExpired
                        }
                    },
                }
            },
        }
    }

    /// Records `entry` for `key`, replacing whatever was recorded before.
    pub fn insert(&mut self, key: IconKey, entry: CacheEntry)
        requires
            old(self).wf(),
        ensures
            final(self).wf(),
            final(self)@ == old(self)@.insert(key@, entry@),
    {
        let ghost k = key@;
        let ghost e = entry@;
        let ghost mut at: int = 0;
        match self.position(&key) {
            Some(i) => {
                self.entries.set(i, (key, entry));
                proof {
                    at = i as int;
                }
            },
            None => {
                self.entries.push((key, entry));
                proof {
                    at = self.entries@.len() - 1;
                }
            },
        }
        self.model = Ghost(self.model@.insert(k, e));
        proof {
            let n = self.entries@.len();
            assert forall|j: int| 0 <= j < n implies {
                &&& #[trigger] self.model@.contains_key(self.entries@[j].0@)
                &&& self.model@[self.entries@[j].0@] == self.entries@[j].1@
            } by {
                if self.entries@[j].0@ != k {
                    assert(old(self).entries@[j] == self.entries@[j]);
                    assert(old(self).model@.contains_key(old(self).entries@[j].0@));
                }
            }
            assert forall|kk: KeyModel| #[trigger] self.model@.contains_key(kk) implies exists|j: int|
                0 <= j < n && self.entries@[j].0@ == kk by {
                if kk != k {
                    let j = choose|j: int|
                        0 <= j < old(self).entries@.len() && old(self).entries@[j].0@ == kk;
                    assert(self.entries@[j].0@ == kk);
                } else {
                    assert(self.entries@[at].0@ == kk);
                }
            }
        }
    }
}

} // verus!
