//! One-time password-reset keys, each bound to an email address and the time
//! it was issued.

use vstd::prelude::*;
use crate::text::same_text;

verus! {

/// Seconds during which a reset key stays usable: one day.
pub const RESET_WINDOW: u64 = 86400;

/// A pending reset: the key, the address it was sent to, and when.
#[derive(Debug)]
pub struct ResetRecord {
    pub key: String,
    pub email: String,
    pub issued_at: u64,
}

pub struct ResetView {
    pub key: Seq<char>,
    pub email: Seq<char>,
    pub issued_at: u64,
}

impl View for ResetRecord {
    type V = ResetView;

    open spec fn view(&self) -> ResetView {
        ResetView { key: self.key@, email: self.email@, issued_at: self.issued_at }
    }
}

/// No two records share a key.
pub open spec fn distinct_keys(s: Seq<ResetView>) -> bool {
    forall|i: int, j: int|
        #![trigger s[i], s[j]]
        0 <= i < s.len() && 0 <= j < s.len() && i != j ==> s[i].key != s[j].key
}

pub open spec fn has_key(s: Seq<ResetView>, key: Seq<char>) -> bool {
    exists|i: int| 0 <= i < s.len() && #[trigger] s[i].key == key
}

/// The record held for `key`.
pub open spec fn entry(s: Seq<ResetView>, key: Seq<char>) -> Option<ResetView> {
    if has_key(s, key) {
        Some(s[choose|i: int| 0 <= i < s.len() && #[trigger] s[i].key == key])
    } else {
        None
    }
}

/// The records as a map from key to record.
pub open spec fn as_map(s: Seq<ResetView>) -> Map<Seq<char>, ResetView> {
    Map::new(|k: Seq<char>| has_key(s, k), |k: Seq<char>| entry(s, k)->0)
}

/// `key` may reset the password of `email` at time `now`: it was issued for
/// that address, and at most one day ago.
pub open spec fn key_valid(
    m: Map<Seq<char>, ResetView>,
    key: Seq<char>,
    email: Seq<char>,
    now: u64,
) -> bool {
    &&& m.contains_key(key)
    &&& m[key].email == email
    &&& now <= m[key].issued_at + RESET_WINDOW
}

/// The pending resets.
pub struct ResetKeyStore {
    records: Vec<ResetRecord>,
}

impl View for ResetKeyStore {
    type V = Map<Seq<char>, ResetView>;

    closed spec fn view(&self) -> Map<Seq<char>, ResetView> {
        as_map(self.rv())
    }
}

proof fn lemma_entry_at(s: Seq<ResetView>, i: int)
    requires
        distinct_keys(s),
        0 <= i < s.len(),
    ensures
        entry(s, s[i].key) == Some(s[i]),
{
    let j = choose|j: int| 0 <= j < s.len() && #[trigger] s[j].key == s[i].key;
    assert(s[j].key == s[i].key);
}

impl ResetKeyStore {
    closed spec fn rv(&self) -> Seq<ResetView> {
        self.records@.map_values(|r: ResetRecord| r@)
    }

    #[verifier::type_invariant]
    spec fn inv(self) -> bool {
        distinct_keys(self.rv())
    }

    /// No pending resets.
    pub fn new() -> (r: Self)
        ensures
            r@ == Map::<Seq<char>, ResetView>::empty(),
    {
        let r = ResetKeyStore { records: Vec::new() };
        assert(r.rv() =~= Seq::<ResetView>::empty());
        assert(r@ =~= Map::<Seq<char>, ResetView>::empty());
        r
    }

    fn find(&self, key: &str) -> (r: Option<usize>)
        ensures
            r matches Some(i) ==> i < self.rv().len() && entry(self.rv(), key@) == Some(self.rv()[i as int]),
            r is None ==> entry(self.rv(), key@) is None,
    {
        proof {
            use_type_invariant(self);
        }
        let mut i: usize = 0;
        while i < self.records.len()
            invariant
                i <= self.rv().len(),
                self.rv().len() == self.records@.len(),
                distinct_keys(self.rv()),
                forall|k: int| 0 <= k < i ==> self.rv()[k].key != key@,
            decreases self.records@.len() - i,
        {
            if same_text(self.records[i].key.as_str(), key) {
                proof {
                    lemma_entry_at(self.rv(), i as int);
                }
                return Some(i);
            }
            i = i + 1;
        }
        None
    }

    /// The record held for `key`.
    pub fn get(&self, key: &str) -> (r: Option<&ResetRecord>)
        ensures
            self@.contains_key(key@) ==> (r matches Some(x) && x@ == self@[key@]),
            !self@.contains_key(key@) ==> r is None,
    {
        match self.find(key) {
            Some(i) => Some(&self.records[i]),
            None => None,
        }
    }

    /// Whether `key` may reset the password of `email` at time `now`.
    pub fn is_valid(&self, key: &str, email: &str, now: u64) -> (r: bool)
        ensures
            r == key_valid(self@, key@, email@, now),
    {
        match self.find(key) {
            None => false,
            Some(i) => {
                let rec = &self.records[i];
                same_text(rec.email.as_str(), email) && (rec.issued_at >= now || now
                    - rec.issued_at <= RESET_WINDOW)
            },
        }
    }

    /// Forgets `key`; every other key keeps its record.
    pub fn remove(&mut self, key: &str)
        ensures
            final(self)@ == old(self)@.remove(key@),
    {
        self.remove_entry(key);
    }

    fn remove_entry(&mut self, key: &str)
        ensures
            entry(final(self).rv(), key@) is None,
            forall|k: Seq<char>| k != key@ ==> #[trigger] entry(final(self).rv(), k) == entry(old(self).rv(), k),
            final(self)@ == old(self)@.remove(key@),
    {
        proof {
            use_type_invariant(&*self);
        }
        match self.find(key) {
            None => {},
            Some(i) => {
                let ghost before = self.rv();
                let mut records: Vec<ResetRecord> = Vec::new();
                std::mem::swap(&mut self.records, &mut records);
                records.remove(i);
                let ghost after = records@.map_values(|r: ResetRecord| r@);
                proof {
                    assert(after =~= before.remove(i as int));
                    assert forall|a: int, b: int|
                        0 <= a < after.len() && 0 <= b < after.len() && a != b implies #[trigger] after[a].key
                        != #[trigger] after[b].key by {
                        let a2 = if a < i { a } else { a + 1 };
                        let b2 = if b < i { b } else { b + 1 };
                        assert(after[a] == before[a2]);
                        assert(after[b] == before[b2]);
                    }
                    assert(!has_key(after, key@)) by {
                        if has_key(after, key@) {
                            let a = choose|a: int| 0 <= a < after.len() && #[trigger] after[a].key == key@;
                            let a2 = if a < i { a } else { a + 1 };
                            assert(after[a] == before[a2]);
                            assert(before[i as int].key == key@);
                        }
                    }
                    assert forall|k: Seq<char>| k != key@ implies #[trigger] entry(after, k) == entry(before, k) by {
                        if has_key(before, k) {
                            let b = choose|b: int| 0 <= b < before.len() && #[trigger] before[b].key == k;
                            lemma_entry_at(before, b);
                            assert(b != i);
                            let a = if b < i { b } else { b - 1 };
                            assert(after[a] == before[b]);
                            lemma_entry_at(after, a);
                        } else if has_key(after, k) {
                            let a = choose|a: int| 0 <= a < after.len() && #[trigger] after[a].key == k;
                            let a2 = if a < i { a } else { a + 1 };
                            assert(after[a] == before[a2]);
                        }
                    }
                }
                self.records = records;
                proof {
                    assert(self.rv() =~= after);
                }
            },
        }
        proof {
            let m = old(self)@.remove(key@);
            assert forall|k: Seq<char>| #[trigger] self@.contains_key(k) == m.contains_key(k) by {
                if k != key@ {
                    assert(entry(self.rv(), k) == entry(old(self).rv(), k));
                }
            }
            assert forall|k: Seq<char>| self@.contains_key(k) implies #[trigger] self@[k] == m[k] by {
                assert(entry(self.rv(), k) == entry(old(self).rv(), k));
            }
            assert(self@ =~= m);
        }
    }

    /// Records `key` for `email`, issued at `now`, replacing any earlier record
    /// of that key; every other key keeps its record.
    pub fn insert(&mut self, key: String, email: String, now: u64)
        ensures
            final(self)@ == old(self)@.insert(key@, ResetView { key: key@, email: email@, issued_at: now }),
    {
        self.remove_entry(key.as_str());
        let ghost mid = self@;
        proof {
            use_type_invariant(&*self);
        }
        let ghost before = self.rv();
        let rec = ResetRecord { key, email, issued_at: now };
        let ghost v = rec@;
        let mut records: Vec<ResetRecord> = Vec::new();
        std::mem::swap(&mut self.records, &mut records);
        records.push(rec);
        let ghost after = records@.map_values(|r: ResetRecord| r@);
        proof {
            assert(after =~= before.push(v));
            assert(!has_key(before, v.key)) by {
                assert(entry(before, v.key) is None);
            }
            assert forall|a: int, b: int|
                0 <= a < after.len() && 0 <= b < after.len() && a != b implies #[trigger] after[a].key
                != #[trigger] after[b].key by {
                if a == before.len() {
                    assert(after[b] == before[b]);
                } else if b == before.len() {
                    assert(after[a] == before[a]);
                }
            }
            lemma_entry_at(after, before.len() as int);
            assert forall|k: Seq<char>| k != v.key implies #[trigger] entry(after, k) == entry(before, k) by {
                if has_key(before, k) {
                    let b = choose|b: int| 0 <= b < before.len() && #[trigger] before[b].key == k;
                    lemma_entry_at(before, b);
                    assert(after[b] == before[b]);
                    lemma_entry_at(after, b);
                } else if has_key(after, k) {
                    let a = choose|a: int| 0 <= a < after.len() && #[trigger] after[a].key == k;
                    assert(a < before.len());
                    assert(after[a] == before[a]);
                }
            }
        }
        self.records = records;
        proof {
            assert(self.rv() =~= after);
            let m = mid.insert(v.key, v);
            assert forall|k: Seq<char>| #[trigger] self@.contains_key(k) == m.contains_key(k) by {
                if k != v.key {
                    assert(entry(after, k) == entry(before, k));
                }
            }
            assert forall|k: Seq<char>| self@.contains_key(k) implies #[trigger] self@[k] == m[k] by {
                if k != v.key {
                    assert(entry(after, k) == entry(before, k));
                }
            }
            assert(self@ =~= m);
        }
    }
}

} // verus!
