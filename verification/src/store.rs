//! The per-file upload-timestamp record: a small key-value store mapping a
//! local path to the time it was last uploaded, in milliseconds since the
//! epoch.
//!
//! The store itself lives here with its uniqueness invariant and a
//! lookup-style specification; reading it from disk and writing it back are
//! the I/O layer's business.

use vstd::prelude::*;
use vstd::string::StringExecFns;

verus! {

/// The timestamp recorded under a key, searched from the most recent entry
/// backwards; `None` when the key is absent.
pub open spec fn lookup(s: Seq<(String, u64)>, key: Seq<char>) -> Option<u64>
    decreases s.len(),
{
    if s.len() == 0 {
        None
    } else if s.last().0@ == key {
        Some(s.last().1)
    } else {
        lookup(s.drop_last(), key)
    }
}

/// Upload timestamps by local path, each path held at most once.
pub struct TimestampStore {
    /// The recorded entries: a path and its last-upload time.
    pub entries: Vec<(String, u64)>,
}

impl TimestampStore {
    /// Every path occurs at most once.
    pub open spec fn wf(self) -> bool {
        forall|i: int, j: int|
            0 <= i < j < self.entries@.len() ==> (#[trigger] self.entries@[i]).0@ != (
            #[trigger] self.entries@[j]).0@
    }

    /// An empty record.
    pub fn new() -> (r: Self)
        ensures
            r.wf(),
            r.entries@.len() == 0,
            forall|k: Seq<char>| lookup(r.entries@, k) is None,
    {
        TimestampStore { entries: Vec::new() }
    }

    /// The timestamp recorded for `path`, if any.
    pub fn get(&self, path: &str) -> (r: Option<u64>)
        requires
            self.wf(),
        ensures
            r == lookup(self.entries@, path@),
    {
        let key = String::from_str(path);
        let n = self.entries.len();
        let mut i: usize = 0;
        while i < n
            invariant
                key@ == path@,
                0 <= i <= n,
                n == self.entries@.len(),
                self.wf(),
                forall|j: int| 0 <= j < i ==> (#[trigger] self.entries@[j]).0@ != path@,
            decreases n - i,
        {
            let entry = &self.entries[i];
            if entry.0.eq(&key) {
                proof {
                    lemma_lookup_found(self.entries@, path@, i as int);
                }
                return Some(entry.1);
            }
            i = i + 1;
        }
        proof {
            lemma_lookup_absent(self.entries@, path@);
        }
        None
    }

    /// Record `timestamp` under `path`, replacing any earlier entry for the
    /// same path and touching no other key.
    pub fn set(&mut self, path: &str, timestamp: u64)
        requires
            old(self).wf(),
        ensures
            final(self).wf(),
            lookup(final(self).entries@, path@) == Some(timestamp),
            forall|k: Seq<char>|
                k != path@ ==> #[trigger] lookup(final(self).entries@, k) == lookup(
                    old(self).entries@,
                    k,
                ),
    {
        let key = String::from_str(path);
        let n = self.entries.len();
        let mut i: usize = 0;
        let mut found: bool = false;
        while i < n && !found
            invariant
                key@ == path@,
                0 <= i <= n,
                n == self.entries@.len(),
                self.wf(),
                self.entries@ == old(self).entries@,
                found ==> i < n && (self.entries@[i as int]).0@ == path@,
                !found ==> forall|j: int| 0 <= j < i ==> (#[trigger] self.entries@[j]).0@ != path@,
            decreases n - i, (if found { 0int } else { 1int }),
        {
            let entry = &self.entries[i];
            if entry.0.eq(&key) {
                found = true;
            } else {
                i = i + 1;
            }
        }
        if found {
            let ghost before = self.entries@;
            self.entries.remove(i);
            proof {
                lemma_lookup_remove(before, i as int, path@);
            }
        } else {
            proof {
                lemma_lookup_absent(self.entries@, path@);
            }
        }
        let ghost kept = self.entries@;
        self.entries.push((String::from_str(path), timestamp));
        proof {
            assert(self.entries@.drop_last() =~= kept);
            assert forall|k: Seq<char>| k != path@ implies #[trigger] lookup(self.entries@, k)
                == lookup(old(self).entries@, k) by {
                assert(lookup(self.entries@, k) == lookup(kept, k));
            }
        }
    }
}

/// When the key stands at position `i` of a store with unique keys, the
/// lookup finds exactly that entry.
proof fn lemma_lookup_found(s: Seq<(String, u64)>, key: Seq<char>, i: int)
    requires
        0 <= i < s.len(),
        s[i].0@ == key,
        forall|p: int, q: int|
            0 <= p < q < s.len() ==> (#[trigger] s[p]).0@ != (#[trigger] s[q]).0@,
    ensures
        lookup(s, key) == Some(s[i].1),
    decreases s.len(),
{
    if i == s.len() - 1 {
    } else {
        assert(s.last().0@ != key);
        assert(s.drop_last()[i] == s[i]);
        lemma_lookup_found(s.drop_last(), key, i);
    }
}

/// When no entry holds the key, the lookup finds nothing.
proof fn lemma_lookup_absent(s: Seq<(String, u64)>, key: Seq<char>)
    requires
        forall|j: int| 0 <= j < s.len() ==> (#[trigger] s[j]).0@ != key,
    ensures
        lookup(s, key) is None,
    decreases s.len(),
{
    if s.len() > 0 {
        lemma_lookup_absent(s.drop_last(), key);
    }
}

/// Removing the (unique) entry of a key erases that key and leaves every
/// other key's lookup unchanged.
proof fn lemma_lookup_remove(s: Seq<(String, u64)>, i: int, key: Seq<char>)
    requires
        0 <= i < s.len(),
        s[i].0@ == key,
        forall|p: int, q: int|
            0 <= p < q < s.len() ==> (#[trigger] s[p]).0@ != (#[trigger] s[q]).0@,
    ensures
        forall|k: Seq<char>|
            k != key ==> #[trigger] lookup(s.remove(i), k) == lookup(s, k),
        forall|j: int| 0 <= j < s.remove(i).len() ==> (#[trigger] s.remove(i)[j]).0@ != key,
        lookup(s.remove(i), key) is None,
    decreases s.len(),
{
    let r = s.remove(i);
    assert forall|j: int| 0 <= j < r.len() implies (#[trigger] r[j]).0@ != key by {
        if j < i {
            assert(r[j] == s[j]);
        } else {
            assert(r[j] == s[j + 1]);
        }
    }
    lemma_lookup_absent(r, key);
    assert forall|k: Seq<char>| k != key implies #[trigger] lookup(r, k) == lookup(s, k) by {
        lemma_lookup_skip_other(s, i, k);
    }
}

/// Removing any one entry whose key differs from `k` leaves the lookup of
/// `k` unchanged.
proof fn lemma_lookup_skip_other(s: Seq<(String, u64)>, i: int, k: Seq<char>)
    requires
        0 <= i < s.len(),
        s[i].0@ != k,
    ensures
        lookup(s.remove(i), k) == lookup(s, k),
    decreases s.len(),
{
    let r = s.remove(i);
    if i == s.len() - 1 {
        assert(r =~= s.drop_last());
    } else {
        assert(r.last() == s.last());
        assert(r.drop_last() =~= s.drop_last().remove(i));
        if s.last().0@ == k {
        } else {
            lemma_lookup_skip_other(s.drop_last(), i, k);
        }
    }
}

} // verus!
