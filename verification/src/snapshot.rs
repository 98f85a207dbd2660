//! A snapshot of the local download directory, taken before a run: which
//! files exist and what their content fingerprints are.  The diff works on
//! this plain value alone, so its result depends on nothing but the
//! manifest and the snapshot.

use vstd::prelude::*;

verus! {

/// One local file as the reconciler sees it: its manifest-relative name
/// and its fingerprint.  `digest` is `None` where the file exists but
/// could not be read.
pub struct LocalFile {
    pub name: String,
    pub digest: Option<String>,
}

/// What a local file's fingerprint compares as.  An unreadable file counts
/// as the empty string, which differs from every well-formed manifest
/// entry, so such a file is re-downloaded rather than silently trusted.
pub open spec fn effective_digest(f: LocalFile) -> Seq<char> {
    match f.digest {
        Some(d) => d@,
        None => Seq::empty(),
    }
}

/// The files that exist in the download directory, in any order.  A name
/// with no entry here is absent on disk.
pub struct Snapshot {
    pub entries: Vec<LocalFile>,
}

/// Whether the snapshot holds a file of the given name.
pub open spec fn snap_contains(s: Seq<LocalFile>, name: Seq<char>) -> bool {
    exists|i: int| 0 <= i < s.len() && s[i].name@ == name
}

/// The fingerprint the snapshot records for a name: the first matching
/// entry's, or the empty string where there is none.
pub open spec fn snap_digest(s: Seq<LocalFile>, name: Seq<char>) -> Seq<char>
    decreases s.len(),
{
    if s.len() == 0 {
        Seq::empty()
    } else if s[0].name@ == name {
        effective_digest(s[0])
    } else {
        snap_digest(s.drop_first(), name)
    }
}

/// The recorded fingerprint of a name is its first matching entry's.
proof fn lemma_snap_digest_at(s: Seq<LocalFile>, name: Seq<char>, i: int)
    requires
        0 <= i < s.len(),
        s[i].name@ == name,
        forall|j: int| 0 <= j < i ==> s[j].name@ != name,
    ensures
        snap_digest(s, name) == effective_digest(s[i]),
    decreases i,
{
    if i > 0 {
        assert forall|j: int| 0 <= j < i - 1 implies s.drop_first()[j].name@ != name by {
            assert(s.drop_first()[j] == s[j + 1]);
        }
        assert(s.drop_first()[i - 1] == s[i]);
        lemma_snap_digest_at(s.drop_first(), name, i - 1);
    }
}

impl Snapshot {
    /// Looks a name up: the recorded fingerprint where the file exists,
    /// `None` where it does not.
    pub fn lookup(&self, name: &String) -> (r: Option<String>)
        ensures
            r is Some <==> snap_contains(self.entries@, name@),
            r matches Some(d) ==> d@ == snap_digest(self.entries@, name@),
    {
        let n = self.entries.len();
        let mut i: usize = 0;
        while i < n
            invariant
                0 <= i <= n,
                n == self.entries@.len(),
                forall|j: int| 0 <= j < i ==> (#[trigger] self.entries@[j]).name@ != name@,
            decreases n - i,
        {
            let e = &self.entries[i];
            if e.name == *name {
                proof {
                    assert(self.entries@[i as int].name@ == name@);
                    lemma_snap_digest_at(self.entries@, name@, i as int);
                }
                match &e.digest {
                    Some(d) => {
                        return Some(d.clone());
                    },
                    None => {
                        return Some(String::new());
                    },
                }
            }
            i = i + 1;
        }
        None
    }
}

} // verus!
