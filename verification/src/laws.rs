//! What the diff engine guarantees, stated and proved once and for all:
//! a file whose fingerprint matches is never re-downloaded, an absent
//! hashed file is always listed, and a run that repaired everything leaves
//! nothing for the next run to do.

use crate::manifest::HashEntry;
use crate::reconcile::{entry_outdated, missing_names, outdated_names, stale_names};
use crate::snapshot::{LocalFile, snap_contains, snap_digest};
use vstd::prelude::*;

verus! {

/// Membership in a concatenation is membership in either part.
proof fn lemma_add_contains<A>(a: Seq<A>, b: Seq<A>, x: A)
    ensures
        (a + b).contains(x) <==> a.contains(x) || b.contains(x),
{
    if (a + b).contains(x) {
        let i = choose|i: int| 0 <= i < (a + b).len() && (a + b)[i] == x;
        if i < a.len() {
            assert(a[i] == x);
        } else {
            assert(b[i - a.len()] == x);
        }
    }
    if a.contains(x) {
        let i = choose|i: int| 0 <= i < a.len() && a[i] == x;
        assert((a + b)[i] == x);
    }
    if b.contains(x) {
        let i = choose|i: int| 0 <= i < b.len() && b[i] == x;
        assert((a + b)[a.len() + i] == x);
    }
}

/// Membership in a nonempty sequence is membership before the last element
/// or equality with it.
proof fn lemma_contains_split<A>(s: Seq<A>, x: A)
    requires
        s.len() > 0,
    ensures
        s.contains(x) <==> s.drop_last().contains(x) || s.last() == x,
{
    if s.contains(x) {
        let i = choose|i: int| 0 <= i < s.len() && s[i] == x;
        if i < s.len() - 1 {
            assert(s.drop_last()[i] == x);
        }
    }
    if s.drop_last().contains(x) {
        let i = choose|i: int| 0 <= i < s.drop_last().len() && s.drop_last()[i] == x;
        assert(s[i] == x);
    }
}

/// The `files` pass lists exactly the listed names the snapshot lacks.
pub proof fn lemma_missing_names_member(files: Seq<Seq<char>>, snap: Seq<LocalFile>, x: Seq<char>)
    ensures
        missing_names(files, snap).contains(x) <==> files.contains(x) && !snap_contains(snap, x),
    decreases files.len(),
{
    if files.len() == 0 {
        assert(!files.contains(x));
    } else {
        lemma_missing_names_member(files.drop_last(), snap, x);
        lemma_contains_split(files, x);
        let tail = if !snap_contains(snap, files.last()) {
            seq![files.last()]
        } else {
            Seq::<Seq<char>>::empty()
        };
        lemma_add_contains(missing_names(files.drop_last(), snap), tail, x);
        if tail.contains(x) {
            assert(tail[0] == files.last());
        }
        if !snap_contains(snap, files.last()) && files.last() == x {
            assert(tail[0] == x);
        }
    }
}

/// The `hashes` pass lists exactly the names of entries that call for a
/// download.
pub proof fn lemma_stale_names_member(hashes: Seq<HashEntry>, snap: Seq<LocalFile>, x: Seq<char>)
    ensures
        stale_names(hashes, snap).contains(x) <==> exists|j: int|
            0 <= j < hashes.len() && (#[trigger] hashes[j]).name@ == x && entry_outdated(
                x,
                hashes[j].hash@,
                snap,
            ),
    decreases hashes.len(),
{
    if hashes.len() > 0 {
        lemma_stale_names_member(hashes.drop_last(), snap, x);
        let tail = if entry_outdated(hashes.last().name@, hashes.last().hash@, snap) {
            seq![hashes.last().name@]
        } else {
            Seq::<Seq<char>>::empty()
        };
        lemma_add_contains(stale_names(hashes.drop_last(), snap), tail, x);
        if stale_names(hashes.drop_last(), snap).contains(x) {
            let j = choose|j: int|
                0 <= j < hashes.drop_last().len() && (#[trigger] hashes.drop_last()[j]).name@ == x
                    && entry_outdated(x, hashes.drop_last()[j].hash@, snap);
            assert(hashes[j].name@ == x && entry_outdated(x, hashes[j].hash@, snap));
        }
        if tail.contains(x) {
            assert(tail[0] == hashes.last().name@);
            assert(hashes[hashes.len() - 1].name@ == x && entry_outdated(
                x,
                hashes[hashes.len() - 1].hash@,
                snap,
            ));
        }
        if exists|j: int|
            0 <= j < hashes.len() && (#[trigger] hashes[j]).name@ == x && entry_outdated(
                x,
                hashes[j].hash@,
                snap,
            ) {
            let j = choose|j: int|
                0 <= j < hashes.len() && (#[trigger] hashes[j]).name@ == x && entry_outdated(
                    x,
                    hashes[j].hash@,
                    snap,
                );
            if j < hashes.len() - 1 {
                assert(hashes.drop_last()[j] == hashes[j]);
                assert(stale_names(hashes.drop_last(), snap).contains(x));
            } else {
                assert(tail[0] == x);
            }
        }
    }
}

/// A file that is present locally with the fingerprint the manifest
/// expects is never listed for download: no unnecessary re-download.
pub proof fn lemma_matching_file_not_outdated(
    files: Seq<Seq<char>>,
    hashes: Seq<HashEntry>,
    snap: Seq<LocalFile>,
    name: Seq<char>,
)
    requires
        snap_contains(snap, name),
        forall|j: int|
            0 <= j < hashes.len() && (#[trigger] hashes[j]).name@ == name ==> hashes[j].hash@
                == snap_digest(snap, name),
    ensures
        !outdated_names(files, hashes, snap).contains(name),
{
    lemma_missing_names_member(files, snap, name);
    lemma_stale_names_member(hashes, snap, name);
    lemma_add_contains(missing_names(files, snap), stale_names(hashes, snap), name);
}

/// A hashed file that is absent locally is always listed for download, at
/// least once.
pub proof fn lemma_absent_hashed_listed(
    files: Seq<Seq<char>>,
    hashes: Seq<HashEntry>,
    snap: Seq<LocalFile>,
    j: int,
)
    requires
        0 <= j < hashes.len(),
        !snap_contains(snap, hashes[j].name@),
    ensures
        outdated_names(files, hashes, snap).contains(hashes[j].name@),
{
    lemma_stale_names_member(hashes, snap, hashes[j].name@);
    lemma_add_contains(missing_names(files, snap), stale_names(hashes, snap), hashes[j].name@);
}

/// A snapshot that already satisfies the manifest: every listed file
/// exists, and every hashed file exists with the expected fingerprint.
pub open spec fn up_to_date(
    files: Seq<Seq<char>>,
    hashes: Seq<HashEntry>,
    snap: Seq<LocalFile>,
) -> bool {
    &&& (forall|i: int| 0 <= i < files.len() ==> snap_contains(snap, #[trigger] files[i]))
    &&& (forall|j: int|
        0 <= j < hashes.len() ==> snap_contains(snap, (#[trigger] hashes[j]).name@) && snap_digest(
            snap,
            hashes[j].name@,
        ) == hashes[j].hash@)
}

/// An up-to-date snapshot leaves nothing to download.
pub proof fn lemma_up_to_date_nothing_outdated(
    files: Seq<Seq<char>>,
    hashes: Seq<HashEntry>,
    snap: Seq<LocalFile>,
)
    requires
        up_to_date(files, hashes, snap),
    ensures
        outdated_names(files, hashes, snap) =~= Seq::<Seq<char>>::empty(),
{
    lemma_missing_names_all_present(files, snap);
    lemma_stale_names_all_fresh(hashes, snap);
}

/// The `files` pass of an up-to-date snapshot is empty.
proof fn lemma_missing_names_all_present(files: Seq<Seq<char>>, snap: Seq<LocalFile>)
    requires
        forall|i: int| 0 <= i < files.len() ==> snap_contains(snap, #[trigger] files[i]),
    ensures
        missing_names(files, snap) =~= Seq::<Seq<char>>::empty(),
    decreases files.len(),
{
    if files.len() > 0 {
        assert forall|i: int| 0 <= i < files.drop_last().len() implies snap_contains(
            snap,
            #[trigger] files.drop_last()[i],
        ) by {
            assert(files.drop_last()[i] == files[i]);
        }
        lemma_missing_names_all_present(files.drop_last(), snap);
        assert(snap_contains(snap, files.last()));
    }
}

/// The `hashes` pass of an up-to-date snapshot is empty.
proof fn lemma_stale_names_all_fresh(hashes: Seq<HashEntry>, snap: Seq<LocalFile>)
    requires
        forall|j: int|
            0 <= j < hashes.len() ==> snap_contains(snap, (#[trigger] hashes[j]).name@)
                && snap_digest(snap, hashes[j].name@) == hashes[j].hash@,
    ensures
        stale_names(hashes, snap) =~= Seq::<Seq<char>>::empty(),
    decreases hashes.len(),
{
    if hashes.len() > 0 {
        assert forall|j: int| 0 <= j < hashes.drop_last().len() implies snap_contains(
            snap,
            (#[trigger] hashes.drop_last()[j]).name@,
        ) && snap_digest(snap, hashes.drop_last()[j].name@) == hashes.drop_last()[j].hash@ by {
            assert(hashes.drop_last()[j] == hashes[j]);
        }
        lemma_stale_names_all_fresh(hashes.drop_last(), snap);
        assert(snap_contains(snap, hashes[hashes.len() - 1].name@) && snap_digest(
            snap,
            hashes[hashes.len() - 1].name@,
        ) == hashes[hashes.len() - 1].hash@);
        assert(!entry_outdated(hashes.last().name@, hashes.last().hash@, snap));
    }
}

/// A second snapshot that reflects a successful first run: every name the
/// first diff listed now exists, hashed ones with the fingerprint the
/// manifest expects, and every other name is exactly as it was.
pub open spec fn repaired(
    files: Seq<Seq<char>>,
    hashes: Seq<HashEntry>,
    snap1: Seq<LocalFile>,
    snap2: Seq<LocalFile>,
) -> bool {
    &&& (forall|x: Seq<char>|
        #[trigger] outdated_names(files, hashes, snap1).contains(x) ==> snap_contains(snap2, x))
    &&& (forall|j: int|
        0 <= j < hashes.len() && outdated_names(files, hashes, snap1).contains(
            (#[trigger] hashes[j]).name@,
        ) ==> snap_digest(snap2, hashes[j].name@) == hashes[j].hash@)
    &&& (forall|x: Seq<char>|
        !(#[trigger] outdated_names(files, hashes, snap1).contains(x)) ==> {
            &&& (snap_contains(snap2, x) <==> snap_contains(snap1, x))
            &&& snap_digest(snap2, x) == snap_digest(snap1, x)
        })
}

/// Idempotence of reconciliation: when a run's downloads all succeeded and
/// nothing else changed, the next diff against the same manifest is empty.
pub proof fn lemma_second_run_clean(
    files: Seq<Seq<char>>,
    hashes: Seq<HashEntry>,
    snap1: Seq<LocalFile>,
    snap2: Seq<LocalFile>,
)
    requires
        repaired(files, hashes, snap1, snap2),
    ensures
        outdated_names(files, hashes, snap2) =~= Seq::<Seq<char>>::empty(),
{
    assert forall|i: int| 0 <= i < files.len() implies snap_contains(
        snap2,
        #[trigger] files[i],
    ) by {
        let x = files[i];
        if !outdated_names(files, hashes, snap1).contains(x) {
            lemma_missing_names_member(files, snap1, x);
            lemma_add_contains(missing_names(files, snap1), stale_names(hashes, snap1), x);
            assert(snap_contains(snap1, x));
        }
    }
    assert forall|j: int| 0 <= j < hashes.len() implies snap_contains(
        snap2,
        (#[trigger] hashes[j]).name@,
    ) && snap_digest(snap2, hashes[j].name@) == hashes[j].hash@ by {
        let x = hashes[j].name@;
        if outdated_names(files, hashes, snap1).contains(x) {
            assert(snap_contains(snap2, x));
        } else {
            lemma_stale_names_member(hashes, snap1, x);
            lemma_add_contains(missing_names(files, snap1), stale_names(hashes, snap1), x);
            assert(!entry_outdated(x, hashes[j].hash@, snap1));
        }
    }
    lemma_up_to_date_nothing_outdated(files, hashes, snap2);
}

} // verus!
