//! The diff engine: which files the manifest says must be downloaded.
//!
//! The diff makes two passes.  The first walks the manifest's `files` list
//! and marks every name the snapshot lacks.  The second walks the `hashes`
//! entries and marks every name that is absent or whose local fingerprint
//! differs from the manifest's.  A name absent locally but present in both
//! collections is therefore marked twice; duplicates are kept, and the
//! downloader tolerates the redundant transfer.

use crate::manifest::{HashEntry, Manifest};
use crate::snapshot::{LocalFile, Snapshot, snap_contains, snap_digest};
use vstd::prelude::*;

verus! {

/// The names of the `files` pass: listed names the snapshot lacks, in list
/// order.
pub open spec fn missing_names(files: Seq<Seq<char>>, snap: Seq<LocalFile>) -> Seq<Seq<char>>
    decreases files.len(),
{
    if files.len() == 0 {
        Seq::empty()
    } else {
        missing_names(files.drop_last(), snap) + if !snap_contains(snap, files.last()) {
            seq![files.last()]
        } else {
            Seq::empty()
        }
    }
}

/// Whether one hash entry calls for a download: the file is absent, or its
/// recorded fingerprint differs from the manifest's.
pub open spec fn entry_outdated(name: Seq<char>, hash: Seq<char>, snap: Seq<LocalFile>) -> bool {
    !snap_contains(snap, name) || snap_digest(snap, name) != hash
}

/// The names of the `hashes` pass: entries that call for a download, in
/// entry order.
pub open spec fn stale_names(hashes: Seq<HashEntry>, snap: Seq<LocalFile>) -> Seq<Seq<char>>
    decreases hashes.len(),
{
    if hashes.len() == 0 {
        Seq::empty()
    } else {
        stale_names(hashes.drop_last(), snap) + if entry_outdated(
            hashes.last().name@,
            hashes.last().hash@,
            snap,
        ) {
            seq![hashes.last().name@]
        } else {
            Seq::empty()
        }
    }
}

/// Everything a run must download: the `files` pass first, then the
/// `hashes` pass.
pub open spec fn outdated_names(
    files: Seq<Seq<char>>,
    hashes: Seq<HashEntry>,
    snap: Seq<LocalFile>,
) -> Seq<Seq<char>> {
    missing_names(files, snap) + stale_names(hashes, snap)
}

/// The value threaded from the diff phase to the download phase: the names
/// to fetch and the manifest's parsed `last_updated` timestamp, in unix
/// seconds.
#[derive(Debug)]
pub struct Checksum {
    pub outdated_files: Vec<String>,
    pub last_updated: i64,
}

/// Computes the outdated list: a pure function of the manifest and the
/// directory snapshot, and nothing else.
pub fn compute_outdated(manifest: &Manifest, local: &Snapshot) -> (r: Vec<String>)
    ensures
        r.deep_view() == outdated_names(manifest.files.deep_view(), manifest.hashes@, local.entries@),
{
    let ghost files_dv = manifest.files.deep_view();
    let ghost snap = local.entries@;
    let mut out: Vec<String> = Vec::new();
    let nf = manifest.files.len();
    let mut i: usize = 0;
    while i < nf
        invariant
            0 <= i <= nf,
            nf == manifest.files@.len(),
            files_dv == manifest.files.deep_view(),
            snap == local.entries@,
            out.deep_view() == missing_names(files_dv.take(i as int), snap),
        decreases nf - i,
    {
        let ghost pre = out.deep_view();
        let file = &manifest.files[i];
        proof {
            assert(files_dv.take(i + 1).drop_last() =~= files_dv.take(i as int));
            assert(files_dv.take(i + 1).last() == file@);
        }
        if local.lookup(file).is_none() {
            out.push(file.clone());
            proof {
                assert(out.deep_view() =~= pre.push(file@));
                assert(pre.push(file@) =~= pre + seq![file@]);
            }
        } else {
            proof {
                assert(missing_names(files_dv.take(i + 1), snap) =~= pre);
            }
        }
        i = i + 1;
    }
    proof {
        assert(files_dv.take(nf as int) =~= files_dv);
    }
    let nh = manifest.hashes.len();
    let mut k: usize = 0;
    while k < nh
        invariant
            0 <= k <= nh,
            nh == manifest.hashes@.len(),
            files_dv == manifest.files.deep_view(),
            snap == local.entries@,
            out.deep_view() == missing_names(files_dv, snap) + stale_names(
                manifest.hashes@.take(k as int),
                snap,
            ),
        decreases nh - k,
    {
        let ghost pre = out.deep_view();
        let ghost hv = manifest.hashes@;
        let entry = &manifest.hashes[k];
        proof {
            assert(hv.take(k + 1).drop_last() =~= hv.take(k as int));
            assert(hv.take(k + 1).last() == hv[k as int]);
        }
        let stale: bool = match local.lookup(&entry.name) {
            None => true,
            Some(d) => !(d == entry.hash),
        };
        if stale {
            out.push(entry.name.clone());
            proof {
                assert(entry_outdated(entry.name@, entry.hash@, snap));
                assert(out.deep_view() =~= pre.push(entry.name@));
                assert(pre.push(entry.name@) =~= missing_names(files_dv, snap) + stale_names(
                    hv.take(k + 1),
                    snap,
                ));
            }
        } else {
            proof {
                assert(!entry_outdated(entry.name@, entry.hash@, snap));
                assert(missing_names(files_dv, snap) + stale_names(hv.take(k + 1), snap) =~= pre);
            }
        }
        k = k + 1;
    }
    proof {
        assert(manifest.hashes@.take(nh as int) =~= manifest.hashes@);
    }
    out
}

} // verus!
