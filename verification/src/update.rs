//! The decision half of an update run.  Given the decoded manifest and a
//! snapshot of the download directory, the updater computes the diff and
//! turns it into a plan: which stale local copies to delete and which URLs
//! to fetch into which files.  Executing the plan — the deletes and the
//! batch of transfers — is the unverified shell's job.

use crate::error::UpdateError;
use crate::manifest::{Manifest, is_timestamp_string, parse_timestamp, timestamp_value};
use crate::reconcile::{Checksum, compute_outdated, outdated_names};
use crate::snapshot::{LocalFile, Snapshot, snap_contains};
use vstd::prelude::*;

verus! {

/// What resolving a relative filename against a base URL yields; the
/// resolution algorithm is the url crate's, a function of the two strings
/// alone.  `None` where the base does not parse or the join fails.
pub uninterp spec fn spec_resolved_url(base: Seq<char>, rel: Seq<char>) -> Option<Seq<char>>;

/// Relies on url::Url::parse and url::Url::join: resolves a relative
/// filename against a base URL, deterministically in the two strings.
#[verifier::external_body]
fn resolve_url(base: &str, rel: &str) -> (r: Option<String>)
    ensures
        r is Some <==> spec_resolved_url(base@, rel@) is Some,
        r matches Some(u) ==> Some(u@) == spec_resolved_url(base@, rel@),
{
    match url::Url::parse(base) {
        Ok(b) => match b.join(rel) {
            Ok(u) => Some(String::from(u)),
            Err(_) => None,
        },
        Err(_) => None,
    }
}

/// Whether every name in a list resolves against the base URL.
pub open spec fn all_resolvable(base: Seq<char>, names: Seq<Seq<char>>) -> bool {
    forall|i: int| 0 <= i < names.len() ==> spec_resolved_url(base, #[trigger] names[i]) is Some
}

/// The outdated names that exist locally, in list order: the downloader
/// deletes these stale copies before it writes replacements.
pub open spec fn deletion_names(outdated: Seq<Seq<char>>, snap: Seq<LocalFile>) -> Seq<Seq<char>>
    decreases outdated.len(),
{
    if outdated.len() == 0 {
        Seq::empty()
    } else {
        deletion_names(outdated.drop_last(), snap) + if snap_contains(snap, outdated.last()) {
            seq![outdated.last()]
        } else {
            Seq::empty()
        }
    }
}

/// One planned transfer: the resolved download URL and the relative
/// filename to write under the download directory.
#[derive(Debug)]
pub struct DownloadItem {
    pub url: String,
    pub filename: String,
}

/// Everything the download phase is to do, in order: delete the stale
/// copies, then fetch every transfer.  The checksum rides along so the
/// caller can report the manifest's timestamp afterwards.
#[derive(Debug)]
pub struct UpdatePlan {
    pub checksum: Checksum,
    pub deletions: Vec<String>,
    pub downloads: Vec<DownloadItem>,
}

/// The updater's configuration: where downloads land, the base URL file
/// names resolve against, and where the manifest lives.  The two URLs are
/// kept as plain strings; the manifest URL is only ever used by the shell
/// that fetches the document.
pub struct Updater {
    pub download_path: String,
    pub update_base_url: String,
    pub checksum_url: String,
}

impl Updater {
    /// The diff phase: parses the manifest's timestamp and computes the
    /// outdated list.  Fails exactly on a malformed timestamp; an empty
    /// outdated list is the normal up-to-date outcome, not an error.
    pub fn get_checksum(&self, manifest: &Manifest, local: &Snapshot) -> (r: Result<
        Checksum,
        UpdateError,
    >)
        ensures
            r is Ok <==> is_timestamp_string(manifest.last_updated@),
            r matches Ok(c) ==> {
                &&& c.outdated_files.deep_view() == outdated_names(
                    manifest.files.deep_view(),
                    manifest.hashes@,
                    local.entries@,
                )
                &&& c.last_updated as int == timestamp_value(manifest.last_updated@)
            },
            r is Err ==> r == Err::<Checksum, UpdateError>(UpdateError::Timestamp),
    {
        let last_updated = match parse_timestamp(manifest.last_updated.as_str()) {
            Ok(t) => t,
            Err(e) => {
                return Err(e);
            },
        };
        let outdated_files = compute_outdated(manifest, local);
        Ok(Checksum { outdated_files, last_updated })
    }

    /// The whole decision half of a run: diff, then plan.  On success the
    /// plan lists the stale local copies to delete and, for every outdated
    /// name in order, the URL to fetch it from.  Fails on a malformed
    /// timestamp, and on a filename that cannot be resolved against the
    /// base URL, which counts as a malformed manifest.
    pub fn update(&self, manifest: &Manifest, local: &Snapshot) -> (r: Result<
        UpdatePlan,
        UpdateError,
    >)
        ensures
            ({
                let outdated = outdated_names(
                    manifest.files.deep_view(),
                    manifest.hashes@,
                    local.entries@,
                );
                &&& (r is Ok <==> is_timestamp_string(manifest.last_updated@) && all_resolvable(
                    self.update_base_url@,
                    outdated,
                ))
                &&& (r matches Ok(p) ==> {
                    &&& p.checksum.outdated_files.deep_view() == outdated
                    &&& p.checksum.last_updated as int == timestamp_value(
                        manifest.last_updated@,
                    )
                    &&& p.deletions.deep_view() == deletion_names(outdated, local.entries@)
                    &&& p.downloads@.len() == outdated.len()
                    &&& (forall|i: int|
                        0 <= i < outdated.len() ==> (#[trigger] p.downloads@[i]).filename@
                            == outdated[i] && Some(p.downloads@[i].url@) == spec_resolved_url(
                            self.update_base_url@,
                            outdated[i],
                        ))
                })
                &&& (!is_timestamp_string(manifest.last_updated@) ==> r == Err::<
                    UpdatePlan,
                    UpdateError,
                >(UpdateError::Timestamp))
                &&& (is_timestamp_string(manifest.last_updated@) && !all_resolvable(
                    self.update_base_url@,
                    outdated,
                ) ==> r == Err::<UpdatePlan, UpdateError>(UpdateError::Parse))
            }),
    {
        let checksum = match self.get_checksum(manifest, local) {
            Ok(c) => c,
            Err(e) => {
                return Err(e);
            },
        };
        let ghost od = checksum.outdated_files.deep_view();
        let ghost snap = local.entries@;
        let n = checksum.outdated_files.len();
        let mut deletions: Vec<String> = Vec::new();
        let mut i: usize = 0;
        while i < n
            invariant
                0 <= i <= n,
                n == checksum.outdated_files@.len(),
                od == checksum.outdated_files.deep_view(),
                snap == local.entries@,
                deletions.deep_view() == deletion_names(od.take(i as int), snap),
            decreases n - i,
        {
            let ghost pre = deletions.deep_view();
            let name = &checksum.outdated_files[i];
            proof {
                assert(od.take(i + 1).drop_last() =~= od.take(i as int));
                assert(od.take(i + 1).last() == name@);
            }
            if local.lookup(name).is_some() {
                deletions.push(name.clone());
                proof {
                    assert(deletions.deep_view() =~= pre.push(name@));
                    assert(pre.push(name@) =~= deletion_names(od.take(i + 1), snap));
                }
            } else {
                proof {
                    assert(deletion_names(od.take(i + 1), snap) =~= pre);
                }
            }
            i = i + 1;
        }
        proof {
            assert(od.take(n as int) =~= od);
        }
        let mut downloads: Vec<DownloadItem> = Vec::new();
        let mut k: usize = 0;
        while k < n
            invariant
                0 <= k <= n,
                n == checksum.outdated_files@.len(),
                od == checksum.outdated_files.deep_view(),
                od == outdated_names(manifest.files.deep_view(), manifest.hashes@, local.entries@),
                is_timestamp_string(manifest.last_updated@),
                downloads@.len() == k,
                forall|j: int|
                    0 <= j < k ==> (#[trigger] downloads@[j]).filename@ == od[j] && Some(
                        downloads@[j].url@,
                    ) == spec_resolved_url(self.update_base_url@, od[j]),
            decreases n - k,
        {
            let name = &checksum.outdated_files[k];
            match resolve_url(self.update_base_url.as_str(), name.as_str()) {
                Some(url) => {
                    downloads.push(DownloadItem { url, filename: name.clone() });
                },
                None => {
                    proof {
                        assert(spec_resolved_url(self.update_base_url@, od[k as int]) is None);
                    }
                    return Err(UpdateError::Parse);
                },
            }
            k = k + 1;
        }
        proof {
            assert forall|j: int|
                0 <= j < od.len() implies spec_resolved_url(
                self.update_base_url@,
                #[trigger] od[j],
            ) is Some by {
                assert(downloads@[j].filename@ == od[j]);
            }
        }
        Ok(UpdatePlan { checksum, deletions, downloads })
    }
}

} // verus!
