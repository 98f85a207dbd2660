use updater::error::UpdateError;
use updater::manifest::{HashEntry, Manifest};
use updater::reconcile::compute_outdated;
use updater::snapshot::{LocalFile, Snapshot};
use updater::update::Updater;

const EMPTY_MD5: &str = "d41d8cd98f00b204e9800998ecf8427e";

fn manifest_one(hash: &str, ts: &str) -> Manifest {
    Manifest {
        hashes: vec![HashEntry { name: "a.bin".to_owned(), hash: hash.to_owned() }],
        files: vec!["a.bin".to_owned()],
        last_updated: ts.to_owned(),
    }
}

fn updater() -> Updater {
    Updater {
        download_path: "downloads".to_owned(),
        update_base_url: "https://example.com/files/".to_owned(),
        checksum_url: "https://example.com/info.json".to_owned(),
    }
}

#[test]
fn missing_file_listed_twice() {
    let m = manifest_one(EMPTY_MD5, "1700000000");
    let local = Snapshot { entries: vec![] };
    let c = updater().get_checksum(&m, &local).unwrap();
    assert_eq!(c.outdated_files, vec!["a.bin".to_owned(), "a.bin".to_owned()]);
    assert_eq!(c.last_updated, 1700000000i64);
}

#[test]
fn matching_file_not_listed() {
    let m = manifest_one(EMPTY_MD5, "1700000000");
    let local = Snapshot {
        entries: vec![LocalFile { name: "a.bin".to_owned(), digest: Some(EMPTY_MD5.to_owned()) }],
    };
    let c = updater().get_checksum(&m, &local).unwrap();
    assert!(c.outdated_files.is_empty());
    assert_eq!(c.last_updated, 1700000000i64);
}

#[test]
fn changed_file_listed_and_deleted() {
    let m = manifest_one(EMPTY_MD5, "1700000000");
    let local = Snapshot {
        entries: vec![LocalFile {
            name: "a.bin".to_owned(),
            digest: Some("900150983cd24fb0d6963f7d28e17f72".to_owned()),
        }],
    };
    let plan = updater().update(&m, &local).unwrap();
    assert_eq!(plan.checksum.outdated_files, vec!["a.bin".to_owned()]);
    assert_eq!(plan.deletions, vec!["a.bin".to_owned()]);
    assert_eq!(plan.downloads.len(), 1);
    assert_eq!(plan.downloads[0].filename, "a.bin");
    assert_eq!(plan.downloads[0].url, "https://example.com/files/a.bin");
}

#[test]
fn unreadable_file_treated_as_outdated() {
    let m = manifest_one(EMPTY_MD5, "1700000000");
    let local = Snapshot {
        entries: vec![LocalFile { name: "a.bin".to_owned(), digest: None }],
    };
    let out = compute_outdated(&m, &local);
    assert_eq!(out, vec!["a.bin".to_owned()]);
}

#[test]
fn absent_file_not_deleted() {
    let m = manifest_one(EMPTY_MD5, "1700000000");
    let local = Snapshot { entries: vec![] };
    let plan = updater().update(&m, &local).unwrap();
    assert_eq!(plan.checksum.outdated_files.len(), 2);
    assert!(plan.deletions.is_empty());
    assert_eq!(plan.downloads.len(), 2);
}

#[test]
fn nested_filename_resolves_under_base() {
    let m = Manifest {
        hashes: vec![],
        files: vec!["dir/b.bin".to_owned()],
        last_updated: "0".to_owned(),
    };
    let local = Snapshot { entries: vec![] };
    let plan = updater().update(&m, &local).unwrap();
    assert_eq!(plan.downloads.len(), 1);
    assert_eq!(plan.downloads[0].url, "https://example.com/files/dir/b.bin");
}

#[test]
fn bad_base_url_is_a_parse_error() {
    let m = manifest_one(EMPTY_MD5, "1700000000");
    let local = Snapshot { entries: vec![] };
    let tool = Updater {
        download_path: "downloads".to_owned(),
        update_base_url: "not a url".to_owned(),
        checksum_url: "also not".to_owned(),
    };
    assert_eq!(tool.update(&m, &local).unwrap_err(), UpdateError::Parse);
}

#[test]
fn bad_timestamp_aborts_without_a_plan() {
    let m = manifest_one(EMPTY_MD5, "not-a-number");
    let local = Snapshot { entries: vec![] };
    assert_eq!(updater().get_checksum(&m, &local).unwrap_err(), UpdateError::Timestamp);
    assert_eq!(updater().update(&m, &local).unwrap_err(), UpdateError::Timestamp);
}

#[test]
fn second_run_after_repair_is_clean() {
    let m = manifest_one(EMPTY_MD5, "1700000000");
    let before = Snapshot { entries: vec![] };
    let first = compute_outdated(&m, &before);
    assert!(!first.is_empty());
    // Every listed file now exists with the manifest's fingerprint.
    let after = Snapshot {
        entries: vec![LocalFile { name: "a.bin".to_owned(), digest: Some(EMPTY_MD5.to_owned()) }],
    };
    let second = compute_outdated(&m, &after);
    assert!(second.is_empty());
}

#[test]
fn diff_depends_on_its_inputs_alone() {
    let m = manifest_one(EMPTY_MD5, "1700000000");
    let local = Snapshot {
        entries: vec![LocalFile { name: "a.bin".to_owned(), digest: None }],
    };
    let once = compute_outdated(&m, &local);
    let twice = compute_outdated(&m, &local);
    assert_eq!(once, twice);
}

#[test]
fn first_snapshot_entry_wins() {
    let m = manifest_one(EMPTY_MD5, "0");
    let local = Snapshot {
        entries: vec![
            LocalFile { name: "a.bin".to_owned(), digest: Some(EMPTY_MD5.to_owned()) },
            LocalFile { name: "a.bin".to_owned(), digest: Some("ffff".to_owned()) },
        ],
    };
    let out = compute_outdated(&m, &local);
    assert!(out.is_empty());
}

#[test]
fn files_pass_precedes_hashes_pass() {
    let m = Manifest {
        hashes: vec![HashEntry { name: "h.bin".to_owned(), hash: EMPTY_MD5.to_owned() }],
        files: vec!["f.bin".to_owned()],
        last_updated: "0".to_owned(),
    };
    let local = Snapshot { entries: vec![] };
    let out = compute_outdated(&m, &local);
    assert_eq!(out, vec!["f.bin".to_owned(), "h.bin".to_owned()]);
}
