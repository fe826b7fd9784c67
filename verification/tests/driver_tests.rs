use std::io::Read;

use bspatch_updater::bz::decompress;
use bspatch_updater::codec::{hex_of, offtout};
use bspatch_updater::error::{Error, ManifestFault};
use bspatch_updater::manifest::{manifest_entries, Json};
use bspatch_updater::patch::apply_patch;
use bspatch_updater::sha::sha1_of_bytes;
use bspatch_updater::update::{
    manifest_response_check, DlEvent, DlOp, DownloadTask, FetchOutcome, FileEvent, FileOp,
    FileTask, StatOutcome,
};

fn s(x: &str) -> Vec<u8> {
    x.as_bytes().to_vec()
}

fn bz_compress(data: &[u8]) -> Vec<u8> {
    let mut enc = bzip2::read::BzEncoder::new(data, bzip2::Compression::new(9));
    let mut out = Vec::new();
    enc.read_to_end(&mut out).unwrap();
    out
}

fn build_patch(triples: &[(i64, i64, i64)], diff: &[u8], extra: &[u8], newsize: i64) -> Vec<u8> {
    let mut ctrl_raw = Vec::new();
    for &(a, b, c) in triples {
        ctrl_raw.extend_from_slice(&offtout(a));
        ctrl_raw.extend_from_slice(&offtout(b));
        ctrl_raw.extend_from_slice(&offtout(c));
    }
    let cc = bz_compress(&ctrl_raw);
    let dc = bz_compress(diff);
    let ec = bz_compress(extra);
    let mut p = Vec::new();
    p.extend_from_slice(b"BSDIFF40");
    p.extend_from_slice(&offtout(cc.len() as i64));
    p.extend_from_slice(&offtout(dc.len() as i64));
    p.extend_from_slice(&offtout(newsize));
    p.extend_from_slice(&cc);
    p.extend_from_slice(&dc);
    p.extend_from_slice(&ec);
    p
}

/// A patch that carries `old` to `new`: one triple diffing over the old
/// bytes, the remainder as extra bytes.
fn patch_between(old: &[u8], new: &[u8]) -> Vec<u8> {
    assert!(new.len() >= old.len());
    let a = old.len();
    let diff: Vec<u8> = (0..a).map(|i| new[i].wrapping_sub(old[i])).collect();
    build_patch(
        &[(a as i64, (new.len() - a) as i64, 0)],
        &diff,
        &new[a..],
        new.len() as i64,
    )
}

fn entry_with(fields: Vec<(&str, Json)>) -> Json {
    Json::Obj(fields.into_iter().map(|(k, v)| (s(k), v)).collect())
}

fn only_linux2() -> (&'static str, Json) {
    ("only", Json::Arr(vec![Json::Str(s("linux2"))]))
}

#[test]
fn happy_patch_path_ends_with_manifest_digest() {
    let old_content = b"hello old world".to_vec();
    let new_content = b"hello brand new world!".to_vec();
    let patch_bytes = patch_between(&old_content, &new_content);
    let compressed_patch = bz_compress(&patch_bytes);
    let h1 = sha1_of_bytes(&old_content);
    let h2 = sha1_of_bytes(&new_content);

    let desc = entry_with(vec![
        ("filename", Json::Str(s("A.patch.bz2"))),
        ("compPatchHash", Json::Str(hex_of(&sha1_of_bytes(&compressed_patch)))),
        ("patchHash", Json::Str(hex_of(&sha1_of_bytes(&patch_bytes)))),
    ]);
    let entry = entry_with(vec![
        only_linux2(),
        ("dl", Json::Str(s("A.bz2"))),
        ("compHash", Json::Str(hex_of(&sha1_of_bytes(b"unused")))),
        ("hash", Json::Str(hex_of(&h2))),
        ("patches", Json::Obj(vec![(hex_of(&h1), desc)])),
    ]);

    let mut install_a = old_content.clone();
    let (mut task, op) = FileTask::start(entry, s("A"), b"linux2");
    match op {
        FileOp::StatFile { name } => assert_eq!(name, s("A")),
        _ => panic!("expected a stat first"),
    }
    let op = task.step(FileEvent::Stat(StatOutcome::Present));
    match op {
        FileOp::HashFile { name } => assert_eq!(name, s("A")),
        _ => panic!("expected a hash of the installed file"),
    }
    let op = task.step(FileEvent::LocalHashed(Ok(sha1_of_bytes(&install_a))));
    match op {
        FileOp::Dl(DlOp::Fetch { name, to_cache }) => {
            assert_eq!(name, s("A.patch.bz2"));
            assert!(to_cache);
        },
        _ => panic!("expected the patch fetch"),
    }
    let cache_file = compressed_patch.clone();
    let op = task.step(FileEvent::Dl(DlEvent::Fetched(FetchOutcome::Status(200))));
    match op {
        FileOp::Dl(DlOp::HashFile { name, to_cache }) => {
            assert_eq!(name, s("A.patch.bz2"));
            assert!(to_cache);
        },
        _ => panic!("expected a hash of the fetched patch"),
    }
    let op = task.step(FileEvent::Dl(DlEvent::Hashed(Ok(sha1_of_bytes(&cache_file)))));
    let extracted = match op {
        FileOp::Dl(DlOp::Extract { comp_name, decomp_name, to_cache }) => {
            assert_eq!(comp_name, s("A.patch.bz2"));
            assert_eq!(decomp_name, s("A.patch.bz2.extracted"));
            assert!(to_cache);
            decompress(&cache_file).unwrap()
        },
        _ => panic!("expected the extraction"),
    };
    let op = task.step(FileEvent::Dl(DlEvent::Extracted(Ok(()))));
    match op {
        FileOp::Dl(DlOp::HashFile { name, .. }) => assert_eq!(name, s("A.patch.bz2.extracted")),
        _ => panic!("expected a hash of the extracted patch"),
    }
    let op = task.step(FileEvent::Dl(DlEvent::Hashed(Ok(sha1_of_bytes(&extracted)))));
    match op {
        FileOp::ApplyPatch { patch_name, target_name } => {
            assert_eq!(patch_name, s("A.patch.bz2.extracted"));
            assert_eq!(target_name, s("A"));
        },
        _ => panic!("expected the patch application"),
    }
    install_a = apply_patch(&extracted, &install_a).unwrap();
    let op = task.step(FileEvent::Patched(Ok(())));
    assert!(matches!(op, FileOp::Finish(Ok(()))));
    assert_eq!(sha1_of_bytes(&install_a), h2);
    assert_eq!(install_a, new_content);
}

#[test]
fn missing_patch_falls_back_to_full_download() {
    let old_content = b"stale".to_vec();
    let new_content = b"fresh content".to_vec();
    let compressed_full = bz_compress(&new_content);
    let entry = entry_with(vec![
        only_linux2(),
        ("dl", Json::Str(s("A.bz2"))),
        ("compHash", Json::Str(hex_of(&sha1_of_bytes(&compressed_full)))),
        ("hash", Json::Str(hex_of(&sha1_of_bytes(&new_content)))),
        ("patches", Json::Obj(vec![])),
    ]);

    let (mut task, op) = FileTask::start(entry, s("A"), b"linux2");
    assert!(matches!(op, FileOp::StatFile { .. }));
    let op = task.step(FileEvent::Stat(StatOutcome::Present));
    assert!(matches!(op, FileOp::HashFile { .. }));
    let op = task.step(FileEvent::LocalHashed(Ok(sha1_of_bytes(&old_content))));
    match op {
        FileOp::Dl(DlOp::Fetch { name, to_cache }) => {
            assert_eq!(name, s("A.bz2"));
            assert!(!to_cache);
        },
        _ => panic!("expected the full download"),
    }
    let op = task.step(FileEvent::Dl(DlEvent::Fetched(FetchOutcome::Status(206))));
    assert!(matches!(op, FileOp::Dl(DlOp::HashFile { .. })));
    let op = task.step(FileEvent::Dl(DlEvent::Hashed(Ok(sha1_of_bytes(&compressed_full)))));
    match op {
        FileOp::Dl(DlOp::Extract { comp_name, decomp_name, to_cache }) => {
            assert_eq!(comp_name, s("A.bz2"));
            assert_eq!(decomp_name, s("A"));
            assert!(!to_cache);
        },
        _ => panic!("expected the extraction into the install directory"),
    }
    let op = task.step(FileEvent::Dl(DlEvent::Extracted(Ok(()))));
    assert!(matches!(op, FileOp::Dl(DlOp::HashFile { .. })));
    let op = task.step(FileEvent::Dl(DlEvent::Hashed(Ok(sha1_of_bytes(&new_content)))));
    assert!(matches!(op, FileOp::Finish(Ok(()))));
}

#[test]
fn absent_file_downloads_from_scratch() {
    let entry = entry_with(vec![
        only_linux2(),
        ("dl", Json::Str(s("B.bz2"))),
        ("compHash", Json::Str(hex_of(&sha1_of_bytes(b"c")))),
        ("hash", Json::Str(hex_of(&sha1_of_bytes(b"d")))),
    ]);
    let (mut task, op) = FileTask::start(entry, s("B"), b"linux2");
    assert!(matches!(op, FileOp::StatFile { .. }));
    let op = task.step(FileEvent::Stat(StatOutcome::Absent));
    match op {
        FileOp::Dl(DlOp::Fetch { name, to_cache }) => {
            assert_eq!(name, s("B.bz2"));
            assert!(!to_cache);
        },
        _ => panic!("expected the full download"),
    }
}

#[test]
fn arch_mismatch_skips_without_any_fetch() {
    let entry = entry_with(vec![
        ("only", Json::Arr(vec![Json::Str(s("windows"))])),
        ("dl", Json::Str(s("B.bz2"))),
        ("compHash", Json::Str(hex_of(&sha1_of_bytes(b"c")))),
        ("hash", Json::Str(hex_of(&sha1_of_bytes(b"d")))),
    ]);
    let (_task, op) = FileTask::start(entry, s("B"), b"linux2");
    assert!(matches!(op, FileOp::Finish(Ok(()))));
}

#[test]
fn matching_digest_means_nothing_to_do() {
    let content = b"already current".to_vec();
    let entry = entry_with(vec![
        only_linux2(),
        ("hash", Json::Str(hex_of(&sha1_of_bytes(&content)))),
    ]);
    let (mut task, op) = FileTask::start(entry, s("A"), b"linux2");
    assert!(matches!(op, FileOp::StatFile { .. }));
    let op = task.step(FileEvent::Stat(StatOutcome::Present));
    assert!(matches!(op, FileOp::HashFile { .. }));
    let op = task.step(FileEvent::LocalHashed(Ok(sha1_of_bytes(&content))));
    assert!(matches!(op, FileOp::Finish(Ok(()))));
}

#[test]
fn digest_mismatch_refetches_exactly_max_tries_times() {
    let right = sha1_of_bytes(b"the real artifact");
    let wrong = sha1_of_bytes(b"a corrupted artifact");
    assert_ne!(right, wrong);
    let (mut task, op) = DownloadTask::new(false, s("f.bz2"), s("f"), right, sha1_of_bytes(b"x"), 5);
    assert!(matches!(op, DlOp::Fetch { .. }));
    let mut fetches = 1;
    loop {
        let op = task.step(DlEvent::Fetched(FetchOutcome::Status(200)));
        assert!(matches!(op, DlOp::HashFile { .. }));
        let op = task.step(DlEvent::Hashed(Ok(wrong.clone())));
        match op {
            DlOp::Fetch { name, .. } => {
                assert_eq!(name, s("f.bz2"));
                fetches += 1;
            },
            DlOp::Finish(r) => {
                assert_eq!(r, Ok(()));
                break;
            },
            _ => panic!("expected a refetch or the silent give-up"),
        }
    }
    assert_eq!(fetches, 5);
}

#[test]
fn extracted_digest_mismatch_also_refetches() {
    let comp = b"compressed".to_vec();
    let (mut task, _op) = DownloadTask::new(
        true,
        s("p.bz2"),
        s("p.bz2.extracted"),
        sha1_of_bytes(&comp),
        sha1_of_bytes(b"expected extraction"),
        5,
    );
    let op = task.step(DlEvent::Fetched(FetchOutcome::Status(200)));
    assert!(matches!(op, DlOp::HashFile { .. }));
    let op = task.step(DlEvent::Hashed(Ok(sha1_of_bytes(&comp))));
    assert!(matches!(op, DlOp::Extract { .. }));
    let op = task.step(DlEvent::Extracted(Ok(())));
    assert!(matches!(op, DlOp::HashFile { .. }));
    let op = task.step(DlEvent::Hashed(Ok(sha1_of_bytes(b"something else"))));
    match op {
        DlOp::Fetch { name, .. } => assert_eq!(name, s("p.bz2")),
        _ => panic!("expected a refetch after the extracted digest mismatch"),
    }
}

#[test]
fn transport_error_is_fatal() {
    let (mut task, _op) = DownloadTask::new(false, s("f"), s("g"), vec![0; 20], vec![0; 20], 5);
    let op = task.step(DlEvent::Fetched(FetchOutcome::TransportError));
    assert!(matches!(op, DlOp::Finish(Err(Error::DownloadRequestError))));
}

#[test]
fn non_success_status_is_fatal() {
    let (mut task, _op) = DownloadTask::new(false, s("f"), s("g"), vec![0; 20], vec![0; 20], 5);
    let op = task.step(DlEvent::Fetched(FetchOutcome::Status(404)));
    assert!(matches!(
        op,
        DlOp::Finish(Err(Error::DownloadRequestStatusError(404)))
    ));
}

#[test]
fn top_level_must_be_an_object() {
    let doc = Json::Arr(vec![]);
    match manifest_entries(&doc) {
        Err(Error::BadManifestFormat(ManifestFault::TopLevelNotObject)) => {},
        _ => panic!("expected the top-level fault"),
    }
    let doc = Json::Obj(vec![(s("A"), Json::Null)]);
    let entries = manifest_entries(&doc).unwrap();
    assert_eq!(entries.len(), 1);
}

#[test]
fn entry_faults_surface_in_order() {
    let (_t, op) = FileTask::start(Json::Str(s("nope")), s("A"), b"linux2");
    assert!(matches!(
        op,
        FileOp::Finish(Err(Error::BadManifestFormat(ManifestFault::EntryNotObject)))
    ));

    let (_t, op) = FileTask::start(entry_with(vec![("dl", Json::Str(s("x")))]), s("A"), b"linux2");
    assert!(matches!(
        op,
        FileOp::Finish(Err(Error::BadManifestFormat(ManifestFault::MissingOnly)))
    ));

    let (_t, op) = FileTask::start(entry_with(vec![("only", Json::Str(s("linux2")))]), s("A"), b"linux2");
    assert!(matches!(
        op,
        FileOp::Finish(Err(Error::BadManifestFormat(ManifestFault::OnlyNotArray)))
    ));

    let (_t, op) = FileTask::start(
        entry_with(vec![("only", Json::Arr(vec![Json::Number]))]),
        s("A"),
        b"linux2",
    );
    assert!(matches!(
        op,
        FileOp::Finish(Err(Error::BadManifestFormat(ManifestFault::ArchNotString)))
    ));
}

#[test]
fn arch_scan_stops_at_first_match() {
    // A non-string element after the matching tag is never inspected.
    let entry = entry_with(vec![(
        "only",
        Json::Arr(vec![Json::Str(s("linux2")), Json::Number]),
    )]);
    let (_t, op) = FileTask::start(entry, s("A"), b"linux2");
    assert!(matches!(op, FileOp::StatFile { .. }));

    // Before a match, a non-string element is a fault.
    let entry = entry_with(vec![(
        "only",
        Json::Arr(vec![Json::Str(s("windows")), Json::Number]),
    )]);
    let (_t, op) = FileTask::start(entry, s("A"), b"linux2");
    assert!(matches!(
        op,
        FileOp::Finish(Err(Error::BadManifestFormat(ManifestFault::ArchNotString)))
    ));
}

#[test]
fn bad_hash_field_is_fatal_when_file_exists() {
    let entry = entry_with(vec![only_linux2(), ("hash", Json::Str(s("zz")))]);
    let (mut task, _op) = FileTask::start(entry, s("A"), b"linux2");
    let _ = task.step(FileEvent::Stat(StatOutcome::Present));
    let op = task.step(FileEvent::LocalHashed(Ok(vec![0; 20])));
    assert!(matches!(
        op,
        FileOp::Finish(Err(Error::BadManifestFormat(ManifestFault::HexBadLength)))
    ));
}

#[test]
fn missing_patches_object_is_fatal_on_digest_mismatch() {
    let entry = entry_with(vec![
        only_linux2(),
        ("hash", Json::Str(hex_of(&sha1_of_bytes(b"wanted")))),
    ]);
    let (mut task, _op) = FileTask::start(entry, s("A"), b"linux2");
    let _ = task.step(FileEvent::Stat(StatOutcome::Present));
    let op = task.step(FileEvent::LocalHashed(Ok(sha1_of_bytes(b"present"))));
    assert!(matches!(
        op,
        FileOp::Finish(Err(Error::BadManifestFormat(ManifestFault::PatchesNotObject)))
    ));
}

#[test]
fn malformed_patches_key_is_fatal_even_without_match() {
    let entry = entry_with(vec![
        only_linux2(),
        ("hash", Json::Str(hex_of(&sha1_of_bytes(b"wanted")))),
        ("patches", Json::Obj(vec![(s("not hex at all"), Json::Null)])),
    ]);
    let (mut task, _op) = FileTask::start(entry, s("A"), b"linux2");
    let _ = task.step(FileEvent::Stat(StatOutcome::Present));
    let op = task.step(FileEvent::LocalHashed(Ok(sha1_of_bytes(b"present"))));
    assert!(matches!(
        op,
        FileOp::Finish(Err(Error::BadManifestFormat(ManifestFault::HexBadLength)))
    ));
}

#[test]
fn patch_descriptor_without_filename_is_fatal() {
    let local = sha1_of_bytes(b"present");
    let entry = entry_with(vec![
        only_linux2(),
        ("hash", Json::Str(hex_of(&sha1_of_bytes(b"wanted")))),
        (
            "patches",
            Json::Obj(vec![(hex_of(&local), entry_with(vec![("compPatchHash", Json::Null)]))]),
        ),
    ]);
    let (mut task, _op) = FileTask::start(entry, s("A"), b"linux2");
    let _ = task.step(FileEvent::Stat(StatOutcome::Present));
    let op = task.step(FileEvent::LocalHashed(Ok(local)));
    assert!(matches!(
        op,
        FileOp::Finish(Err(Error::BadManifestFormat(ManifestFault::MissingPatchFilename)))
    ));
}

#[test]
fn permission_denied_on_stat_is_fatal() {
    let entry = entry_with(vec![only_linux2()]);
    let (mut task, _op) = FileTask::start(entry, s("A"), b"linux2");
    let op = task.step(FileEvent::Stat(StatOutcome::PermissionDenied));
    assert!(matches!(op, FileOp::Finish(Err(Error::PermissionDenied))));
}

#[test]
fn failed_patch_application_is_fatal() {
    let local = sha1_of_bytes(b"present");
    let desc = entry_with(vec![
        ("filename", Json::Str(s("p.bz2"))),
        ("compPatchHash", Json::Str(hex_of(&sha1_of_bytes(b"c")))),
        ("patchHash", Json::Str(hex_of(&sha1_of_bytes(b"p")))),
    ]);
    let entry = entry_with(vec![
        only_linux2(),
        ("hash", Json::Str(hex_of(&sha1_of_bytes(b"wanted")))),
        ("patches", Json::Obj(vec![(hex_of(&local), desc)])),
    ]);
    let (mut task, _op) = FileTask::start(entry, s("A"), b"linux2");
    let _ = task.step(FileEvent::Stat(StatOutcome::Present));
    let op = task.step(FileEvent::LocalHashed(Ok(local)));
    assert!(matches!(op, FileOp::Dl(DlOp::Fetch { .. })));
    let _ = task.step(FileEvent::Dl(DlEvent::Fetched(FetchOutcome::Status(200))));
    let op = task.step(FileEvent::Dl(DlEvent::Hashed(Ok(sha1_of_bytes(b"c")))));
    assert!(matches!(op, FileOp::Dl(DlOp::Extract { .. })));
    let _ = task.step(FileEvent::Dl(DlEvent::Extracted(Ok(()))));
    let op = task.step(FileEvent::Dl(DlEvent::Hashed(Ok(sha1_of_bytes(b"p")))));
    assert!(matches!(op, FileOp::ApplyPatch { .. }));
    let op = task.step(FileEvent::Patched(Err(Error::BadPatchVersion)));
    assert!(matches!(op, FileOp::Finish(Err(Error::BadPatchVersion))));
}

#[test]
fn manifest_status_gate() {
    assert_eq!(
        manifest_response_check(FetchOutcome::TransportError),
        Err(Error::ManifestRequestError)
    );
    assert_eq!(manifest_response_check(FetchOutcome::Status(200)), Ok(()));
    assert_eq!(manifest_response_check(FetchOutcome::Status(299)), Ok(()));
    assert_eq!(
        manifest_response_check(FetchOutcome::Status(199)),
        Err(Error::ManifestRequestStatusError(199))
    );
    assert_eq!(
        manifest_response_check(FetchOutcome::Status(301)),
        Err(Error::ManifestRequestStatusError(301))
    );
    assert_eq!(
        manifest_response_check(FetchOutcome::Status(500)),
        Err(Error::ManifestRequestStatusError(500))
    );
}
