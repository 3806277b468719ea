use gyeet::error::PipelineError;
use gyeet::install::{tool_arguments_for, trimmed, InstallAction, InstallEvent, InstallSession};
use gyeet::integrity::{artifact_matches, digest, digests_match, StreamingDigest};
use gyeet::manifest::{resolve_current_version, resolve_patch, GameVersion, PatchInfo, PatchManifest};
use gyeet::progress::{DownloadMeter, Heartbeat, ProgressEvent, ProgressStream};
use gyeet::update::{UpdateAction, UpdateEvent, UpdateSession};

const ABC_DIGEST: &str = "BA7816BF8F01CFEA414140DE5DAE2223B00361A396177A9CB410FF61F20015AD";

fn sample_manifest(sha: &str) -> PatchManifest {
    PatchManifest {
        latest: "v2".to_string(),
        file_hash_map: vec![("HASHv1".to_string(), "v1".to_string())],
        patches: vec![(
            "v1".to_string(),
            PatchInfo { url: "http://x/patch.7z".to_string(), sha256: sha.to_string() },
        )],
    }
}

fn log_lines(events: &[ProgressEvent]) -> Vec<String> {
    events
        .iter()
        .filter_map(|e| match e {
            ProgressEvent::Log(t) => Some(t.clone()),
            _ => None,
        })
        .collect()
}

fn assert_single_final_sentinel(events: &[ProgressEvent]) {
    let n = events.iter().filter(|e| **e == ProgressEvent::Done).count();
    assert_eq!(n, 1);
    assert_eq!(events.last(), Some(&ProgressEvent::Done));
}

#[test]
fn digest_of_known_input() {
    assert_eq!(digest(b"abc"), ABC_DIGEST);
    assert_eq!(digest(b"abc"), digest(b"abc"));
    assert_ne!(digest(b"abc"), digest(b"abd"));
    assert_eq!(digest(b"").len(), 64);
}

#[test]
fn streaming_digest_equals_one_shot() {
    let mut d = StreamingDigest::new();
    d.update(b"a");
    d.update(b"");
    d.update(b"bc");
    assert_eq!(d.finish(), ABC_DIGEST);
    let data: Vec<u8> = (0..20000u32).map(|i| (i % 251) as u8).collect();
    let mut d = StreamingDigest::new();
    for chunk in data.chunks(8192) {
        d.update(chunk);
    }
    assert_eq!(d.finish(), digest(&data));
}

#[test]
fn digests_compare_without_case() {
    let lower = ABC_DIGEST.to_lowercase();
    assert!(digests_match(&ABC_DIGEST.to_string(), &lower));
    assert!(!digests_match(&ABC_DIGEST.to_string(), &"BA78".to_string()));
    assert!(artifact_matches(b"abc", &lower));
    assert!(!artifact_matches(b"abd", &lower));
}

#[test]
fn resolves_patch_for_known_hash() {
    let m = sample_manifest("ABCD");
    let v = resolve_current_version(&m, &"HASHv1".to_string()).unwrap();
    assert_eq!(v, "v1");
    let p = resolve_patch(&m, &v).unwrap();
    assert_eq!(p, PatchInfo { url: "http://x/patch.7z".to_string(), sha256: "ABCD".to_string() });
}

#[test]
fn unknown_hash_is_unrecognized() {
    let m = sample_manifest("ABCD");
    assert_eq!(
        resolve_current_version(&m, &"hashv1".to_string()),
        Err(PipelineError::UnrecognizedVersion)
    );
}

#[test]
fn missing_patch_is_reported() {
    let m = sample_manifest("ABCD");
    assert_eq!(
        resolve_patch(&m, &"v0".to_string()),
        Err(PipelineError::NoPatchAvailable("v0".to_string()))
    );
}

#[test]
fn update_at_latest_downloads_nothing() {
    let mut m = sample_manifest("ABCD");
    m.file_hash_map.push(("HASHv2".to_string(), "v2".to_string()));
    let mut out = ProgressStream::new();
    let (mut s, a) = UpdateSession::start("HASHv2".to_string(), &mut out);
    assert!(matches!(a, UpdateAction::FetchManifest));
    let a = s.step(UpdateEvent::ManifestFetched(Ok(m)), &mut out);
    assert!(matches!(a, UpdateAction::Finished));
    let events = out.take_pending();
    assert_eq!(events[events.len() - 2], ProgressEvent::Completed(0));
    assert_single_final_sentinel(&events);
}

#[test]
fn update_with_unknown_hash_fetches_no_patch() {
    let mut out = ProgressStream::new();
    let (mut s, _) = UpdateSession::start("OTHER".to_string(), &mut out);
    let a = s.step(UpdateEvent::ManifestFetched(Ok(sample_manifest("ABCD"))), &mut out);
    assert!(matches!(a, UpdateAction::Finished));
    let events = out.take_pending();
    assert_eq!(events[events.len() - 2], ProgressEvent::Failed(PipelineError::UnrecognizedVersion));
    assert_single_final_sentinel(&events);
}

#[test]
fn corrupted_patch_is_never_extracted() {
    let mut out = ProgressStream::new();
    let (mut s, _) = UpdateSession::start("HASHv1".to_string(), &mut out);
    let a = s.step(UpdateEvent::ManifestFetched(Ok(sample_manifest(ABC_DIGEST))), &mut out);
    match a {
        UpdateAction::Download(url) => assert_eq!(url, "http://x/patch.7z"),
        _ => panic!("expected a download"),
    }
    let a = s.step(UpdateEvent::Downloaded(Ok(b"abd".to_vec())), &mut out);
    assert!(matches!(a, UpdateAction::Finished));
    let events = out.take_pending();
    assert_eq!(events[events.len() - 2], ProgressEvent::Failed(PipelineError::IntegrityError));
    assert_single_final_sentinel(&events);
}

#[test]
fn full_update_run() {
    let lower = ABC_DIGEST.to_lowercase();
    let mut out = ProgressStream::new();
    let (mut s, _) = UpdateSession::start("HASHv1".to_string(), &mut out);
    s.step(UpdateEvent::ManifestFetched(Ok(sample_manifest(&lower))), &mut out);
    match s.step(UpdateEvent::Downloaded(Ok(b"abc".to_vec())), &mut out) {
        UpdateAction::Extract(bytes) => assert_eq!(bytes, b"abc".to_vec()),
        _ => panic!("expected extraction"),
    }
    assert!(matches!(s.step(UpdateEvent::Extracted(Ok(())), &mut out), UpdateAction::FindScript));
    assert!(matches!(s.step(UpdateEvent::ScriptLocated(true), &mut out), UpdateAction::RunScript));
    assert!(matches!(s.step(UpdateEvent::ScriptExited(Ok(0)), &mut out), UpdateAction::Cleanup));
    assert!(matches!(s.step(UpdateEvent::CleanedUp, &mut out), UpdateAction::Finished));
    let events = out.take_pending();
    assert_eq!(events[events.len() - 2], ProgressEvent::Completed(0));
    assert_single_final_sentinel(&events);
}

#[test]
fn failing_script_is_cleaned_up_then_reported() {
    let mut out = ProgressStream::new();
    let (mut s, _) = UpdateSession::start("HASHv1".to_string(), &mut out);
    s.step(UpdateEvent::ManifestFetched(Ok(sample_manifest(ABC_DIGEST))), &mut out);
    s.step(UpdateEvent::Downloaded(Ok(b"abc".to_vec())), &mut out);
    s.step(UpdateEvent::Extracted(Ok(())), &mut out);
    s.step(UpdateEvent::ScriptLocated(true), &mut out);
    assert!(matches!(s.step(UpdateEvent::ScriptExited(Ok(3)), &mut out), UpdateAction::Cleanup));
    assert!(matches!(s.step(UpdateEvent::CleanedUp, &mut out), UpdateAction::Finished));
    let events = out.take_pending();
    assert_eq!(events[events.len() - 2], ProgressEvent::Failed(PipelineError::ScriptExecutionFailed(3)));
    assert_single_final_sentinel(&events);
}

#[test]
fn missing_script_is_reported() {
    let mut out = ProgressStream::new();
    let (mut s, _) = UpdateSession::start("HASHv1".to_string(), &mut out);
    s.step(UpdateEvent::ManifestFetched(Ok(sample_manifest(ABC_DIGEST))), &mut out);
    s.step(UpdateEvent::Downloaded(Ok(b"abc".to_vec())), &mut out);
    s.step(UpdateEvent::Extracted(Ok(())), &mut out);
    assert!(matches!(s.step(UpdateEvent::ScriptLocated(false), &mut out), UpdateAction::Finished));
    let events = out.take_pending();
    assert_eq!(events[events.len() - 2], ProgressEvent::Failed(PipelineError::ScriptNotFound));
    assert_single_final_sentinel(&events);
}

#[test]
fn network_failure_ends_the_run() {
    let mut out = ProgressStream::new();
    let (mut s, _) = UpdateSession::start("HASHv1".to_string(), &mut out);
    let err = PipelineError::NetworkError("offline".to_string());
    assert!(matches!(s.step(UpdateEvent::ManifestFetched(Err(err.clone())), &mut out), UpdateAction::Finished));
    let events = out.take_pending();
    assert_eq!(events[events.len() - 2], ProgressEvent::Failed(err));
    assert_single_final_sentinel(&events);
}

fn version() -> GameVersion {
    GameVersion { name: "0.9".to_string(), hash: "H".to_string(), link: "http://x/index.caidx".to_string() }
}

#[test]
fn install_with_local_tool() {
    let mut out = ProgressStream::new();
    let (mut s, a) = InstallSession::start(&version(), "/games/votv".to_string(), &mut out);
    assert!(matches!(a, InstallAction::CheckLocalTool));
    match s.step(InstallEvent::LocalTool(true), &mut out) {
        InstallAction::CreateTarget(d) => assert_eq!(d, "/games/votv"),
        _ => panic!("expected target creation"),
    }
    match s.step(InstallEvent::TargetCreated(Ok(())), &mut out) {
        InstallAction::DownloadIndex(u) => assert_eq!(u, "http://x/index.caidx"),
        _ => panic!("expected index download"),
    }
    assert!(matches!(s.step(InstallEvent::IndexDownloaded(Ok(vec![1, 2])), &mut out), InstallAction::SaveIndex(_)));
    match s.step(InstallEvent::IndexSaved(Ok("/tmp/w/index.caidx".to_string())), &mut out) {
        InstallAction::RunTool { program, args } => {
            assert_eq!(program, "./desync");
            assert_eq!(args[6], "/tmp/w/index.caidx");
            assert_eq!(args[7], "/games/votv");
        }
        _ => panic!("expected the tool to run"),
    }
    let a = s.step(InstallEvent::ToolExited(Ok(2)), &mut out);
    assert!(matches!(a, InstallAction::Cleanup));
    assert!(matches!(s.step(InstallEvent::CleanedUp, &mut out), InstallAction::Finished));
    let events = out.take_pending();
    assert_eq!(events[events.len() - 2], ProgressEvent::Failed(PipelineError::InstallToolFailed(2)));
    assert_single_final_sentinel(&events);
}

#[test]
fn install_finds_tool_on_search_path() {
    let mut out = ProgressStream::new();
    let (mut s, _) = InstallSession::start(&version(), "/games/votv".to_string(), &mut out);
    assert!(matches!(s.step(InstallEvent::LocalTool(false), &mut out), InstallAction::SearchPath));
    assert!(matches!(
        s.step(InstallEvent::PathSearched(Some("/usr/bin/desync\n".to_string())), &mut out),
        InstallAction::CreateTarget(_)
    ));
    s.step(InstallEvent::TargetCreated(Ok(())), &mut out);
    s.step(InstallEvent::IndexDownloaded(Ok(vec![])), &mut out);
    match s.step(InstallEvent::IndexSaved(Ok("i".to_string())), &mut out) {
        InstallAction::RunTool { program, .. } => assert_eq!(program, "/usr/bin/desync"),
        _ => panic!("expected the tool to run"),
    }
}

#[test]
fn install_bootstraps_tool() {
    let mut out = ProgressStream::new();
    let (mut s, _) = InstallSession::start(&version(), "/g".to_string(), &mut out);
    s.step(InstallEvent::LocalTool(false), &mut out);
    match s.step(InstallEvent::PathSearched(Some("  \n".to_string())), &mut out) {
        InstallAction::FetchTool(u) => assert!(u.ends_with("desync_0.9.6_linux_amd64.tar.gz")),
        _ => panic!("expected the tool download"),
    }
    assert!(matches!(s.step(InstallEvent::ToolFetched(Ok(vec![0])), &mut out), InstallAction::UnpackTool(_)));
    assert!(matches!(s.step(InstallEvent::ToolUnpacked(Ok(())), &mut out), InstallAction::LocateTool));
    match s.step(InstallEvent::ToolLocated(Some("/s/desync".to_string())), &mut out) {
        InstallAction::PlaceTool(p) => assert_eq!(p, "/s/desync"),
        _ => panic!("expected placing the tool"),
    }
    assert!(matches!(s.step(InstallEvent::ToolPlaced(Ok(())), &mut out), InstallAction::CreateTarget(_)));
}

#[test]
fn bootstrap_failure_is_terminal() {
    let mut out = ProgressStream::new();
    let (mut s, _) = InstallSession::start(&version(), "/g".to_string(), &mut out);
    s.step(InstallEvent::LocalTool(false), &mut out);
    s.step(InstallEvent::PathSearched(None), &mut out);
    let a = s.step(InstallEvent::ToolFetched(Err("offline".to_string())), &mut out);
    assert!(matches!(a, InstallAction::Finished));
    let events = out.take_pending();
    assert_eq!(
        events[events.len() - 2],
        ProgressEvent::Failed(PipelineError::ToolBootstrapFailed("offline".to_string()))
    );
    assert_single_final_sentinel(&events);
}

#[test]
fn install_always_creates_target() {
    let mut out = ProgressStream::new();
    let (mut s, _) = InstallSession::start(&version(), "/existing/empty".to_string(), &mut out);
    match s.step(InstallEvent::LocalTool(true), &mut out) {
        InstallAction::CreateTarget(d) => assert_eq!(d, "/existing/empty"),
        _ => panic!("expected target creation"),
    }
}

#[test]
fn tool_arguments_are_fixed() {
    let args = tool_arguments_for(&"/tmp/i.caidx".to_string(), &"/g".to_string());
    assert_eq!(
        args,
        vec![
            "untar", "--verbose", "--no-same-owner", "-i", "-s",
            "https://votv.dev/patcher_assets/256-1024-4096-store", "/tmp/i.caidx", "/g", "-n", "16",
        ]
    );
}

#[test]
fn meter_ticks_on_threshold_and_end() {
    let mut m = DownloadMeter::new(524288 + 10);
    assert_eq!(m.record(1000), None);
    assert_eq!(m.record(524288 - 1000), Some(ProgressEvent::Tick { downloaded: 524288, total: 524298 }));
    assert_eq!(m.record(10), Some(ProgressEvent::Tick { downloaded: 524298, total: 524298 }));
    assert_eq!(m.summary(), ProgressEvent::Tick { downloaded: 524298, total: 524298 });
}

#[test]
fn meter_ticks_when_threshold_is_crossed() {
    let mut m = DownloadMeter::new(1000000);
    assert_eq!(m.record(524287), None);
    assert_eq!(m.record(2), Some(ProgressEvent::Tick { downloaded: 524289, total: 1000000 }));
    assert_eq!(m.record(100), None);
}

#[test]
fn meter_without_total_reports_byte_counts() {
    let mut m = DownloadMeter::new(0);
    assert_eq!(m.record(1000), None);
    assert_eq!(m.record(524288), Some(ProgressEvent::Tick { downloaded: 525288, total: 0 }));
    assert_eq!(m.summary(), ProgressEvent::Tick { downloaded: 525288, total: 0 });
}

#[test]
fn heartbeat_stops_after_exit() {
    let mut h = Heartbeat::new();
    assert_eq!(h.observe(true), Some(2));
    assert_eq!(h.observe(true), Some(4));
    assert_eq!(h.observe(false), None);
    assert!(!h.running());
    assert_eq!(h.observe(true), None);
}

#[test]
fn heartbeat_for_immediate_exit() {
    let mut h = Heartbeat::new();
    let mut beats = 0;
    for alive in [false, true, true] {
        if h.observe(alive).is_some() {
            beats += 1;
        }
    }
    assert!(beats <= 1);
    assert_eq!(beats, 0);
}

#[test]
fn stream_ends_with_one_sentinel() {
    let mut out = ProgressStream::new();
    out.log("a".to_string());
    let first = out.take_pending();
    assert_eq!(first, vec![ProgressEvent::Log("a".to_string())]);
    out.finish(Err(PipelineError::IntegrityError));
    assert!(out.closed());
    let rest = out.take_pending();
    assert_eq!(rest, vec![ProgressEvent::Failed(PipelineError::IntegrityError), ProgressEvent::Done]);
}

#[test]
fn trims_unicode_white_space() {
    assert_eq!(trimmed("\u{3000} \t/usr/bin/desync\n\u{a0}"), "/usr/bin/desync");
    assert_eq!(trimmed(" \u{2028}\r\n"), "");
    assert_eq!(trimmed("a b"), "a b");
    assert_eq!(trimmed(""), "");
}

#[test]
fn latest_run_logs_versions_then_stops() {
    let mut m = sample_manifest("ABCD");
    m.file_hash_map.push(("HASHv2".to_string(), "v2".to_string()));
    let mut out = ProgressStream::new();
    let (mut s, _) = UpdateSession::start("HASHv2".to_string(), &mut out);
    s.step(UpdateEvent::ManifestFetched(Ok(m)), &mut out);
    let events = out.take_pending();
    assert_eq!(
        log_lines(&events),
        vec![
            "Fetching patch manifest...",
            "Current version: v2",
            "Latest version: v2",
            "Already at latest version!",
        ]
    );
    assert!(!events.iter().any(|e| matches!(e, ProgressEvent::Tick { .. })));
}

#[test]
fn worked_manifest_logs_patch_lines_in_order() {
    let mut out = ProgressStream::new();
    let (mut s, _) = UpdateSession::start("HASHv1".to_string(), &mut out);
    s.step(UpdateEvent::ManifestFetched(Ok(sample_manifest("ABCD"))), &mut out);
    assert_eq!(
        log_lines(&out.take_pending()),
        vec![
            "Fetching patch manifest...",
            "Current version: v1",
            "Latest version: v2",
            "Downloading patch from: http://x/patch.7z",
            "Expected SHA256: ABCD",
        ]
    );
}

#[test]
fn unrecognized_hash_logs_no_version() {
    let mut out = ProgressStream::new();
    let (mut s, _) = UpdateSession::start("OTHER".to_string(), &mut out);
    s.step(UpdateEvent::ManifestFetched(Ok(sample_manifest("ABCD"))), &mut out);
    assert_eq!(log_lines(&out.take_pending()), vec!["Fetching patch manifest..."]);
}

#[test]
fn mismatch_never_claims_verification() {
    let mut out = ProgressStream::new();
    let (mut s, _) = UpdateSession::start("HASHv1".to_string(), &mut out);
    s.step(UpdateEvent::ManifestFetched(Ok(sample_manifest(ABC_DIGEST))), &mut out);
    out.take_pending();
    s.step(UpdateEvent::Downloaded(Ok(b"abd".to_vec())), &mut out);
    assert_eq!(log_lines(&out.take_pending()), vec!["Verifying patch integrity..."]);
}

#[test]
fn successful_update_ends_with_completion_line() {
    let mut out = ProgressStream::new();
    let (mut s, _) = UpdateSession::start("HASHv1".to_string(), &mut out);
    s.step(UpdateEvent::ManifestFetched(Ok(sample_manifest(&ABC_DIGEST.to_lowercase()))), &mut out);
    s.step(UpdateEvent::Downloaded(Ok(b"abc".to_vec())), &mut out);
    s.step(UpdateEvent::Extracted(Ok(())), &mut out);
    s.step(UpdateEvent::ScriptLocated(true), &mut out);
    s.step(UpdateEvent::ScriptExited(Ok(0)), &mut out);
    s.step(UpdateEvent::CleanedUp, &mut out);
    let events = out.take_pending();
    let lines = log_lines(&events);
    assert!(lines.contains(&"Patch verified successfully".to_string()));
    assert_eq!(lines.last().unwrap(), "Update complete!");
    assert_eq!(events[events.len() - 2], ProgressEvent::Completed(0));
}

#[test]
fn failed_script_logs_no_completion() {
    let mut out = ProgressStream::new();
    let (mut s, _) = UpdateSession::start("HASHv1".to_string(), &mut out);
    s.step(UpdateEvent::ManifestFetched(Ok(sample_manifest(ABC_DIGEST))), &mut out);
    s.step(UpdateEvent::Downloaded(Ok(b"abc".to_vec())), &mut out);
    s.step(UpdateEvent::Extracted(Ok(())), &mut out);
    s.step(UpdateEvent::ScriptLocated(true), &mut out);
    s.step(UpdateEvent::ScriptExited(Ok(1)), &mut out);
    s.step(UpdateEvent::CleanedUp, &mut out);
    assert!(!log_lines(&out.take_pending()).contains(&"Update complete!".to_string()));
}

#[test]
fn successful_install_names_its_directory() {
    let mut out = ProgressStream::new();
    let (mut s, _) = InstallSession::start(&version(), "/games/votv".to_string(), &mut out);
    s.step(InstallEvent::LocalTool(true), &mut out);
    s.step(InstallEvent::TargetCreated(Ok(())), &mut out);
    s.step(InstallEvent::IndexDownloaded(Ok(vec![1])), &mut out);
    s.step(InstallEvent::IndexSaved(Ok("/tmp/i.caidx".to_string())), &mut out);
    s.step(InstallEvent::ToolExited(Ok(0)), &mut out);
    s.step(InstallEvent::CleanedUp, &mut out);
    let events = out.take_pending();
    let lines = log_lines(&events);
    assert!(lines.contains(&"Using desync: ./desync".to_string()));
    assert!(lines.contains(&"Downloading index file...".to_string()));
    assert_eq!(lines.last().unwrap(), "Game installed to: /games/votv");
    assert_eq!(events[events.len() - 2], ProgressEvent::Completed(0));
    assert_single_final_sentinel(&events);
}

#[test]
fn placed_tool_is_reported() {
    let mut out = ProgressStream::new();
    let (mut s, _) = InstallSession::start(&version(), "/g".to_string(), &mut out);
    s.step(InstallEvent::LocalTool(false), &mut out);
    s.step(InstallEvent::PathSearched(None), &mut out);
    s.step(InstallEvent::ToolFetched(Ok(vec![0])), &mut out);
    s.step(InstallEvent::ToolUnpacked(Ok(())), &mut out);
    s.step(InstallEvent::ToolLocated(Some("/s/desync".to_string())), &mut out);
    out.take_pending();
    s.step(InstallEvent::ToolPlaced(Ok(())), &mut out);
    assert_eq!(
        log_lines(&out.take_pending()),
        vec!["desync installed to: ./desync", "Using desync: ./desync"]
    );
}
