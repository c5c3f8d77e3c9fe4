use figma_discord_rp::updater::download::calculate_sha256;
use figma_discord_rp::updater::pipeline::{
    fallback_notice, is_affirmative, release_page_url, Action, Event, FallbackReason, Outcome, Pipeline, Stage,
    Transfer,
};
use figma_discord_rp::updater::release::{
    check_for_updates, GitHubAsset, GitHubRelease, MetadataResponse, ReleaseInfo, Target,
    UpdateConfig, UpdateError,
};
use figma_discord_rp::updater::version::Version;

fn config() -> UpdateConfig {
    UpdateConfig::new(
        Some("https://api.github.com/repos/owner/repo/releases/latest".to_string()),
        true,
    )
}

fn candidate(with_checksum: bool) -> ReleaseInfo {
    ReleaseInfo {
        version: Version::new(2, 0, 0),
        tag_name: "v2.0.0".to_string(),
        binary_url: "https://example.com/binary".to_string(),
        binary_name: "binary".to_string(),
        checksum_url: if with_checksum {
            Some("https://example.com/binary.sha256".to_string())
        } else {
            None
        },
        checksum_name: if with_checksum { Some("binary.sha256".to_string()) } else { None },
        size: 1000,
    }
}

fn at_binary_download(cfg: &UpdateConfig, data: &[u8]) -> Pipeline {
    let mut p = Pipeline::new();
    assert_eq!(p.advance(cfg, Event::Found(candidate(true))), Action::Announce);
    assert_eq!(p.advance(cfg, Event::Continue), Action::FetchManifest);
    let manifest = format!("{}  binary\n", calculate_sha256(data));
    assert_eq!(p.advance(cfg, Event::ManifestText(manifest)), Action::FetchBinary);
    assert_eq!(p.stage(), Stage::Downloading(Transfer::Binary));
    p
}

fn at_fallback(cfg: &UpdateConfig) -> Pipeline {
    let mut p = Pipeline::new();
    p.advance(cfg, Event::Found(candidate(false)));
    assert_eq!(p.advance(cfg, Event::Continue), Action::Prompt);
    p
}

#[test]
fn new_pipeline_waits_for_the_check() {
    let p = Pipeline::new();
    assert_eq!(p.stage(), Stage::Checking);
    assert_eq!(p.pending(), Action::Check);
    assert!(p.release().is_none());
    assert!(p.expected_hash().is_none());
    assert!(p.into_result().is_none());
}

#[test]
fn failed_check_and_no_release_end_quietly() {
    let cfg = config();
    for event in [Event::CheckFailed, Event::NoRelease] {
        let mut p = Pipeline::new();
        assert_eq!(p.advance(&cfg, event), Action::Stop);
        assert_eq!(p.stage(), Stage::Finished(Outcome::NoUpdate));
        assert!(matches!(p.into_result(), Some(Ok(()))));
    }
}

#[test]
fn end_to_end_update() {
    let cfg = config();
    let data: Vec<u8> = (0..1000u32).map(|i| (i % 251) as u8).collect();
    let release = GitHubRelease {
        tag_name: "v2.0.0".to_string(),
        draft: false,
        assets: vec![
            GitHubAsset {
                name: "binary.sha256".to_string(),
                browser_download_url: "https://example.com/binary.sha256".to_string(),
                size: 80,
            },
            GitHubAsset {
                name: "binary-linux-x86_64".to_string(),
                browser_download_url: "https://example.com/binary-linux-x86_64".to_string(),
                size: 1000,
            },
            GitHubAsset {
                name: "binary-linux-x86_64.sha256".to_string(),
                browser_download_url: "https://example.com/binary-linux-x86_64.sha256".to_string(),
                size: 90,
            },
        ],
    };
    let response = MetadataResponse::Answered { status: 200, release: Some(release) };
    let found = check_for_updates(&cfg, &response, "1.9.0", Target::Linux).unwrap().unwrap();
    assert_eq!(found.size, 1000);
    assert_eq!(found.checksum_name.as_deref(), Some("binary-linux-x86_64.sha256"));

    let mut actions = Vec::new();
    let mut p = Pipeline::new();
    actions.push(p.pending());
    actions.push(p.advance(&cfg, Event::Found(found)));
    assert_eq!(p.stage(), Stage::Candidate);
    actions.push(p.advance(&cfg, Event::Continue));
    assert_eq!(p.stage(), Stage::Downloading(Transfer::Manifest));
    let manifest = format!(
        "{}  binary-linux-x86_64\n",
        calculate_sha256(&data).to_uppercase()
    );
    actions.push(p.advance(&cfg, Event::ManifestText(manifest)));
    assert_eq!(p.stage(), Stage::Downloading(Transfer::Binary));
    assert_eq!(p.expected_hash().map(|s| s.as_str()), Some(calculate_sha256(&data).as_str()));
    actions.push(p.advance(&cfg, Event::BinaryFetched));
    assert_eq!(p.stage(), Stage::Verifying);
    actions.push(p.advance(&cfg, Event::BinaryBytes(data)));
    assert_eq!(p.stage(), Stage::Installing);
    actions.push(p.advance(&cfg, Event::Installed));
    assert_eq!(p.stage(), Stage::Restarting);
    actions.push(p.advance(&cfg, Event::Restarted));
    assert_eq!(p.stage(), Stage::Finished(Outcome::Restarted));
    assert_eq!(
        actions,
        vec![
            Action::Check,
            Action::Announce,
            Action::FetchManifest,
            Action::FetchBinary,
            Action::ReadBinary,
            Action::Install,
            Action::Restart,
            Action::Stop,
        ]
    );
    assert_eq!(actions.iter().filter(|a| **a == Action::Install).count(), 1);
    assert_eq!(actions.iter().filter(|a| **a == Action::Restart).count(), 1);
    assert!(!actions.contains(&Action::Prompt));
    assert!(matches!(p.into_result(), Some(Ok(()))));
}

#[test]
fn candidate_without_checksum_goes_to_the_fallback() {
    let cfg = config();
    let mut p = Pipeline::new();
    assert_eq!(p.advance(&cfg, Event::Found(candidate(false))), Action::Announce);
    assert_eq!(p.release().unwrap().tag_name, "v2.0.0");
    assert_eq!(p.advance(&cfg, Event::Continue), Action::Prompt);
    assert_eq!(p.stage(), Stage::ManualFallback(FallbackReason::NoChecksumFile));
    for event in [
        Event::BinaryFetched,
        Event::BinaryBytes(vec![1, 2, 3]),
        Event::Installed,
        Event::Restarted,
        Event::ManifestText("aa binary".to_string()),
        Event::Continue,
    ] {
        assert_eq!(p.advance(&cfg, event), Action::Prompt);
        assert_eq!(p.stage(), Stage::ManualFallback(FallbackReason::NoChecksumFile));
    }
    assert_eq!(p.advance(&cfg, Event::Answer("n\n".to_string())), Action::Stop);
    assert_eq!(p.stage(), Stage::Finished(Outcome::Declined));
    assert_eq!(p.advance(&cfg, Event::Installed), Action::Stop);
    assert_eq!(p.stage(), Stage::Finished(Outcome::Declined));
    assert!(matches!(p.into_result(), Some(Err(UpdateError::UserDeclined))));
}

#[test]
fn candidate_with_half_a_checksum_goes_to_the_fallback() {
    let cfg = config();
    let mut info = candidate(true);
    info.checksum_name = None;
    let mut p = Pipeline::new();
    p.advance(&cfg, Event::Found(info));
    assert_eq!(p.advance(&cfg, Event::Continue), Action::Prompt);
    assert_eq!(p.stage(), Stage::ManualFallback(FallbackReason::NoChecksumFile));
}

#[test]
fn manifest_failures_go_to_the_fallback() {
    let cfg = config();
    let cases = [
        (Event::ManifestFetchFailed, FallbackReason::ChecksumDownloadFailed),
        (Event::ManifestUnreadable, FallbackReason::ChecksumUnreadable),
        (Event::ManifestText("aa other-file\n".to_string()), FallbackReason::InvalidChecksumFormat),
        (Event::ManifestText(String::new()), FallbackReason::InvalidChecksumFormat),
    ];
    for (event, reason) in cases {
        let mut p = Pipeline::new();
        p.advance(&cfg, Event::Found(candidate(true)));
        assert_eq!(p.advance(&cfg, Event::Continue), Action::FetchManifest);
        assert_eq!(p.advance(&cfg, event), Action::Prompt);
        assert_eq!(p.stage(), Stage::ManualFallback(reason));
        assert!(p.expected_hash().is_none());
    }
}

#[test]
fn binary_download_failure_is_an_error() {
    let cfg = config();
    let mut p = at_binary_download(&cfg, b"payload");
    let action = p.advance(&cfg, Event::BinaryFetchFailed(UpdateError::Network("reset".to_string())));
    assert_eq!(action, Action::Stop);
    assert_eq!(p.stage(), Stage::Finished(Outcome::Failed));
    match p.into_result() {
        Some(Err(UpdateError::Network(why))) => assert_eq!(why, "reset"),
        _ => panic!("the download error is handed on"),
    }
}

#[test]
fn mismatch_goes_to_the_fallback() {
    let cfg = config();
    let mut p = at_binary_download(&cfg, b"payload");
    assert_eq!(p.advance(&cfg, Event::BinaryFetched), Action::ReadBinary);
    assert_eq!(p.advance(&cfg, Event::BinaryBytes(b"tampered".to_vec())), Action::Prompt);
    assert_eq!(p.stage(), Stage::ManualFallback(FallbackReason::ChecksumMismatch));
    assert_eq!(p.advance(&cfg, Event::Installed), Action::Prompt);
    assert_eq!(p.stage(), Stage::ManualFallback(FallbackReason::ChecksumMismatch));

    let mut q = at_binary_download(&cfg, b"payload");
    q.advance(&cfg, Event::BinaryFetched);
    assert_eq!(q.advance(&cfg, Event::BinaryUnreadable), Action::Prompt);
    assert_eq!(q.stage(), Stage::ManualFallback(FallbackReason::ChecksumMismatch));
}

#[test]
fn install_and_restart_failures_are_errors() {
    let cfg = config();
    let mut p = at_binary_download(&cfg, b"payload");
    p.advance(&cfg, Event::BinaryFetched);
    assert_eq!(p.advance(&cfg, Event::BinaryBytes(b"payload".to_vec())), Action::Install);
    assert_eq!(p.advance(&cfg, Event::InstallFailed("read-only".to_string())), Action::Stop);
    assert_eq!(p.stage(), Stage::Finished(Outcome::Failed));
    match p.into_result() {
        Some(Err(UpdateError::Install(why))) => assert_eq!(why, "read-only"),
        _ => panic!("the installer's error is handed on"),
    }

    let mut q = at_binary_download(&cfg, b"payload");
    q.advance(&cfg, Event::BinaryFetched);
    q.advance(&cfg, Event::BinaryBytes(b"payload".to_vec()));
    assert_eq!(q.advance(&cfg, Event::Installed), Action::Restart);
    assert_eq!(q.advance(&cfg, Event::RestartFailed("gone".to_string())), Action::Stop);
    match q.into_result() {
        Some(Err(UpdateError::Restart(why))) => assert_eq!(why, "gone"),
        _ => panic!("the restart error is handed on"),
    }
}

#[test]
fn unexpected_events_change_nothing() {
    let cfg = config();
    let mut p = Pipeline::new();
    assert_eq!(p.advance(&cfg, Event::Installed), Action::Check);
    assert_eq!(p.advance(&cfg, Event::Continue), Action::Check);
    assert_eq!(p.advance(&cfg, Event::Answer("y".to_string())), Action::Check);
    assert_eq!(p.stage(), Stage::Checking);
    let mut q = at_binary_download(&cfg, b"x");
    assert_eq!(q.advance(&cfg, Event::BinaryBytes(b"x".to_vec())), Action::FetchBinary);
    assert_eq!(q.advance(&cfg, Event::Installed), Action::FetchBinary);
    assert_eq!(q.stage(), Stage::Downloading(Transfer::Binary));
    assert!(q.into_result().is_none());
}

#[test]
fn answers_at_the_prompt() {
    let cfg = config();
    for yes in ["", "\n", "y", "Y\n", "yes", " YES \r\n", "Yes"] {
        let mut p = at_fallback(&cfg);
        assert_eq!(p.advance(&cfg, Event::Answer(yes.to_string())), Action::OpenReleasePage);
        assert_eq!(p.stage(), Stage::Finished(Outcome::Declined));
        assert!(matches!(p.into_result(), Some(Err(UpdateError::UserDeclined))));
    }
    for no in ["n", "no", "yes please", "yy", "maybe", "0"] {
        let mut p = at_fallback(&cfg);
        assert_eq!(p.advance(&cfg, Event::Answer(no.to_string())), Action::Stop);
        assert_eq!(p.stage(), Stage::Finished(Outcome::Declined));
    }
    let mut p = at_fallback(&cfg);
    assert_eq!(p.advance(&cfg, Event::NoAnswer), Action::Stop);
    assert_eq!(p.stage(), Stage::Finished(Outcome::Declined));
}

#[test]
fn yes_without_a_known_page() {
    let elsewhere = UpdateConfig::new(Some("https://example.com/latest.json".to_string()), true);
    let mut p = at_fallback(&elsewhere);
    assert_eq!(p.advance(&elsewhere, Event::Answer("y".to_string())), Action::ReportMissingUrl);
    assert_eq!(p.stage(), Stage::Finished(Outcome::Declined));
    let mut q = at_fallback(&elsewhere);
    assert_eq!(q.advance(&elsewhere, Event::Answer("n".to_string())), Action::Stop);
}

#[test]
fn affirmative_answers() {
    assert!(is_affirmative(""));
    assert!(is_affirmative("  \n"));
    assert!(is_affirmative("y"));
    assert!(is_affirmative("YeS\n"));
    assert!(!is_affirmative("n"));
    assert!(!is_affirmative("y e s"));
    assert!(!is_affirmative("ye"));
}

#[test]
fn release_page_for_a_tag() {
    assert_eq!(
        release_page_url(&config(), "v2.0.0").as_deref(),
        Some("https://github.com/owner/repo/releases/tag/v2.0.0")
    );
    let off = UpdateConfig::new(None, true);
    assert_eq!(release_page_url(&off, "v2.0.0"), None);
}

#[test]
fn fallback_reasons_as_text() {
    assert_eq!(
        FallbackReason::NoChecksumFile.message(),
        "could not verify signature (no checksum file)"
    );
    assert_eq!(
        FallbackReason::ChecksumDownloadFailed.message(),
        "could not verify signature (failed to download checksum)"
    );
    assert_eq!(
        FallbackReason::ChecksumUnreadable.message(),
        "could not verify signature (failed to read checksum)"
    );
    assert_eq!(
        FallbackReason::InvalidChecksumFormat.message(),
        "could not verify signature (invalid checksum format)"
    );
    assert_eq!(
        FallbackReason::ChecksumMismatch.message(),
        "could not verify signature (checksum mismatch)"
    );
}

#[test]
fn notice_names_version_and_reason() {
    let mut v = Version::new(2, 10, 0);
    assert_eq!(
        fallback_notice(&v, FallbackReason::ChecksumMismatch),
        "New version v2.10.0 found, but could not verify signature (checksum mismatch)."
    );
    v.pre = "rc.1".to_string();
    v.build = "abc".to_string();
    assert_eq!(
        fallback_notice(&v, FallbackReason::NoChecksumFile),
        "New version v2.10.0-rc.1+abc found, but could not verify signature (no checksum file)."
    );
}

#[test]
fn missing_workspace_is_an_error() {
    let cfg = config();
    let mut p = Pipeline::new();
    p.advance(&cfg, Event::Found(candidate(true)));
    assert_eq!(p.advance(&cfg, Event::Continue), Action::FetchManifest);
    assert_eq!(
        p.advance(&cfg, Event::WorkspaceUnavailable("disk full".to_string())),
        Action::Stop
    );
    assert_eq!(p.stage(), Stage::Finished(Outcome::Failed));
    match p.into_result() {
        Some(Err(UpdateError::Io(why))) => assert_eq!(why, "disk full"),
        _ => panic!("the error is handed on"),
    }
    let mut q = Pipeline::new();
    assert_eq!(
        q.advance(&cfg, Event::WorkspaceUnavailable("early".to_string())),
        Action::Check
    );
    assert_eq!(q.stage(), Stage::Checking);
}
