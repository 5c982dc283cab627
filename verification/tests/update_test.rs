use nztool_oar::update::{
    check_for_updates, init_state, is_version_newer, start_update, GithubAsset, GithubRelease,
    UpdateStep,
};

#[test]
fn newer_versions_compare_part_by_part() {
    assert!(is_version_newer("2.4.2", "2.4.1"));
    assert!(is_version_newer("2.10.0", "2.9.9"));
    assert!(is_version_newer("3", "2.99.99"));
    assert!(!is_version_newer("2.4.1", "2.4.1"));
    assert!(!is_version_newer("2.4.0", "2.4.1"));
    assert!(!is_version_newer("2.4", "2.4.0"));
    assert!(!is_version_newer("2.4.0", "2.4"));
    assert!(is_version_newer("2.4.0.1", "2.4"));
}

#[test]
fn unreadable_parts_count_as_zero() {
    assert!(!is_version_newer("2.x.9", "2.0.9"));
    assert!(is_version_newer("2.+1", "2.0"));
    assert!(!is_version_newer("2.-1", "2.0"));
    assert!(!is_version_newer("", "0"));
    assert!(is_version_newer("4294967295", "4294967294"));
    assert!(!is_version_newer("4294967296", "1"));
}

fn release(tag: &str, names: &[&str]) -> GithubRelease {
    GithubRelease {
        tag_name: tag.to_string(),
        body: Some("notes".to_string()),
        assets: names
            .iter()
            .enumerate()
            .map(|(i, n)| GithubAsset { name: n.to_string(), browser_download_url: format!("url{}", i) })
            .collect(),
    }
}

#[test]
fn a_newer_release_with_the_program_is_announced() {
    let mut s = init_state();
    check_for_updates(&mut s, &release("vv2.5.0", &["other.zip", "nztool_oar.exe", "nztool_oar.exe"]));
    assert!(s.has_update);
    assert_eq!(s.new_version, "vv2.5.0");
    assert_eq!(s.download_url, "url1");
    assert_eq!(s.status, "New version vv2.5.0 is available!");
    assert_eq!(s.body, Some("notes".to_string()));
    assert!(!s.skipped);
    assert!(!s.in_progress);
}

#[test]
fn other_releases_change_nothing() {
    let mut s = init_state();
    check_for_updates(&mut s, &release("v2.4.1", &["nztool_oar.exe"]));
    assert!(!s.has_update);
    assert_eq!(s.status, "");
    check_for_updates(&mut s, &release("v9.0", &["nztool.exe"]));
    assert!(!s.has_update);
    assert_eq!(s.download_url, "");
    assert_eq!(s.body, None);
}

#[test]
fn installing_reports_progress_and_failures() {
    let mut s = init_state();
    s.download_url = "https://example/x.exe".to_string();
    let url = start_update(&mut s);
    assert_eq!(url, "https://example/x.exe");
    assert!(s.in_progress);
    assert_eq!(s.status, "Downloading update...");
    s.fail(UpdateStep::Download, "timeout");
    assert!(!s.in_progress);
    assert_eq!(s.status, "Download failed: timeout");
    s.fail(UpdateStep::Read, "e");
    assert_eq!(s.status, "Failed to read data: e");
    s.fail(UpdateStep::ExePath, "e");
    assert_eq!(s.status, "Failed to get current exe path: e");
    s.fail(UpdateStep::Rename, "e");
    assert_eq!(s.status, "Failed to rename current exe: e");
    s.fail(UpdateStep::Write, "e");
    assert_eq!(s.status, "Failed to write new exe: e");
}

#[test]
fn newer_is_an_order_on_examples() {
    let versions = ["1", "1.0.1", "1.2", "2.4.1", "2.4.10", "2.10", "10.0", "x.1"];
    for a in versions {
        assert!(!is_version_newer(a, a));
        for b in versions {
            if is_version_newer(a, b) {
                assert!(!is_version_newer(b, a), "{} {}", a, b);
            }
            for c in versions {
                if is_version_newer(a, b) && is_version_newer(b, c) {
                    assert!(is_version_newer(a, c), "{} {} {}", a, b, c);
                }
            }
        }
    }
}
