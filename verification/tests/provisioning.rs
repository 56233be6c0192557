use ytdlp_provision::error::ToolError;
use ytdlp_provision::locate::{candidate_path, locate};
use ytdlp_provision::paths::{join_path, parent_dir};
use ytdlp_provision::platform::Platform;
use ytdlp_provision::provision::{acquire_plan, acquire_success_message};

#[test]
fn parent_dir_takes_everything_before_last_separator() {
    assert_eq!(parent_dir("/usr/local/bin/app"), Some("/usr/local/bin"));
    assert_eq!(parent_dir("a/b"), Some("a"));
    assert_eq!(parent_dir("C:\\apps\\host.exe"), Some("C:\\apps"));
    assert_eq!(parent_dir("mixed/dir\\leaf"), Some("mixed/dir"));
}

#[test]
fn parent_dir_absent_without_separator() {
    assert_eq!(parent_dir("host"), None);
    assert_eq!(parent_dir(""), None);
}

#[test]
fn join_path_uses_platform_separator() {
    assert_eq!(join_path("/opt/app", Platform::Linux, "yt-dlp"), "/opt/app/yt-dlp");
    assert_eq!(
        join_path("C:\\apps", Platform::Windows, "yt-dlp.exe"),
        "C:\\apps\\yt-dlp.exe"
    );
}

#[test]
fn acquire_plan_linux() {
    let plan = acquire_plan(Platform::Linux, "/opt/app/host").unwrap();
    assert_eq!(plan.filename, "yt-dlp");
    assert_eq!(
        plan.source_url,
        "https://github.com/yt-dlp/yt-dlp/releases/latest/download/yt-dlp"
    );
    assert_eq!(plan.dest_path, "/opt/app/yt-dlp");
    assert!(plan.set_posix_mode);
    assert_eq!(plan.posix_mode, 0o755);
}

#[test]
fn acquire_plan_macos_sets_posix_mode() {
    let plan = acquire_plan(Platform::MacOs, "/Applications/Host.app/Contents/MacOS/host").unwrap();
    assert_eq!(plan.filename, "yt-dlp");
    assert_eq!(plan.dest_path, "/Applications/Host.app/Contents/MacOS/yt-dlp");
    assert!(plan.set_posix_mode);
    assert_eq!(plan.posix_mode, 0o755);
}

#[test]
fn acquire_plan_windows_skips_permission_step() {
    let plan = acquire_plan(Platform::Windows, "C:\\apps\\host.exe").unwrap();
    assert_eq!(plan.filename, "yt-dlp.exe");
    assert_eq!(plan.dest_path, "C:\\apps\\yt-dlp.exe");
    assert!(!plan.set_posix_mode);
}

#[test]
fn acquire_plan_unsupported_platform() {
    let e = acquire_plan(Platform::Unsupported, "/opt/app/host").unwrap_err();
    assert_eq!(e, ToolError::UnsupportedPlatform);
}

#[test]
fn acquire_plan_path_without_parent() {
    let e = acquire_plan(Platform::Linux, "host").unwrap_err();
    assert_eq!(e, ToolError::DirectoryResolutionError);
    assert_eq!(e.message(), "Cannot determine current directory");
}

#[test]
fn acquire_success_message_names_file_and_destination() {
    let plan = acquire_plan(Platform::Linux, "/opt/app/host").unwrap();
    assert_eq!(
        acquire_success_message(&plan),
        "Successfully downloaded yt-dlp to /opt/app/yt-dlp"
    );
}

#[test]
fn locate_absent_before_acquisition() {
    assert_eq!(locate(Platform::Linux, "/opt/app/host", false), None);
}

#[test]
fn locate_round_trips_with_acquire() {
    let plan = acquire_plan(Platform::Linux, "/opt/app/host").unwrap();
    let found = locate(Platform::Linux, "/opt/app/host", true).unwrap();
    assert_eq!(found, plan.dest_path);
}

#[test]
fn candidate_path_matches_acquire_destination() {
    let plan = acquire_plan(Platform::Windows, "C:\\apps\\host.exe").unwrap();
    assert_eq!(
        candidate_path(Platform::Windows, "C:\\apps\\host.exe"),
        Some(plan.dest_path)
    );
}

#[test]
fn candidate_path_absorbs_internal_failures() {
    assert_eq!(candidate_path(Platform::Unsupported, "/opt/app/host"), None);
    assert_eq!(candidate_path(Platform::Linux, "host"), None);
}
