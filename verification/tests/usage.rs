use codex_usage_taskbar_monitor::clock::UnixTime;
use codex_usage_taskbar_monitor::usage::{
    account_header, after_first_fetch, assign_usage_windows, bearer_header, credential_watch_snapshot,
    app_is_past_reset, credentials_for_request, is_past_reset, is_past_reset_at, refresh_command, request_error,
    reset_time_from_api, should_poll_on_timer, usable_credentials, AuthFileMetadata, CodexTokenData,
    FirstFetch, PollError, UsageDisplayMode,
};

#[derive(Clone, Debug, PartialEq)]
struct Window {
    used_percent: f64,
    reset_at: i64,
}

fn window(used_percent: f64, reset_at: i64) -> Window {
    Window { used_percent, reset_at }
}

#[test]
fn poller_maps_codex_rate_limit_windows() {
    let data = assign_usage_windows(Some(window(42.0, 100)), Some(window(64.0, 200)));
    assert_eq!(data.session.unwrap().used_percent, 42.0);
    assert_eq!(data.weekly.unwrap().used_percent, 64.0);
}

#[test]
fn api_maps_codex_rate_limit_windows() {
    let data = assign_usage_windows(Some(window(42.0, 100)), Some(window(64.0, 200)));
    assert_eq!(data.session.unwrap().used_percent, 42.0);
    assert_eq!(data.weekly.unwrap().used_percent, 64.0);
}

#[test]
fn maps_a_lone_primary_window_to_the_7_day_display() {
    let data = assign_usage_windows(Some(window(64.0, 200)), None);

    assert!(data.session.is_none());
    assert_eq!(data.weekly.unwrap().used_percent, 64.0);
}

#[test]
fn lone_secondary_and_missing_windows() {
    let data = assign_usage_windows(None, Some(window(12.0, 5)));
    assert!(data.session.is_none());
    assert_eq!(data.weekly.unwrap().reset_at, 5);
    let none = assign_usage_windows::<Window>(None, None);
    assert!(none.session.is_none() && none.weekly.is_none());
}

#[test]
fn reset_times() {
    assert_eq!(reset_time_from_api(200), Some(200));
    assert_eq!(reset_time_from_api(0), Some(0));
    assert_eq!(reset_time_from_api(-1), None);
    let now = UnixTime { secs: 1_000, nanos: 1 };
    assert!(is_past_reset_at(Some(1_000), None, now));
    assert!(!is_past_reset_at(Some(1_001), Some(2_000), now));
    assert!(is_past_reset_at(None, Some(999), now));
    assert!(!is_past_reset_at(None, None, now));
    assert!(!is_past_reset(None, None));
    assert!(is_past_reset(Some(0), None));
    assert!(!is_past_reset(Some(u64::MAX), Some(u64::MAX)));
}

#[test]
fn poll_errors_and_flow() {
    assert_eq!(request_error(Some(401)), PollError::AuthRequired);
    assert_eq!(request_error(Some(403)), PollError::AuthRequired);
    assert_eq!(request_error(Some(500)), PollError::RequestFailed);
    assert_eq!(request_error(None), PollError::RequestFailed);
    assert_eq!(after_first_fetch::<u8>(Err(PollError::AuthRequired)), FirstFetch::RefreshAndRetry);
    assert_eq!(after_first_fetch::<u8>(Ok(3)), FirstFetch::Finished(Ok(3)));
    assert_eq!(
        after_first_fetch::<u8>(Err(PollError::RequestFailed)),
        FirstFetch::Finished(Err(PollError::RequestFailed))
    );
    let creds = CodexTokenData { access_token: "t".to_string(), account_id: None };
    assert_eq!(credentials_for_request(None, false), Err(PollError::NoCredentials));
    assert_eq!(credentials_for_request(None, true), Err(PollError::TokenExpired));
    assert_eq!(credentials_for_request(Some(creds.clone()), true), Ok(creds.clone()));
    assert_eq!(usable_credentials(Some(creds.clone())), Some(creds));
    assert_eq!(
        usable_credentials(Some(CodexTokenData { access_token: String::new(), account_id: None })),
        None
    );
    assert_eq!(usable_credentials(None), None);
}

#[test]
fn request_headers() {
    assert_eq!(bearer_header("abc"), "Bearer abc");
    assert_eq!(account_header(Some("acct")), Some("acct"));
    assert_eq!(account_header(Some("")), None);
    assert_eq!(account_header(None), None);
    assert_eq!(UsageDisplayMode::default(), UsageDisplayMode::Used);
}

#[test]
fn token_refresh_commands() {
    let cmd = refresh_command("codex.CMD");
    assert_eq!(cmd.program, "cmd.exe");
    assert_eq!(cmd.args, vec!["/c", "codex.CMD", "exec", "."]);
    let ps = refresh_command("codex.ps1");
    assert_eq!(ps.program, "powershell.exe");
    assert_eq!(
        ps.args,
        vec!["-NoProfile", "-ExecutionPolicy", "Bypass", "-File", "codex.ps1", "exec", "."]
    );
    let exe = refresh_command("codex");
    assert_eq!(exe.program, "codex");
    assert_eq!(exe.args, vec!["exec", "."]);
}

#[test]
fn credential_snapshots() {
    assert_eq!(credential_watch_snapshot(None, None), "codex-auth|unavailable");
    assert_eq!(credential_watch_snapshot(Some("C:\\a\\auth.json"), None), "C:\\a\\auth.json|missing");
    let meta = AuthFileMetadata { len: 1234, modified: "Some(t)".to_string() };
    assert_eq!(
        credential_watch_snapshot(Some("C:\\a\\auth.json"), Some(&meta)),
        "C:\\a\\auth.json|present|1234|Some(t)"
    );
    assert!(should_poll_on_timer(false, "a", "a"));
    assert!(!should_poll_on_timer(true, "a", "a"));
    assert!(should_poll_on_timer(true, "a", "b"));
}

#[test]
fn app_usage_reset_check_uses_the_clock() {
    assert!(!app_is_past_reset(None, None));
    assert!(app_is_past_reset(Some(0), None));
    assert!(!app_is_past_reset(None, Some(u64::MAX)));
    assert_eq!(app_is_past_reset(Some(1), Some(u64::MAX)), is_past_reset(Some(1), Some(u64::MAX)));
}

#[test]
fn snapshot_notices_presence_length_and_time_changes() {
    let path = Some("C:\\Users\\me\\.codex\\auth.json");
    let meta = |len: u64, modified: &str| AuthFileMetadata { len, modified: modified.to_string() };
    let base = credential_watch_snapshot(path, Some(&meta(12, "Some(1)")));
    assert_eq!(base, credential_watch_snapshot(path, Some(&meta(12, "Some(1)"))));
    assert_ne!(base, credential_watch_snapshot(path, None));
    assert_ne!(base, credential_watch_snapshot(path, Some(&meta(13, "Some(1)"))));
    assert_ne!(base, credential_watch_snapshot(path, Some(&meta(12, "Some(2)"))));
    assert_ne!(
        credential_watch_snapshot(path, Some(&meta(1, "2|x"))),
        credential_watch_snapshot(path, Some(&meta(12, "x")))
    );
}
