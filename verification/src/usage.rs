//! Codex usage polling decisions: the display mode, the poll errors, which
//! rate-limit window is shown where, reset checks, request headers, the
//! token-refresh command and the credential-watch snapshot.

use vstd::prelude::*;
use crate::clock::{UnixTime, now_unix_time};
use crate::text::{
    ascii_lowercase, chars_vec, decimal, ends_with, ends_with_exec, is_ascii_digit, lemma_decimal_digits,
    lemma_decimal_injective, lemma_digits_then_separator, lowercase_chars, push_decimal,
};

verus! {

/// Whether percentages show consumed or still-available usage.
#[derive(Clone, Copy, Debug, PartialEq, Eq)]
pub enum UsageDisplayMode {
    Used,
    Remaining,
}

impl Default for UsageDisplayMode {
    fn default() -> (mode: Self)
        ensures
            mode == UsageDisplayMode::Used,
    {
        UsageDisplayMode::Used
    }
}

/// Why a usage poll produced no data.
#[derive(Clone, Copy, Debug, PartialEq, Eq)]
pub enum PollError {
    AuthRequired,
    NoCredentials,
    TokenExpired,
    RequestFailed,
}

/// The usage windows to display: the 5-hour `session` window and the 7-day
/// `weekly` window.
#[derive(Clone, Debug, PartialEq)]
pub struct UsageWindows<W> {
    pub session: Option<W>,
    pub weekly: Option<W>,
}

/// Places the rate-limit windows of a usage response: with both present the
/// primary is the 5-hour window and the secondary the 7-day window; a lone
/// window of either kind is the 7-day window.
pub fn assign_usage_windows<W>(primary: Option<W>, secondary: Option<W>) -> (windows: UsageWindows<W>)
    ensures
        match (primary, secondary) {
            (Some(p), Some(s)) => windows.session == Some(p) && windows.weekly == Some(s),
            (Some(p), None) => windows.session is None && windows.weekly == Some(p),
            (None, Some(s)) => windows.session is None && windows.weekly == Some(s),
            (None, None) => windows.session is None && windows.weekly is None,
        },
{
    match (primary, secondary) {
        (Some(p), Some(s)) => UsageWindows { session: Some(p), weekly: Some(s) },
        (Some(p), None) => UsageWindows { session: None, weekly: Some(p) },
        (None, Some(s)) => UsageWindows { session: None, weekly: Some(s) },
        (None, None) => UsageWindows { session: None, weekly: None },
    }
}

/// The reset time of a window reported as signed Unix seconds; negative
/// values carry no reset time.
pub fn reset_time_from_api(reset_at: i64) -> (reset: Option<u64>)
    ensures
        reset_at >= 0 ==> reset == Some(reset_at as u64),
        reset_at < 0 ==> reset is None,
{
    if reset_at >= 0 {
        Some(reset_at as u64)
    } else {
        None
    }
}

/// Whether some reset time has been reached at `now`.
pub open spec fn past_reset_at_spec(session_reset: Option<u64>, weekly_reset: Option<u64>, now: UnixTime) -> bool {
    (session_reset is Some && now.secs >= session_reset->0) || (weekly_reset is Some && now.secs
        >= weekly_reset->0)
}

/// Whether either window's reset time has been reached at `now`.
pub fn is_past_reset_at(session_reset: Option<u64>, weekly_reset: Option<u64>, now: UnixTime) -> (past: bool)
    ensures
        past == past_reset_at_spec(session_reset, weekly_reset, now),
{
    let session_past = match session_reset {
        Some(reset) => now.secs >= reset,
        None => false,
    };
    let weekly_past = match weekly_reset {
        Some(reset) => now.secs >= reset,
        None => false,
    };
    session_past || weekly_past
}

/// Whether either window's reset time has been reached, by the system clock.
pub fn is_past_reset(session_reset: Option<u64>, weekly_reset: Option<u64>) -> (past: bool)
    ensures
        exists|now: UnixTime| now.wf() && past == past_reset_at_spec(session_reset, weekly_reset, now),
        session_reset is None && weekly_reset is None ==> !past,
{
    let now = now_unix_time();
    is_past_reset_at(session_reset, weekly_reset, now)
}

/// Whether a reset time of the widget's usage data has passed; the same test
/// as `is_past_reset`.
pub fn app_is_past_reset(session_reset: Option<u64>, weekly_reset: Option<u64>) -> (past: bool)
    ensures
        exists|now: UnixTime| now.wf() && past == past_reset_at_spec(session_reset, weekly_reset, now),
        session_reset is None && weekly_reset is None ==> !past,
{
    is_past_reset(session_reset, weekly_reset)
}

/// The poll error for a failed usage request: `status` is the HTTP status
/// when the server answered, `None` when the request failed in transport.
pub fn request_error(status: Option<u16>) -> (error: PollError)
    ensures
        error == (if status == Some(401u16) || status == Some(403u16) {
            PollError::AuthRequired
        } else {
            PollError::RequestFailed
        }),
{
    match status {
        Some(code) => if code == 401 || code == 403 {
            PollError::AuthRequired
        } else {
            PollError::RequestFailed
        },
        None => PollError::RequestFailed,
    }
}

/// The `Authorization` header value for an access token.
pub fn bearer_header(token: &str) -> (value: String)
    ensures
        value@ == "Bearer "@ + token@,
{
    let mut value = String::from_str("Bearer ");
    value.append(token);
    value
}

/// The account id to send in `ChatGPT-Account-Id`: present and non-empty only.
pub fn account_header(account_id: Option<&str>) -> (value: Option<&str>)
    ensures
        match account_id {
            Some(id) => if id@.len() > 0 { value == Some(id) } else { value is None },
            None => value is None,
        },
{
    match account_id {
        Some(id) => if id.is_empty() {
            None
        } else {
            Some(id)
        },
        None => None,
    }
}

/// The sign-in tokens read from the Codex `auth.json`.
#[derive(Clone, Debug, PartialEq, Eq)]
pub struct CodexTokenData {
    pub access_token: String,
    pub account_id: Option<String>,
}

/// The tokens, when they hold a non-empty access token.
pub fn usable_credentials(tokens: Option<CodexTokenData>) -> (creds: Option<CodexTokenData>)
    ensures
        match tokens {
            Some(t) => if t.access_token@.len() > 0 { creds == Some(t) } else { creds is None },
            None => creds is None,
        },
{
    match tokens {
        Some(t) => if t.access_token.as_str().is_empty() {
            None
        } else {
            Some(t)
        },
        None => None,
    }
}

/// What to do after the first usage request of a poll.
#[derive(Debug, PartialEq)]
pub enum FirstFetch<T> {
    /// The poll ends with this outcome.
    Finished(Result<T, PollError>),
    /// The token was rejected: refresh it through the Codex CLI, read the
    /// credentials again and repeat the request.
    RefreshAndRetry,
}

/// The next step of a poll after its first request.
pub fn after_first_fetch<T>(result: Result<T, PollError>) -> (next: FirstFetch<T>)
    ensures
        result == Err::<T, PollError>(PollError::AuthRequired) ==> next == FirstFetch::<T>::RefreshAndRetry,
        result != Err::<T, PollError>(PollError::AuthRequired) ==> next == FirstFetch::Finished(result),
{
    match result {
        Err(PollError::AuthRequired) => FirstFetch::RefreshAndRetry,
        other => FirstFetch::Finished(other),
    }
}

/// The credentials to poll with, or the error reported for their absence:
/// `NoCredentials` before the first request, `TokenExpired` after a refresh.
pub fn credentials_for_request(creds: Option<CodexTokenData>, after_refresh: bool) -> (result: Result<CodexTokenData, PollError>)
    ensures
        match creds {
            Some(c) => result == Ok::<CodexTokenData, PollError>(c),
            None => result == Err::<CodexTokenData, PollError>(
                if after_refresh { PollError::TokenExpired } else { PollError::NoCredentials },
            ),
        },
{
    match creds {
        Some(c) => Ok(c),
        None => if after_refresh {
            Err(PollError::TokenExpired)
        } else {
            Err(PollError::NoCredentials)
        },
    }
}

/// A command line that refreshes the Codex token.
#[derive(Clone, Debug, PartialEq, Eq)]
pub struct RefreshCommand {
    pub program: String,
    pub args: Vec<String>,
}

/// The views of a list of strings.
pub open spec fn string_views(v: Seq<String>) -> Seq<Seq<char>> {
    v.map_values(|s: String| s@)
}

/// How the Codex CLI at `codex_path` is run to refresh the token: `.cmd`
/// scripts through `cmd.exe /c`, `.ps1` scripts through PowerShell with the
/// execution policy bypassed, anything else directly; the CLI arguments are
/// `exec .`.
pub open spec fn refresh_command_spec(codex_path: Seq<char>) -> (Seq<char>, Seq<Seq<char>>) {
    if ends_with(ascii_lowercase(codex_path), ".cmd"@) {
        ("cmd.exe"@, seq!["/c"@, codex_path, "exec"@, "."@])
    } else if ends_with(ascii_lowercase(codex_path), ".ps1"@) {
        (
            "powershell.exe"@,
            seq!["-NoProfile"@, "-ExecutionPolicy"@, "Bypass"@, "-File"@, codex_path, "exec"@, "."@],
        )
    } else {
        (codex_path, seq!["exec"@, "."@])
    }
}

/// The token-refresh command line for the Codex CLI at `codex_path`.
pub fn refresh_command(codex_path: &str) -> (command: RefreshCommand)
    ensures
        command.program@ == refresh_command_spec(codex_path@).0,
        string_views(command.args@) == refresh_command_spec(codex_path@).1,
{
    let lower = lowercase_chars(codex_path);
    let is_cmd = ends_with_exec(&lower, &chars_vec(".cmd"));
    let is_ps1 = ends_with_exec(&lower, &chars_vec(".ps1"));
    let mut args: Vec<String> = Vec::new();
    let program = if is_cmd {
        args.push(String::from_str("/c"));
        args.push(String::from_str(codex_path));
        String::from_str("cmd.exe")
    } else if is_ps1 {
        args.push(String::from_str("-NoProfile"));
        args.push(String::from_str("-ExecutionPolicy"));
        args.push(String::from_str("Bypass"));
        args.push(String::from_str("-File"));
        args.push(String::from_str(codex_path));
        String::from_str("powershell.exe")
    } else {
        String::from_str(codex_path)
    };
    args.push(String::from_str("exec"));
    args.push(String::from_str("."));
    assert(string_views(args@) =~= refresh_command_spec(codex_path@).1);
    RefreshCommand { program, args }
}

/// Size and modification time of the Codex `auth.json`, as read from disk;
/// `modified` is the debug rendering of the optional modification time.
#[derive(Clone, Debug, PartialEq, Eq)]
pub struct AuthFileMetadata {
    pub len: u64,
    pub modified: String,
}

/// The snapshot text compared between polls to notice new credentials.
pub open spec fn credential_snapshot_spec(auth_path: Option<Seq<char>>, metadata: Option<AuthFileMetadata>) -> Seq<char> {
    match auth_path {
        None => "codex-auth|unavailable"@,
        Some(path) => match metadata {
            Some(m) => path + "|present|"@ + decimal(m.len as nat) + "|"@ + m.modified@,
            None => path + "|missing"@,
        },
    }
}

/// For one credential path, the snapshot tells a missing file from a present
/// one, and two present files apart whenever their lengths or their
/// modification texts differ, whatever those texts are.
pub proof fn lemma_snapshot_notices_changes(path: Seq<char>, before: Option<AuthFileMetadata>, after: Option<AuthFileMetadata>)
    requires
        (before is Some) != (after is Some) || (before is Some && after is Some && (before->0.len
            != after->0.len || before->0.modified@ != after->0.modified@)),
    ensures
        credential_snapshot_spec(Some(path), before) != credential_snapshot_spec(Some(path), after),
{
    reveal_strlit("|present|");
    reveal_strlit("|missing");
    reveal_strlit("|");
    let s1 = credential_snapshot_spec(Some(path), before);
    let s2 = credential_snapshot_spec(Some(path), after);
    let k = path.len() as int;
    match (before, after) {
        (Some(m1), Some(m2)) => {
            if s1 == s2 {
                lemma_decimal_digits(m1.len as nat);
                lemma_decimal_digits(m2.len as nat);
                let r1 = decimal(m1.len as nat) + seq!['|'] + m1.modified@;
                let r2 = decimal(m2.len as nat) + seq!['|'] + m2.modified@;
                assert(s1.skip(k + 9) =~= r1);
                assert(s2.skip(k + 9) =~= r2);
                assert(!is_ascii_digit('|'));
                lemma_digits_then_separator(decimal(m1.len as nat), '|', m1.modified@, decimal(m2.len as nat), '|', m2.modified@);
                lemma_decimal_injective(m1.len as nat, m2.len as nat);
            }
        },
        (Some(_), None) => {
            assert(s1[k + 1] == 'p');
            assert(s2[k + 1] == 'm');
        },
        (None, Some(_)) => {
            assert(s1[k + 1] == 'm');
            assert(s2[k + 1] == 'p');
        },
        (None, None) => {},
    }
}

/// A snapshot of the credential file for change detection: its path with
/// its size and modification time when it exists, `missing` when it does
/// not, and a fixed text when no path is known.
pub fn credential_watch_snapshot(auth_path: Option<&str>, metadata: Option<&AuthFileMetadata>) -> (snapshot: String)
    ensures
        snapshot@ == credential_snapshot_spec(
            match auth_path { Some(p) => Some(p@), None => None },
            match metadata { Some(m) => Some(*m), None => None },
        ),
{
    match auth_path {
        None => String::from_str("codex-auth|unavailable"),
        Some(path) => {
            let mut snapshot = String::from_str(path);
            match metadata {
                Some(m) => {
                    snapshot.append("|present|");
                    push_decimal(&mut snapshot, m.len);
                    snapshot.append("|");
                    snapshot.append(m.modified.as_str());
                },
                None => {
                    snapshot.append("|missing");
                },
            }
            snapshot
        },
    }
}

} // verus!
verus! {

/// Whether the poll timer starts a poll: always while polling runs; while
/// polling is paused after an authentication failure, only once the
/// credential snapshot differs from the one taken when it paused.
pub fn should_poll_on_timer(auth_paused: bool, previous_snapshot: &str, current_snapshot: &str) -> (poll: bool)
    ensures
        poll == (!auth_paused || previous_snapshot@ != current_snapshot@),
{
    !auth_paused || !crate::text::same_text(previous_snapshot, current_snapshot)
}

} // verus!
