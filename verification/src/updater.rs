//! What the background updater decides: the platform's update target, where
//! its update file lies, and that only one check runs at a time.

use crate::text::{decimal, decimal_string, from_chars, same_text, slice, to_chars};
use vstd::prelude::*;
use vstd::string::StringExecFns;

verus! {

/// What the front-end is told when an update has been downloaded.
#[derive(Debug, Clone, PartialEq, Eq)]
pub struct UpdateReadyInfo {
    pub version: String,
}

/// The update target of a platform: its system and its processor, for the
/// platforms that updates are built for, else `unknown`.
pub open spec fn update_target(os: Seq<char>, arch: Seq<char>) -> Seq<char> {
    if os == "macos"@ && arch == "aarch64"@ {
        "darwin-aarch64"@
    } else if os == "macos"@ && arch == "x86_64"@ {
        "darwin-x86_64"@
    } else if os == "windows"@ && arch == "x86_64"@ {
        "windows-x86_64"@
    } else if os == "windows"@ && arch == "aarch64"@ {
        "windows-aarch64"@
    } else {
        "unknown"@
    }
}

/// Names the update target of the platform whose system is `os` and whose
/// processor is `arch`, as the standard library names them.
pub fn get_update_target(os: &str, arch: &str) -> (target: &'static str)
    ensures
        target@ == update_target(os@, arch@),
{
    let mac = same_text(os, "macos");
    let windows = same_text(os, "windows");
    let arm = same_text(arch, "aarch64");
    let intel = same_text(arch, "x86_64");
    if mac && arm {
        "darwin-aarch64"
    } else if mac && intel {
        "darwin-x86_64"
    } else if windows && intel {
        "windows-x86_64"
    } else if windows && arm {
        "windows-aarch64"
    } else {
        "unknown"
    }
}

/// Where the update file of `target` lies.
pub open spec fn update_endpoint(target: Seq<char>) -> Seq<char> {
    "https://download.myagents.io/update/"@ + target + ".json"@
}

/// Names the place of the update file of `target`.
pub fn update_endpoint_url(target: &str) -> (url: String)
    ensures
        url@ == update_endpoint(target@),
{
    let mut url = String::from_str("https://download.myagents.io/update/");
    url.append(target);
    url.append(".json");
    url
}

/// Lets one update check run at a time.
pub struct UpdateGate {
    in_progress: bool,
}

impl UpdateGate {
    /// Whether a check is running.
    pub closed spec fn busy(&self) -> bool {
        self.in_progress
    }

    /// A gate that nothing has passed.
    pub fn new() -> (g: UpdateGate)
        ensures
            !g.busy(),
    {
        UpdateGate { in_progress: false }
    }

    /// Asks to run a check. Granted where none is running; from then on one
    /// is.
    pub fn try_begin(&mut self) -> (granted: bool)
        ensures
            granted == !old(self).busy(),
            final(self).busy(),
    {
        let granted = !self.in_progress;
        self.in_progress = true;
        granted
    }

    /// The check has ended, however it went.
    pub fn finish(&mut self)
        ensures
            !final(self).busy(),
    {
        self.in_progress = false;
    }

    /// Whether a check is running.
    pub fn is_busy(&self) -> (r: bool)
        ensures
            r == self.busy(),
    {
        self.in_progress
    }
}

/// How much of a response body the connectivity report shows.
pub const EXCERPT_LIMIT: usize = 800;

/// The part of `body` that the connectivity report shows: its first scalar
/// values, up to the limit.
pub open spec fn excerpt_of(body: Seq<char>) -> Seq<char> {
    if body.len() > EXCERPT_LIMIT {
        body.take(EXCERPT_LIMIT as int)
    } else {
        body
    }
}

/// Cuts `body` down to what the connectivity report shows.
pub fn body_excerpt(body: &str) -> (r: String)
    ensures
        r@ == excerpt_of(body@),
{
    let chars = to_chars(body);
    if chars.len() > EXCERPT_LIMIT {
        from_chars(&slice(&chars, 0, EXCERPT_LIMIT))
    } else {
        from_chars(&chars)
    }
}

/// `b` in words.
pub open spec fn bool_text(b: bool) -> Seq<char> {
    if b {
        "true"@
    } else {
        "false"@
    }
}

/// What the connectivity test says of a request that failed.
pub open spec fn connectivity_failure_text(
    error: Seq<char>,
    is_connect: bool,
    is_timeout: bool,
    is_request: bool,
) -> Seq<char> {
    "HTTP request failed: "@ + error + " (is_connect: "@ + bool_text(is_connect)
        + ", is_timeout: "@ + bool_text(is_timeout) + ", is_request: "@ + bool_text(is_request)
        + ")"@
}

/// Words the failure of the connectivity test's request.
pub fn connectivity_failure(error: &str, is_connect: bool, is_timeout: bool, is_request: bool) -> (r:
    String)
    ensures
        r@ == connectivity_failure_text(error@, is_connect, is_timeout, is_request),
{
    let mut r = String::from_str("HTTP request failed: ");
    r.append(error);
    r.append(" (is_connect: ");
    r.append(if is_connect { "true" } else { "false" });
    r.append(", is_timeout: ");
    r.append(if is_timeout { "true" } else { "false" });
    r.append(", is_request: ");
    r.append(if is_request { "true" } else { "false" });
    r.append(")");
    r
}

/// What the report says of an update file that parsed.
pub open spec fn valid_summary(version: Seq<char>, url: Seq<char>, signature_len: nat) -> Seq<
    char,
> {
    "\u{2713} JSON valid!\n  version: "@ + version + "\n  url: "@ + url
        + "\n  signature length: "@ + decimal(signature_len) + " chars"@
}

/// Sums up an update file that parsed.
pub fn summarize_valid(version: &str, url: &str, signature_len: usize) -> (r: String)
    ensures
        r@ == valid_summary(version@, url@, signature_len as nat),
{
    let mut r = String::from_str("\u{2713} JSON valid!\n  version: ");
    r.append(version);
    r.append("\n  url: ");
    r.append(url);
    r.append("\n  signature length: ");
    let n = decimal_string(signature_len as u64);
    r.append(n.as_str());
    r.append(" chars");
    r
}

/// What the report says of an update file that did not parse.
pub open spec fn invalid_summary(error: Seq<char>) -> Seq<char> {
    "\u{2717} JSON parse error: "@ + error
}

/// Sums up an update file that did not parse.
pub fn summarize_invalid(error: &str) -> (r: String)
    ensures
        r@ == invalid_summary(error@),
{
    let mut r = String::from_str("\u{2717} JSON parse error: ");
    r.append(error);
    r
}

/// The report of the connectivity test: where it asked, what came back, what
/// the validation found, and the start of the body.
pub open spec fn connectivity_report_text(
    url: Seq<char>,
    target: Seq<char>,
    status: Seq<char>,
    content_type: Seq<char>,
    body_bytes: nat,
    validation: Seq<char>,
    body: Seq<char>,
) -> Seq<char> {
    "=== Update Connectivity Test ===\nURL: "@ + url + "\nTarget: "@ + target + "\nStatus: "@
        + status + "\nContent-Type: "@ + content_type + "\nBody length: "@ + decimal(body_bytes)
        + " bytes\n\n=== JSON Validation ===\n"@ + validation + "\n\n=== Raw Body ===\n"@
        + excerpt_of(body)
}

/// Writes the report of the connectivity test.
pub fn connectivity_report(
    url: &str,
    target: &str,
    status: &str,
    content_type: &str,
    body_bytes: usize,
    validation: &str,
    body: &str,
) -> (r: String)
    ensures
        r@ == connectivity_report_text(
            url@,
            target@,
            status@,
            content_type@,
            body_bytes as nat,
            validation@,
            body@,
        ),
{
    let mut r = String::from_str("=== Update Connectivity Test ===\nURL: ");
    r.append(url);
    r.append("\nTarget: ");
    r.append(target);
    r.append("\nStatus: ");
    r.append(status);
    r.append("\nContent-Type: ");
    r.append(content_type);
    r.append("\nBody length: ");
    let n = decimal_string(body_bytes as u64);
    r.append(n.as_str());
    r.append(" bytes\n\n=== JSON Validation ===\n");
    r.append(validation);
    r.append("\n\n=== Raw Body ===\n");
    let shown = body_excerpt(body);
    r.append(shown.as_str());
    r
}

} // verus!
