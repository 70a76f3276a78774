use stream_relay::updater::{
    body_excerpt, connectivity_failure, connectivity_report, get_update_target, summarize_invalid,
    summarize_valid, update_endpoint_url, UpdateGate, UpdateReadyInfo,
};

#[test]
fn update_targets_by_platform() {
    assert_eq!(get_update_target("macos", "aarch64"), "darwin-aarch64");
    assert_eq!(get_update_target("macos", "x86_64"), "darwin-x86_64");
    assert_eq!(get_update_target("windows", "x86_64"), "windows-x86_64");
    assert_eq!(get_update_target("windows", "aarch64"), "windows-aarch64");
    assert_eq!(get_update_target("linux", "x86_64"), "unknown");
    assert_eq!(get_update_target("macos", "riscv64"), "unknown");
    assert_eq!(get_update_target("", ""), "unknown");
}

#[test]
fn the_update_file_lies_under_the_target() {
    assert_eq!(
        update_endpoint_url("darwin-aarch64"),
        "https://download.myagents.io/update/darwin-aarch64.json"
    );
}

#[test]
fn one_update_run_at_a_time() {
    let mut gate = UpdateGate::new();
    assert!(!gate.is_busy());
    assert!(gate.try_begin());
    assert!(gate.is_busy());
    assert!(!gate.try_begin());
    assert!(gate.is_busy());
    gate.finish();
    assert!(!gate.is_busy());
    assert!(gate.try_begin());
    let info = UpdateReadyInfo { version: "1.2.3".to_string() };
    assert_eq!(info.clone().version, "1.2.3");
}

#[test]
fn an_excerpt_is_the_first_eight_hundred_scalar_values() {
    assert_eq!(body_excerpt(""), "");
    assert_eq!(body_excerpt("short"), "short");
    let exact = "é".repeat(800);
    assert_eq!(body_excerpt(&exact), exact);
    let long = format!("{}tail", exact);
    assert_eq!(body_excerpt(&long), exact);
}

#[test]
fn a_failed_connectivity_request_names_its_classes() {
    assert_eq!(
        connectivity_failure("dns error", true, false, false),
        "HTTP request failed: dns error (is_connect: true, is_timeout: false, is_request: false)"
    );
    assert_eq!(
        connectivity_failure("", false, true, true),
        "HTTP request failed:  (is_connect: false, is_timeout: true, is_request: true)"
    );
}

#[test]
fn validation_summaries() {
    assert_eq!(
        summarize_valid("1.2.3", "https://x/y.tar.gz", 344),
        "✓ JSON valid!\n  version: 1.2.3\n  url: https://x/y.tar.gz\n  signature length: 344 chars"
    );
    assert_eq!(
        summarize_invalid("missing field `url`"),
        "✗ JSON parse error: missing field `url`"
    );
}

#[test]
fn the_connectivity_report_lists_what_came_back() {
    let report = connectivity_report(
        "https://download.myagents.io/update/unknown.json",
        "unknown",
        "404 Not Found",
        "Some(\"text/html\")",
        9,
        "✗ JSON parse error: expected value",
        "not found",
    );
    assert_eq!(
        report,
        "=== Update Connectivity Test ===\n\
         URL: https://download.myagents.io/update/unknown.json\n\
         Target: unknown\n\
         Status: 404 Not Found\n\
         Content-Type: Some(\"text/html\")\n\
         Body length: 9 bytes\n\
         \n\
         === JSON Validation ===\n\
         ✗ JSON parse error: expected value\n\
         \n\
         === Raw Body ===\n\
         not found"
    );
    let long = "x".repeat(1000);
    let cut = connectivity_report("u", "t", "200 OK", "None", 1000, "v", &long);
    assert!(cut.ends_with(&format!("=== Raw Body ===\n{}", "x".repeat(800))));
    assert!(cut.contains("Body length: 1000 bytes"));
}
