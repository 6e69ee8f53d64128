use xcode_tools::{
    bin_candidate, find_tool, join_path, locate_tool, not_found_message, probe_tool, resolve,
    select_sdk, select_sdk_among, usr_bin_candidate, ResolveError, Sdk, XcrunConfiguration,
};

fn sdk(name: &str, path: &str) -> Sdk {
    Sdk {
        name: name.to_string(),
        path: path.to_string(),
        version: "14.0".to_string(),
        target_triple: "x86_64-apple-darwin".to_string(),
        macosx_deployment_target: "10.15".to_string(),
        ios_deployment_target: "13.0".to_string(),
    }
}

fn store(sdks: Vec<Sdk>) -> XcrunConfiguration {
    XcrunConfiguration { sdks }
}

#[test]
fn join_inserts_separator() {
    assert_eq!(join_path("/opt/sdk/macos", "bin"), "/opt/sdk/macos/bin");
}

#[test]
fn join_keeps_existing_separator() {
    assert_eq!(join_path("/opt/sdk/macos/", "bin"), "/opt/sdk/macos/bin");
}

#[test]
fn join_absolute_part_replaces_base() {
    assert_eq!(join_path("/opt/sdk/macos", "/usr/bin/clang"), "/usr/bin/clang");
}

#[test]
fn join_onto_empty_base() {
    assert_eq!(join_path("", "bin"), "bin");
}

#[test]
fn candidates_follow_conventional_layout() {
    assert_eq!(bin_candidate("/opt/sdk/macos", "clang"), "/opt/sdk/macos/bin/clang");
    assert_eq!(usr_bin_candidate("/opt/sdk/macos", "clang"), "/opt/sdk/macos/usr/bin/clang");
}

#[test]
fn hint_selects_first_sdk_of_that_name() {
    let config = store(vec![sdk("ios", "/a"), sdk("macos", "/b"), sdk("macos", "/c")]);
    let hint = Some("macos".to_string());
    assert_eq!(select_sdk_among(&config, &hint, &vec![]), Some(1));
    assert_eq!(select_sdk_among(&config, &hint, &vec![true, false, false]), Some(1));
}

#[test]
fn hint_with_no_match_selects_nothing() {
    let config = store(vec![sdk("ios", "/a")]);
    let hint = Some("macos".to_string());
    assert_eq!(select_sdk_among(&config, &hint, &vec![]), None);
}

#[test]
fn no_hint_selects_earliest_sdk_holding_tool() {
    let config = store(vec![sdk("a", "/a"), sdk("b", "/b"), sdk("c", "/c")]);
    assert_eq!(select_sdk_among(&config, &None, &vec![false, true, true]), Some(1));
    assert_eq!(select_sdk_among(&config, &None, &vec![false, false, false]), None);
}

#[test]
fn no_hint_on_empty_store_selects_nothing() {
    let config = store(vec![]);
    assert_eq!(select_sdk_among(&config, &None, &vec![]), None);
}

#[test]
fn location_prefers_bin() {
    let s = sdk("macos", "/opt/sdk/macos");
    assert_eq!(locate_tool(&s, "clang", true, true), Some("/opt/sdk/macos/bin/clang".to_string()));
    assert_eq!(locate_tool(&s, "clang", true, false), Some("/opt/sdk/macos/bin/clang".to_string()));
}

#[test]
fn location_falls_back_to_usr_bin() {
    let s = sdk("macos", "/opt/sdk/macos");
    assert_eq!(
        locate_tool(&s, "clang", false, true),
        Some("/opt/sdk/macos/usr/bin/clang".to_string())
    );
}

#[test]
fn location_fails_when_tool_absent() {
    let s = sdk("macos", "/opt/sdk/macos");
    assert_eq!(locate_tool(&s, "clang", false, false), None);
}

#[test]
fn scenario_tool_only_in_usr_bin() {
    let config = store(vec![sdk("macos", "/opt/sdk/macos")]);
    let i = select_sdk_among(&config, &None, &vec![true]).unwrap();
    let path = locate_tool(&config.sdks[i], "clang", false, true);
    assert_eq!(path, Some("/opt/sdk/macos/usr/bin/clang".to_string()));
}

#[test]
fn find_tool_on_disk_probes_bin_first() {
    let root = sdk("root", "/");
    let (path, presence) = find_tool(&root, "sh");
    assert_eq!(path, Some("/bin/sh".to_string()));
    assert_eq!(presence.bin.path(), "/bin/sh");
    assert!(presence.in_bin());
    assert!(presence.usr_bin.is_none());
}

#[test]
fn find_tool_on_disk_absent() {
    let s = sdk("none", "/nonexistent/sdk/root");
    let (path, presence) = find_tool(&s, "clang");
    assert_eq!(path, None);
    assert_eq!(presence.bin.path(), "/nonexistent/sdk/root/bin/clang");
    assert!(!presence.bin.found());
    let usr_bin = presence.usr_bin.as_ref().unwrap();
    assert_eq!(usr_bin.path(), "/nonexistent/sdk/root/usr/bin/clang");
    assert!(!usr_bin.found());
    assert!(!presence.holds_tool());
}

#[test]
fn location_depends_on_path_only() {
    let a = find_tool(&sdk("first", "/"), "sh");
    let b = find_tool(&sdk("second", "/"), "sh");
    assert_eq!(a, b);
}

#[test]
fn probe_tool_asks_usr_bin_when_bin_absent() {
    let p = probe_tool(&sdk("usr", "/usr/.."), "no-such-tool-here");
    assert_eq!(p.bin.path(), "/usr/../bin/no-such-tool-here");
    assert!(p.usr_bin.is_some());
}

#[test]
fn select_on_disk_skips_sdks_without_tool() {
    let config = store(vec![sdk("none", "/nonexistent/sdk/root"), sdk("root", "/"), sdk("later", "/")]);
    let s = select_sdk(&config, &None, "sh");
    assert_eq!(s.index, Some(1));
    assert_eq!(s.probes.len(), 2);
    assert!(!s.probes[0].holds_tool());
    assert!(s.probes[1].holds_tool());
}

#[test]
fn select_on_disk_with_hint_does_not_probe() {
    let config = store(vec![sdk("ios", "/nonexistent/a"), sdk("macos", "/nonexistent/b")]);
    let s = select_sdk(&config, &Some("macos".to_string()), "clang");
    assert_eq!(s.index, Some(1));
    assert!(s.probes.is_empty());
}

#[test]
fn select_on_disk_with_no_sdk_holding_tool() {
    let config = store(vec![sdk("a", "/nonexistent/a"), sdk("b", "/nonexistent/b")]);
    let s = select_sdk(&config, &None, "clang");
    assert_eq!(s.index, None);
    assert_eq!(s.probes.len(), 2);
}

#[test]
fn resolve_on_empty_store_fails_selection() {
    let config = store(vec![]);
    let r = resolve(&config, &None, "clang");
    assert_eq!(r.result, Err(ResolveError::SdkSelectionFailed));
    assert!(r.location.is_none());
}

#[test]
fn resolve_with_unknown_hint_fails_selection() {
    let config = store(vec![sdk("ios", "/")]);
    let hint = Some("macos".to_string());
    assert_eq!(resolve(&config, &hint, "sh").result, Err(ResolveError::SdkSelectionFailed));
}

#[test]
fn resolve_with_hint_fails_location() {
    let config = store(vec![sdk("macos", "/nonexistent/sdk/root")]);
    let hint = Some("macos".to_string());
    assert_eq!(resolve(&config, &hint, "clang").result, Err(ResolveError::ToolNotFound));
}

#[test]
fn resolve_with_hint_finds_tool() {
    let config = store(vec![sdk("other", "/"), sdk("macos", "/")]);
    let hint = Some("macos".to_string());
    let r = resolve(&config, &hint, "sh").result.unwrap();
    assert_eq!(r.sdk_index, 1);
    assert_eq!(r.executable_path, "/bin/sh");
}

#[test]
fn resolve_without_hint_reuses_selecting_answers() {
    let config = store(vec![sdk("none", "/nonexistent/sdk/root"), sdk("root", "/")]);
    let r = resolve(&config, &None, "sh");
    assert_eq!(r.location.as_ref(), r.selection.probes.last());
    let t = r.result.unwrap();
    assert_eq!(t.sdk_index, 1);
    assert_eq!(t.executable_path, "/bin/sh");
}

#[test]
fn not_found_message_names_tool() {
    assert_eq!(not_found_message("clang"), "xcrun: error: tool not found: clang");
}
