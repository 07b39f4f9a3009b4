use account_switch::process::{
    any_target_running, get_path_from_running_process, is_antigravity_running, is_target_executable,
    is_target_process, path_from_processes, Platform, ProcessInfo,
};
use account_switch::text::same_text;

fn process(pid: u32, name: &str, exe: Option<&str>) -> ProcessInfo {
    ProcessInfo {
        pid,
        name: name.to_string(),
        exe_text: exe.map(|e| e.to_string()),
        exe_path: exe.map(|e| e.to_string()),
    }
}

#[test]
fn same_text_compares_whole_texts() {
    assert!(same_text("code", "code"));
    assert!(!same_text("code", "codes"));
    assert!(!same_text("", "x"));
    assert!(same_text("", ""));
}

#[test]
fn windows_matches_the_exact_process_name_only() {
    assert!(is_target_process(Platform::Windows, "antigravity.exe", ""));
    assert!(!is_target_process(Platform::Windows, "esbuild.exe", "c:\\programs\\antigravity\\esbuild.exe"));
    assert!(!is_target_process(Platform::Windows, "antigravity", "c:\\antigravity.exe"));
}

#[test]
fn macos_matches_the_bundle_in_the_path() {
    assert!(is_target_process(Platform::MacOs, "electron", "/applications/antigravity.app/contents/macos/electron"));
    assert!(!is_target_process(Platform::MacOs, "antigravity", "/usr/local/bin/antigravity"));
    assert!(!is_target_process(Platform::MacOs, "x", ""));
}

#[test]
fn linux_matches_name_or_path() {
    assert!(is_target_process(Platform::Linux, "antigravity", ""));
    assert!(is_target_process(Platform::Linux, "helper", "/opt/antigravity/helper"));
    assert!(!is_target_process(Platform::Linux, "antigravity-helper", "/usr/bin/helper"));
    assert!(!is_target_process(Platform::Linux, "bash", "/bin/bash"));
}

#[test]
fn linux_executable_match_is_looser_on_the_name() {
    assert!(is_target_executable(Platform::Linux, "antigravity-helper", "/usr/bin/helper"));
    assert!(is_target_executable(Platform::Linux, "x", "/opt/antigravity/x"));
    assert!(!is_target_executable(Platform::Linux, "bash", "/bin/bash"));
    assert!(is_target_executable(Platform::Windows, "antigravity.exe", ""));
    assert!(!is_target_executable(Platform::Windows, "other.exe", "c:\\antigravity\\other.exe"));
    assert!(is_target_executable(Platform::MacOs, "x", "/a/antigravity.app/x"));
}

#[test]
fn running_check_lowers_names_first() {
    let list = vec![process(10, "bash", Some("/bin/bash")), process(11, "Antigravity.EXE", None)];
    assert!(any_target_running(Platform::Windows, &list, 1));
    let list = vec![process(10, "Electron", Some("/Applications/Antigravity.app/Contents/MacOS/Electron"))];
    assert!(any_target_running(Platform::MacOs, &list, 1));
    assert!(!any_target_running(Platform::Windows, &list, 1));
}

#[test]
fn running_check_skips_the_current_process() {
    let list = vec![process(42, "antigravity", Some("/usr/bin/antigravity"))];
    assert!(!any_target_running(Platform::Linux, &list, 42));
    assert!(any_target_running(Platform::Linux, &list, 43));
    assert!(!any_target_running(Platform::Linux, &Vec::new(), 43));
}

#[test]
fn path_comes_from_the_first_matching_process_with_an_executable() {
    let list = vec![
        process(1, "bash", Some("/bin/bash")),
        process(2, "antigravity", None),
        process(3, "Antigravity", Some("/home/u/tools/Antigravity/antigravity")),
        process(4, "antigravity", Some("/usr/bin/antigravity")),
    ];
    assert_eq!(
        path_from_processes(Platform::Linux, &list),
        Some("/home/u/tools/Antigravity/antigravity".to_string())
    );
    assert_eq!(path_from_processes(Platform::Windows, &list), None);
    assert_eq!(path_from_processes(Platform::Linux, &Vec::new()), None);
}

#[test]
fn live_look_agrees_with_itself() {
    let me: u32 = u32::MAX;
    let running = is_antigravity_running(Platform::Windows, me);
    assert!(running == true || running == false);
    let path = get_path_from_running_process(Platform::Windows);
    if let Some(p) = path {
        assert!(!p.is_empty());
    }
}

#[test]
fn process_without_readable_path_is_matched_on_the_empty_text() {
    let odd = ProcessInfo {
        pid: 7,
        name: "helper".to_string(),
        exe_text: None,
        exe_path: Some("/opt/antigravity/\u{fffd}/helper".to_string()),
    };
    assert!(!any_target_running(Platform::Linux, &vec![odd.clone()], 1));
    assert_eq!(path_from_processes(Platform::Linux, &vec![odd.clone()]), None);
    let named = ProcessInfo { name: "Antigravity".to_string(), ..odd };
    assert!(any_target_running(Platform::Linux, &vec![named.clone()], 1));
    assert_eq!(
        path_from_processes(Platform::Linux, &vec![named]),
        Some("/opt/antigravity/\u{fffd}/helper".to_string())
    );
}
