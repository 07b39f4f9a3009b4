use account_switch::locate::{
    candidate_locations, check_standard_locations, get_antigravity_executable_path,
    resolve_executable_path, standard_locations, InstallRoots,
};
use account_switch::process::Platform;

fn no_roots() -> InstallRoots {
    InstallRoots { local_appdata: None, program_files: None, program_files_x86: None }
}

#[test]
fn macos_has_one_location() {
    let list = candidate_locations(Platform::MacOs, &no_roots(), &Some("/Users/a".to_string()));
    assert_eq!(list, vec!["/Applications/Antigravity.app".to_string()]);
}

#[test]
fn windows_locations_in_order() {
    let roots = InstallRoots {
        local_appdata: Some("C:\\Users\\a\\AppData\\Local".to_string()),
        program_files: Some("D:\\PF".to_string()),
        program_files_x86: None,
    };
    let list = candidate_locations(Platform::Windows, &roots, &None);
    assert_eq!(
        list,
        vec![
            "C:\\Users\\a\\AppData\\Local\\Programs\\Antigravity\\Antigravity.exe".to_string(),
            "D:\\PF\\Antigravity\\Antigravity.exe".to_string(),
            "C:\\Program Files (x86)\\Antigravity\\Antigravity.exe".to_string(),
        ]
    );
    let list = candidate_locations(Platform::Windows, &no_roots(), &None);
    assert_eq!(
        list,
        vec![
            "C:\\Program Files\\Antigravity\\Antigravity.exe".to_string(),
            "C:\\Program Files (x86)\\Antigravity\\Antigravity.exe".to_string(),
        ]
    );
}

#[test]
fn linux_locations_put_the_user_bin_last() {
    let list = candidate_locations(Platform::Linux, &no_roots(), &Some("/home/a".to_string()));
    assert_eq!(
        list,
        vec![
            "/usr/bin/antigravity".to_string(),
            "/opt/Antigravity/antigravity".to_string(),
            "/usr/share/antigravity/antigravity".to_string(),
            "/home/a/.local/bin/antigravity".to_string(),
        ]
    );
    let list = candidate_locations(Platform::Linux, &no_roots(), &None);
    assert_eq!(list.len(), 3);
    assert_eq!(list[0], "/usr/bin/antigravity");
}

#[test]
fn standard_locations_end_with_the_system_places() {
    let list = standard_locations(Platform::Linux, &no_roots());
    assert!(list.len() == 3 || list.len() == 4);
    let n: usize = list.len();
    assert_eq!(list[0], "/usr/bin/antigravity");
    assert_eq!(list[1], "/opt/Antigravity/antigravity");
    assert_eq!(list[2], "/usr/share/antigravity/antigravity");
    if n == 4 {
        assert!(list[3].ends_with("/.local/bin/antigravity"));
    }
    let mac = standard_locations(Platform::MacOs, &no_roots());
    assert_eq!(mac, vec!["/Applications/Antigravity.app".to_string()]);
}

#[test]
fn system_location_wins_over_the_user_bin() {
    let list = candidate_locations(Platform::Linux, &no_roots(), &Some("/home/u".to_string()));
    assert_eq!(
        check_standard_locations(&list, &vec![true, false, false, true]),
        Some("/usr/bin/antigravity".to_string())
    );
    assert_eq!(
        check_standard_locations(&list, &vec![false, false, false, true]),
        Some("/home/u/.local/bin/antigravity".to_string())
    );
}

#[test]
fn first_existing_location_wins() {
    let list = vec!["a".to_string(), "b".to_string(), "c".to_string()];
    assert_eq!(check_standard_locations(&list, &vec![false, true, true]), Some("b".to_string()));
    assert_eq!(check_standard_locations(&list, &vec![true, true, true]), Some("a".to_string()));
    assert_eq!(check_standard_locations(&list, &vec![false, false, false]), None);
    assert_eq!(check_standard_locations(&list, &vec![false]), None);
    assert_eq!(check_standard_locations(&list, &vec![false, false, false, true]), None);
    assert_eq!(check_standard_locations(&Vec::new(), &vec![true]), None);
}

#[test]
fn running_instance_beats_install_locations() {
    let list = vec!["a".to_string()];
    assert_eq!(
        resolve_executable_path(Some("/x/antigravity".to_string()), &list, &vec![true]),
        Some("/x/antigravity".to_string())
    );
    assert_eq!(resolve_executable_path(None, &list, &vec![true]), Some("a".to_string()));
    assert_eq!(resolve_executable_path(None, &list, &vec![false]), None);
}

#[test]
fn lookup_finds_an_existing_location() {
    let list = vec!["a".to_string(), "b".to_string()];
    let found = get_antigravity_executable_path(Platform::Windows, &list, &vec![false, true]);
    assert!(found.is_some());
}
