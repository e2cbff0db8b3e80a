use sshub::command_path::{
    command_exists, executable_names, is_runnable, path_has_separator, path_is_explicit,
    pathext_list, PathDir,
};

fn dirs(found_in: &str) -> Vec<PathDir> {
    ["/usr/local/bin", "/usr/bin", "/bin", ""]
        .iter()
        .map(|d| PathDir {
            dir: d.to_string(),
            runnable: *d == found_in,
        })
        .collect()
}

#[test]
fn empty_name_is_missing() {
    assert!(!command_exists("", false, true, Some(&dirs("/bin"))));
}

#[test]
fn missing_program_is_false() {
    assert!(!command_exists(
        "sshub-definitely-not-a-real-binary-xyzzy-9f3a",
        false,
        false,
        Some(&dirs("nowhere"))
    ));
}

#[test]
fn explicit_missing_path_is_false() {
    assert!(!command_exists(
        "/no/such/sshub/binary/xyzzy",
        false,
        false,
        Some(&dirs("/bin"))
    ));
    assert!(!command_exists(
        r"C:\no\such\sshub\binary\xyzzy.exe",
        true,
        false,
        Some(&dirs("/bin"))
    ));
}

#[test]
fn finds_ssh_on_path_when_present() {
    assert!(command_exists("ssh", false, false, Some(&dirs("/usr/bin"))));
}

#[test]
fn finds_sh() {
    assert!(command_exists("sh", false, false, Some(&dirs("/bin"))));
}

#[test]
fn finds_where_exe() {
    // The directory holds `where.EXE`; a bare name is looked up with the extensions.
    let names = executable_names("where", &pathext_list(Some(".COM;.EXE")));
    let there: Vec<bool> = names.iter().map(|n| n == "where.EXE").collect();
    let search: Vec<PathDir> = vec![PathDir {
        dir: r"C:\Windows\System32".to_string(),
        runnable: is_runnable(false, true, &there),
    }];
    assert!(
        command_exists("where", true, false, Some(&search))
            || command_exists("where.exe", true, false, Some(&search)),
        "where.exe should be on PATH"
    );
}

#[test]
fn empty_directories_and_no_search_path_find_nothing() {
    assert!(!command_exists("sh", false, true, Some(&dirs(""))));
    assert!(!command_exists("sh", false, true, None));
    assert!(command_exists("./sh", false, true, None));
}

#[test]
fn separators_of_the_platform() {
    assert!(path_has_separator("a/b", false));
    assert!(!path_has_separator("a\\b", false));
    assert!(path_has_separator("a\\b", true));
    assert!(path_is_explicit("..", false));
    assert!(path_is_explicit("C:.", true));
    assert!(!path_is_explicit("ssh", true));
}

#[test]
fn extensions_get_their_dots() {
    assert_eq!(
        pathext_list(Some(".EXE;cmd; .BAT;;")),
        vec![".EXE".to_string(), ".cmd".to_string(), ".BAT".to_string()]
    );
    assert!(pathext_list(None).contains(&".EXE".to_string()));
    let names = executable_names("where", &vec![".EXE".to_string()]);
    assert!(names.contains(&"where.EXE".to_string()));
}

#[test]
fn other_names_count_on_windows_only() {
    assert!(is_runnable(true, false, &Vec::new()));
    assert!(!is_runnable(false, false, &vec![true]));
    assert!(is_runnable(false, true, &vec![false, true]));
    assert!(!is_runnable(false, true, &vec![false]));
}
