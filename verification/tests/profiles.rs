use octos_tui::profiles::{data_dir_from_command, default_octos_home, expand_tilde, profile_ids_from_entries, resolve_path_token, solo_profiles_dir};

#[test]
fn should_read_data_dir_from_data_dir_flag() {
    let dir = data_dir_from_command("octos serve --stdio --solo --data-dir /srv/octos", None).expect("data-dir parsed");
    assert_eq!(dir, "/srv/octos");
}

#[test]
fn should_read_data_dir_from_equals_form() {
    let dir = data_dir_from_command("octos serve --data-dir=/srv/eq", None).expect("parsed");
    assert_eq!(dir, "/srv/eq");
}

#[test]
fn should_read_data_dir_from_octos_home_env_prefix() {
    let dir = data_dir_from_command("OCTOS_HOME=/srv/home octos serve --stdio", None).expect("parsed");
    assert_eq!(dir, "/srv/home");
}

#[test]
fn should_reject_unresolvable_shell_path() {
    assert!(data_dir_from_command("OCTOS_HOME=\"$PWD/.octos\" octos serve", None).is_none());
    assert!(data_dir_from_command("octos serve", None).is_none());
}

#[test]
fn should_enumerate_only_json_profile_stems_sorted() {
    let entries = vec![
        ("glm.json".to_string(), true),
        ("deepseek.json".to_string(), true),
        ("notes.txt".to_string(), true),
        ("glm".to_string(), false),
    ];
    assert_eq!(profile_ids_from_entries(&entries), vec!["deepseek".to_owned(), "glm".to_owned()]);
}

#[test]
fn should_return_empty_when_profiles_dir_missing() {
    assert!(profile_ids_from_entries(&Vec::new()).is_empty());
}

#[test]
fn profile_entries_skip_hidden_and_directories_and_dedup() {
    let entries = vec![
        (".hidden.json".to_string(), true),
        (".json".to_string(), true),
        ("dir.json".to_string(), false),
        ("b.json".to_string(), true),
        ("a.json".to_string(), true),
        ("b.json".to_string(), true),
        ("c.JSON".to_string(), true),
    ];
    assert_eq!(profile_ids_from_entries(&entries), vec!["a".to_owned(), "b".to_owned()]);
}

#[test]
fn tilde_and_quotes_are_resolved() {
    assert_eq!(resolve_path_token("  '~/data'  ", Some("/home/ada")), Some("/home/ada/data".to_string()));
    assert_eq!(resolve_path_token("~", Some("/home/ada")), Some("/home/ada".to_string()));
    assert_eq!(resolve_path_token("~/x", None), Some("~/x".to_string()));
    assert_eq!(resolve_path_token("\"\"", None), None);
    assert_eq!(resolve_path_token("$HOME/x", Some("/home/ada")), None);
}

#[test]
fn profiles_dir_prefers_the_command_then_home() {
    assert_eq!(
        solo_profiles_dir(Some("octos serve --data-dir /srv/octos"), Some("/home/ada")),
        Some("/srv/octos/profiles".to_string())
    );
    assert_eq!(solo_profiles_dir(Some("octos serve"), Some("/home/ada")), Some("/home/ada/.octos/profiles".to_string()));
    assert_eq!(solo_profiles_dir(None, None), None);
    assert_eq!(
        solo_profiles_dir(Some("octos --data-dir '~/d'"), Some("/home/ada/")),
        Some("/home/ada/d/profiles".to_string())
    );
    assert!(data_dir_from_command("octos 'unterminated", None).is_none());
}

#[test]
fn tilde_expansion_and_default_home() {
    assert_eq!(expand_tilde("~/x", Some("/home/ada")), "/home/ada/x");
    assert_eq!(expand_tilde("~x", Some("/home/ada")), "~x");
    assert_eq!(expand_tilde("~//abs", Some("/home/ada")), "/abs");
    assert_eq!(default_octos_home(Some("/home/ada")), Some("/home/ada/.octos".to_string()));
    assert_eq!(default_octos_home(None), None);
}
