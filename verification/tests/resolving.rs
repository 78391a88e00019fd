use maple_config::paths::AbsPathBuf;
use maple_config::resolve::DEFAULT_DEBOUNCE;
use maple_config::schema::{Config, IgnoreConfig};

fn project(path: &str) -> AbsPathBuf {
    AbsPathBuf::try_new(path.to_string()).expect("absolute")
}

fn ignore(pattern: &str) -> IgnoreConfig {
    IgnoreConfig {
        ignore_file_path_pattern: vec![pattern.to_string()],
        ..Default::default()
    }
}

#[test]
fn ignore_settings_come_from_the_first_layer_that_has_them() {
    let mut config = Config::default();
    config.provider.provider_ignores.insert("p".to_string(), ignore("A"));
    config.provider.project_ignores.insert(project("/x"), ignore("B"));
    config.global_ignore = ignore("G");

    assert_eq!(config.ignore_config("p", &project("/x")), &ignore("A"));
    assert_eq!(config.ignore_config("q", &project("/x")), &ignore("B"));
    assert_eq!(config.ignore_config("q", &project("/y")), &ignore("G"));
    assert_eq!(config.ignore_config("p", &project("/y")), &ignore("A"));
}

#[test]
fn ignore_layers_are_never_merged() {
    let mut config = Config::default();
    config.provider.provider_ignores.insert(
        "grep".to_string(),
        IgnoreConfig { ignore_comments: true, ..Default::default() },
    );
    config.provider.project_ignores.insert(
        project("/src"),
        IgnoreConfig { git_tracked_only: true, ..Default::default() },
    );
    config.global_ignore = ignore("target");

    let chosen = config.ignore_config("grep", &project("/src"));
    assert!(chosen.ignore_comments);
    assert!(!chosen.git_tracked_only);
    assert!(chosen.ignore_file_path_pattern.is_empty());
}

#[test]
fn ignore_settings_without_any_entry_are_the_global_ones() {
    let config = Config::default();
    assert_eq!(config.ignore_config("files", &project("/")), &IgnoreConfig::default());
}

#[test]
fn project_paths_are_compared_as_texts() {
    let mut config = Config::default();
    config.provider.project_ignores.insert(project("/a/b"), ignore("B"));
    assert_eq!(config.ignore_config("q", &project("/a/b")), &ignore("B"));
    assert_eq!(config.ignore_config("q", &project("/a/b/")), &IgnoreConfig::default());
    assert_eq!(config.ignore_config("q", &project("/a/./b")), &IgnoreConfig::default());
    assert_eq!(config.ignore_config("q", &project("/A/b")), &IgnoreConfig::default());
}

#[test]
fn debounce_falls_back_to_the_wildcard_and_then_to_the_default() {
    let mut config = Config::default();
    config.provider.debounce.insert("*".to_string(), 200);
    config.provider.debounce.insert("files".to_string(), 100);
    assert_eq!(config.provider_debounce("files"), 100);
    assert_eq!(config.provider_debounce("grep"), 200);

    let empty = Config::default();
    assert_eq!(empty.provider_debounce("anything"), 200);
    assert_eq!(DEFAULT_DEBOUNCE, 200);
}

#[test]
fn debounce_of_the_wildcard_can_differ_from_the_default() {
    let mut config = Config::default();
    config.provider.debounce.insert("*".to_string(), 50);
    config.provider.debounce.insert("grep".to_string(), 0);
    assert_eq!(config.provider_debounce("files"), 50);
    assert_eq!(config.provider_debounce("grep"), 0);
    assert_eq!(config.provider_debounce("*"), 50);
    assert_eq!(config.provider_debounce(""), 50);
}

#[test]
fn debounce_without_wildcard_is_the_default_for_other_providers() {
    let mut config = Config::default();
    config.provider.debounce.insert("files".to_string(), 100);
    assert_eq!(config.provider_debounce("grep"), 200);
    assert_eq!(config.provider_debounce("file"), 200);
    assert_eq!(config.provider_debounce("files "), 200);
}

#[test]
fn resolving_twice_gives_the_same() {
    let mut config = Config::default();
    config.provider.debounce.insert("files".to_string(), 100);
    config.provider.provider_ignores.insert("p".to_string(), ignore("A"));
    assert_eq!(config.provider_debounce("files"), config.provider_debounce("files"));
    assert_eq!(
        config.ignore_config("p", &project("/x")),
        config.ignore_config("p", &project("/x"))
    );
}
