use std::path::PathBuf;

use maple_config::holder::{
    config, config_file, load_config_on_startup, try_load_config_on_startup, AlreadyInitialized,
    ConfigHolder,
};
use maple_config::loader::{DocumentSource, LoadError};
use maple_config::schema::Config;

#[test]
fn new_holder_is_not_filled() {
    assert!(!ConfigHolder::new().is_initialized());
}

#[test]
fn startup_fills_the_holder_with_what_was_loaded() {
    let mut holder = ConfigHolder::new();
    let report = load_config_on_startup(
        &mut holder,
        PathBuf::from("/etc/clap/config.toml"),
        DocumentSource::Contents("[log]\nmax-level = \"info\"\n".to_string()),
    );
    assert_eq!(report, None);
    assert!(holder.is_initialized());
    assert_eq!(config_file(&holder), &PathBuf::from("/etc/clap/config.toml"));
    assert_eq!(config(&holder).log.max_level, "info");
    assert_eq!(config(&holder).provider_debounce("files"), 200);
}

#[test]
fn startup_with_a_broken_file_fills_the_holder_with_defaults() {
    let mut holder = ConfigHolder::new();
    let report = load_config_on_startup(
        &mut holder,
        PathBuf::from("config.toml"),
        DocumentSource::Contents("[log]\nlevel = \"info\"\n".to_string()),
    );
    assert!(matches!(report, Some(LoadError::Schema(_))));
    assert!(holder.is_initialized());
    assert_eq!(config(&holder), &Config::default());
    assert_eq!(config_file(&holder), &PathBuf::from("config.toml"));
}

#[test]
fn startup_without_a_file_fills_the_holder_with_defaults() {
    let mut holder = ConfigHolder::new();
    let report = load_config_on_startup(&mut holder, PathBuf::from("/nowhere"), DocumentSource::Absent);
    assert_eq!(report, None);
    assert_eq!(config(&holder), &Config::default());
}

#[test]
fn holder_is_filled_once() {
    let mut holder = ConfigHolder::new();
    let mut first = Config::default();
    first.log.max_level = "trace".to_string();
    assert_eq!(holder.publish(PathBuf::from("/first.toml"), first), Ok(()));
    assert!(holder.is_initialized());

    let mut second = Config::default();
    second.log.max_level = "error".to_string();
    assert_eq!(holder.publish(PathBuf::from("/second.toml"), second), Err(AlreadyInitialized));
    assert_eq!(config(&holder).log.max_level, "trace");
    assert_eq!(config_file(&holder), &PathBuf::from("/first.toml"));
}

#[test]
fn holder_filled_at_startup_refuses_to_be_filled_again() {
    let mut holder = ConfigHolder::new();
    load_config_on_startup(&mut holder, PathBuf::from("/a.toml"), DocumentSource::Absent);
    let mut other = Config::default();
    other.plugin.git.enable = false;
    assert_eq!(holder.publish(PathBuf::from("/b.toml"), other), Err(AlreadyInitialized));
    assert!(config(&holder).plugin.git.enable);
    assert_eq!(config_file(&holder), &PathBuf::from("/a.toml"));
}

#[test]
fn second_startup_is_refused_and_changes_nothing() {
    let mut holder = ConfigHolder::new();
    let first = try_load_config_on_startup(
        &mut holder,
        PathBuf::from("/first.toml"),
        DocumentSource::Contents("[plugin.git]\nenable = false\n".to_string()),
    );
    assert_eq!(first, Ok(None));
    assert!(!config(&holder).plugin.git.enable);

    let second = try_load_config_on_startup(
        &mut holder,
        PathBuf::from("/second.toml"),
        DocumentSource::Contents("[plugin.git]\nenable = true\n".to_string()),
    );
    assert_eq!(second, Err(AlreadyInitialized));
    assert!(!config(&holder).plugin.git.enable);
    assert_eq!(config_file(&holder), &PathBuf::from("/first.toml"));

    let third = try_load_config_on_startup(&mut holder, PathBuf::from("/third.toml"), DocumentSource::Absent);
    assert_eq!(third, Err(AlreadyInitialized));
    assert_eq!(config_file(&holder), &PathBuf::from("/first.toml"));
}

#[test]
fn first_startup_reports_what_went_wrong() {
    let mut holder = ConfigHolder::new();
    let first = try_load_config_on_startup(
        &mut holder,
        PathBuf::from("/first.toml"),
        DocumentSource::Unreadable("is a directory".to_string()),
    );
    assert_eq!(first, Ok(Some(LoadError::Io("is a directory".to_string()))));
    assert_eq!(config(&holder), &Config::default());
}
