use geode_config::config::{Config, Diagnostic};
use geode_config::profile::Profile;

fn profile(name: &str, path: &str) -> Profile {
    Profile::new(name.to_string(), path.to_string())
}

fn config_with(profiles: Vec<Profile>, current: Option<&str>) -> Config {
    let mut config = Config::empty();
    config.profiles = profiles;
    config.current_profile = current.map(|s| s.to_string());
    config
}

#[test]
fn profile_new_sets_fields() {
    let p = profile("GD", "/games/gd");
    assert_eq!(p.name, "GD");
    assert_eq!(p.gd_path, "/games/gd");
    assert!(p.extra.is_empty());
}

#[test]
fn derived_dirs_are_fixed_suffixes() {
    let p = profile("GD", "/games/gd");
    assert_eq!(p.geode_dir(), "/games/gd/geode");
    assert_eq!(p.index_dir(), "/games/gd/geode/index");
    assert_eq!(p.mods_dir(), "/games/gd/geode/mods");
}

#[test]
fn get_profile_of_no_name_is_none() {
    let config = config_with(vec![profile("a", "/a")], Some("a"));
    assert!(config.get_profile(&None).is_none());
}

#[test]
fn get_profile_finds_first_match() {
    let config = config_with(
        vec![profile("a", "/first"), profile("b", "/b"), profile("a", "/second")],
        None,
    );
    let found = config.get_profile(&Some("a".to_string())).unwrap();
    assert_eq!(found.gd_path, "/first");
}

#[test]
fn get_profile_of_absent_name_is_none() {
    let config = config_with(vec![profile("a", "/a")], None);
    assert!(config.get_profile(&Some("missing".to_string())).is_none());
}

#[test]
fn get_current_profile_resolves_by_name() {
    let config = config_with(vec![profile("a", "/a"), profile("b", "/b")], Some("b"));
    let current = config.get_current_profile();
    assert_eq!(current.name, "b");
    assert_eq!(current.gd_path, "/b");
}

#[test]
fn rename_to_taken_name_fails_and_changes_nothing() {
    let mut config = config_with(vec![profile("a", "/a"), profile("b", "/b")], Some("a"));
    let renamed = config.rename_profile(&"a".to_string(), "b".to_string());
    assert!(!renamed);
    assert_eq!(config.profiles.len(), 2);
    assert_eq!(config.profiles[0].name, "a");
    assert_eq!(config.profiles[0].gd_path, "/a");
    assert_eq!(config.profiles[1].name, "b");
    assert_eq!(config.profiles[1].gd_path, "/b");
    assert_eq!(config.current_profile, Some("a".to_string()));
}

#[test]
fn rename_to_own_name_counts_as_taken() {
    let mut config = config_with(vec![profile("a", "/a")], None);
    let renamed = config.rename_profile(&"a".to_string(), "a".to_string());
    assert!(!renamed);
    assert_eq!(config.profiles[0].name, "a");
}

#[test]
fn rename_changes_exactly_one_name_field() {
    let mut config = config_with(vec![profile("a", "/a"), profile("b", "/b")], None);
    config.profiles[0].extra.push(("kept".to_string(), serde_json::Value::Bool(true)));
    let renamed = config.rename_profile(&"a".to_string(), "c".to_string());
    assert!(renamed);
    assert_eq!(config.profiles.len(), 2);
    assert_eq!(config.profiles[0].name, "c");
    assert_eq!(config.profiles[0].gd_path, "/a");
    assert_eq!(config.profiles[0].extra.len(), 1);
    assert_eq!(config.profiles[0].extra[0].0, "kept");
    assert_eq!(config.profiles[0].extra[0].1, serde_json::Value::Bool(true));
    assert_eq!(config.profiles[1].name, "b");
    assert_eq!(config.profiles[1].gd_path, "/b");
}

#[test]
fn rename_renames_first_match_only() {
    let mut config = config_with(vec![profile("a", "/first"), profile("a", "/second")], None);
    let renamed = config.rename_profile(&"a".to_string(), "c".to_string());
    assert!(renamed);
    assert_eq!(config.profiles[0].name, "c");
    assert_eq!(config.profiles[1].name, "a");
}

#[test]
fn rename_of_current_profile_orphans_selector() {
    // Renaming the active profile leaves the selector pointing at the old
    // name; the next load's repair step re-resolves it. Known edge case,
    // preserved deliberately.
    let mut config = config_with(vec![profile("a", "/a"), profile("b", "/b")], Some("a"));
    let renamed = config.rename_profile(&"a".to_string(), "c".to_string());
    assert!(renamed);
    assert_eq!(config.current_profile, Some("a".to_string()));
    assert!(config.get_profile(&config.current_profile.clone()).is_none());
    let warnings = config.repair();
    assert!(warnings.is_empty());
    assert_eq!(config.current_profile, Some("c".to_string()));
}

#[test]
fn repair_resets_unmatched_current_to_first() {
    let mut config = config_with(vec![profile("a", "/a"), profile("b", "/b")], Some("ghost"));
    let warnings = config.repair();
    assert!(warnings.is_empty());
    assert_eq!(config.current_profile, Some("a".to_string()));
}

#[test]
fn repair_resets_unset_current_to_first() {
    let mut config = config_with(vec![profile("a", "/a")], None);
    let warnings = config.repair();
    assert!(warnings.is_empty());
    assert_eq!(config.current_profile, Some("a".to_string()));
}

#[test]
fn repair_keeps_resolving_current() {
    let mut config = config_with(vec![profile("a", "/a"), profile("b", "/b")], Some("b"));
    let warnings = config.repair();
    assert!(warnings.is_empty());
    assert_eq!(config.current_profile, Some("b".to_string()));
}

#[test]
fn repair_of_empty_collection_only_warns() {
    let mut config = Config::empty();
    let warnings = config.repair();
    assert_eq!(warnings, vec![Diagnostic::NoProfilesFound, Diagnostic::SetupHintWarning]);
    assert!(warnings.iter().all(|w| w.is_warning()));
    assert_eq!(config.current_profile, None);
    assert!(config.profiles.is_empty());
}
