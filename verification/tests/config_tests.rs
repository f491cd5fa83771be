use kitchensink_testing::mutation::config::MutationConfig;

#[test]
fn default_paths_and_builder_overrides_work() {
    let default = MutationConfig::default();
    assert!(default
        .run_root
        .ends_with(".kitchensink-testing/mutation/runs"));

    let cfg = MutationConfig::default()
        .with_project_dir("/tmp/project-a")
        .with_run_root("/tmp/runs-a")
        .with_filter("abc")
        .with_timeout_secs(42);

    assert_eq!(cfg.project_dir, "/tmp/project-a");
    assert_eq!(cfg.run_root, "/tmp/runs-a");
    assert_eq!(cfg.filter.as_deref(), Some("abc"));
    assert_eq!(cfg.timeout_secs, Some(42));
}
