use cache_diagnostics::skills::{
    catalog_entry_from_skill, catalog_from_outcome, host_authority_id, missing_snapshot_message,
    not_loaded_message, outside_package_message, plugin_skill_locator, read_failure_message,
    root_order, select_read_target, skill_path_matches_resource, with_forward_slashes,
    relative_path_stays_inside, resolved_resource_check, HostSkillProvider, LoadedSkill, ReadTarget, SkillLoadError,
    SkillSnapshot, SkillSourceKind, SkillSummary,
};

fn summary(path: &str) -> SkillSummary {
    SkillSummary {
        path: path.to_string(),
        name: "local-check".to_string(),
        description: "Check local files.".to_string(),
        short_description: None,
        plugin_id: None,
        relative_directory: None,
        discovery_path: None,
        root: None,
        enabled: true,
        allows_implicit_invocation: true,
        prompt_scope: "repo".to_string(),
        dependencies: None,
    }
}

#[test]
fn provider_is_the_host_authority() {
    let _provider = HostSkillProvider::new();
    assert_eq!(host_authority_id(), "host");
    assert_eq!(missing_snapshot_message(), "host skill provider requires a host skills snapshot");
}

#[test]
fn backslashes_become_forward_slashes() {
    assert_eq!(with_forward_slashes(r"skills\local-check\SKILL.md"), "skills/local-check/SKILL.md");
    assert_eq!(with_forward_slashes("plain/path"), "plain/path");
    assert_eq!(with_forward_slashes(""), "");
    assert_eq!(with_forward_slashes(r"ü\é"), "ü/é");
}

#[test]
fn plugin_locators_name_the_package_and_main_prompt() {
    assert_eq!(
        plugin_skill_locator(Some("shared"), Some(r"analyze\deep")),
        Some(("skill://shared/analyze/deep".to_string(), "skill://shared/analyze/deep/SKILL.md".to_string()))
    );
    assert_eq!(
        plugin_skill_locator(Some("shared"), Some("")),
        Some(("skill://shared".to_string(), "skill://shared/SKILL.md".to_string()))
    );
    assert_eq!(plugin_skill_locator(None, Some("analyze")), None);
    assert_eq!(plugin_skill_locator(Some("shared"), None), None);
}

#[test]
fn requested_resources_match_paths_as_given_or_with_forward_slashes() {
    assert!(skill_path_matches_resource("a/b/SKILL.md", "a/b/SKILL.md"));
    assert!(skill_path_matches_resource(r"a\b\SKILL.md", "a/b/SKILL.md"));
    assert!(skill_path_matches_resource(r"a\b\SKILL.md", r"a\b\SKILL.md"));
    assert!(!skill_path_matches_resource("a/b/SKILL.md", r"a\b\SKILL.md"));
}

#[test]
fn reads_prefer_plugin_packages_then_loaded_prompts() {
    let skills = vec![
        LoadedSkill { package: None, path: "r0/local/SKILL.md".to_string() },
        LoadedSkill { package: Some("skill://shared/analyze".to_string()), path: "p/analyze/SKILL.md".to_string() },
        LoadedSkill { package: Some("skill://shared/analyze".to_string()), path: "q/analyze/SKILL.md".to_string() },
    ];
    assert_eq!(select_read_target(&skills, "skill://shared/analyze", "skill://shared/analyze/SKILL.md"), ReadTarget::PluginResource(1));
    assert_eq!(select_read_target(&skills, "r0/local/SKILL.md", "r0/local/SKILL.md"), ReadTarget::SkillPrompt(0));
    assert_eq!(select_read_target(&skills, "missing", "missing"), ReadTarget::NotLoaded);
    assert_eq!(not_loaded_message("missing"), "host skill resource is not loaded: missing");
    assert_eq!(outside_package_message("x"), "host skill resource is outside its package: x");
    assert_eq!(read_failure_message("x"), "failed to read host skill resource x");
}

#[test]
fn ordinary_host_skills_keep_filesystem_locators_and_direct_prompt_reads() {
    let mut skill = summary(r"C:\work\skills\local-check\SKILL.md");
    skill.discovery_path = Some(r"skills\local-check\SKILL.md".to_string());
    skill.root = Some(r"C:\work\skills".to_string());
    let roots = vec!["/other".to_string(), r"C:\work\skills".to_string()];
    let catalog = catalog_from_outcome(&[skill], &[], &roots);
    assert_eq!(catalog.entries.len(), 1);
    let entry = &catalog.entries[0];
    assert!(!entry.plugin_package);
    assert_eq!(entry.package, r"C:\work\skills\local-check\SKILL.md");
    assert_eq!(entry.main_prompt, r"C:\work\skills\local-check\SKILL.md");
    assert_eq!(entry.display_path.as_deref(), Some("skills/local-check/SKILL.md"));
    assert_eq!(entry.alias_root.as_deref(), Some("C:/work/skills"));
    assert_eq!(entry.alias_root_order, Some(1));
    assert_eq!(entry.authority_id, "host");
    assert!(entry.enabled);
    assert!(!entry.hidden_from_prompt);
}

#[test]
fn plugin_skills_are_named_by_their_package() {
    let mut skill = summary("/cache/revision-a/skills/analyze/SKILL.md");
    skill.plugin_id = Some("shared".to_string());
    skill.relative_directory = Some("analyze".to_string());
    skill.discovery_path = Some("ignored".to_string());
    skill.root = Some("/cache/revision-a/skills".to_string());
    skill.enabled = false;
    skill.allows_implicit_invocation = false;
    skill.prompt_scope = "user".to_string();
    skill.dependencies = Some(r#"{"tools":[]}"#.to_string());
    let entry = catalog_entry_from_skill(&skill);
    assert_eq!(entry.source_kind, SkillSourceKind::Host);
    assert_eq!(entry.prompt_scope, "user");
    assert_eq!(entry.dependencies.as_deref(), Some(r#"{"tools":[]}"#));
    assert_eq!(entry.name, "local-check");
    assert_eq!(entry.description, "Check local files.");
    assert!(entry.plugin_package);
    assert_eq!(entry.package, "skill://shared/analyze");
    assert_eq!(entry.main_prompt, "skill://shared/analyze/SKILL.md");
    assert_eq!(entry.display_path, None);
    assert_eq!(entry.plugin_id.as_deref(), Some("shared"));
    assert!(!entry.enabled);
    assert!(entry.hidden_from_prompt);

    let catalog = catalog_from_outcome(&[skill], &[], &["/cache/revision-a/skills".to_string()]);
    assert_eq!(catalog.entries[0].display_path, None);
    assert_eq!(catalog.entries[0].alias_root, None);
    assert_eq!(catalog.entries[0].alias_root_order, None);
}

#[test]
fn load_errors_become_warnings() {
    let errors = [SkillLoadError { path: "/bad/SKILL.md".to_string(), message: "missing name".to_string() }];
    let catalog = catalog_from_outcome(&[], &errors, &[]);
    assert!(catalog.entries.is_empty());
    assert_eq!(catalog.warnings, vec!["Failed to load skill at /bad/SKILL.md: missing name".to_string()]);
}

#[test]
fn root_order_is_the_last_position_of_the_root() {
    let roots = vec!["a".to_string(), "b".to_string(), "a".to_string()];
    assert_eq!(root_order(&roots, "a"), Some(2));
    assert_eq!(root_order(&roots, "b"), Some(1));
    assert_eq!(root_order(&roots, "c"), None);
    let slashed = vec!["/work/skills/".to_string(), "/other".to_string()];
    assert_eq!(root_order(&slashed, "/work/skills"), Some(0));
}

#[test]
fn listing_and_reading_need_a_snapshot() {
    let provider = HostSkillProvider::new();
    assert_eq!(
        provider.list(None).err().as_deref(),
        Some("host skill provider requires a host skills snapshot")
    );
    let snapshot = SkillSnapshot {
        skills: vec![summary("r0/local/SKILL.md")],
        errors: vec![SkillLoadError { path: "bad".to_string(), message: "oops".to_string() }],
        roots: Vec::new(),
    };
    let catalog = provider.list(Some(&snapshot)).expect("a snapshot lists");
    assert_eq!(catalog.entries.len(), 1);
    assert_eq!(catalog.entries[0].display_path.as_deref(), Some("r0/local/SKILL.md"));
    assert_eq!(catalog.warnings, vec!["Failed to load skill at bad: oops".to_string()]);

    assert_eq!(
        provider.read_target(None, "p", "p/SKILL.md"),
        Err("host skill provider requires a host skills snapshot".to_string())
    );
    let loaded = [LoadedSkill { package: None, path: r"r0\local\SKILL.md".to_string() }];
    assert_eq!(provider.read_target(Some(&loaded), "x", "r0/local/SKILL.md"), Ok(ReadTarget::SkillPrompt(0)));
    assert_eq!(
        provider.read_target(Some(&loaded), "x", "r0/other/SKILL.md"),
        Err("host skill resource is not loaded: r0/other/SKILL.md".to_string())
    );
}

#[test]
fn plugin_packages_stay_stable_across_cache_revisions() {
    let mut first = summary("/cache/revision-a/skills/analyze/deep/SKILL.md");
    first.plugin_id = Some("shared".to_string());
    first.relative_directory = Some("analyze/deep".to_string());
    first.root = Some("/cache/revision-a/skills".to_string());
    let mut second = summary(r"C:\cache\revision-b\skills\analyze\deep\SKILL.md");
    second.plugin_id = Some("shared".to_string());
    second.relative_directory = Some(r"analyze\deep".to_string());
    second.root = Some(r"C:\cache\revision-b\skills".to_string());
    let first_entry = catalog_entry_from_skill(&first);
    let second_entry = catalog_entry_from_skill(&second);
    assert_eq!(first_entry.package, "skill://shared/analyze/deep");
    assert_eq!(first_entry.package, second_entry.package);
    assert_eq!(first_entry.main_prompt, second_entry.main_prompt);
}

#[test]
fn plugin_package_subresources_stay_within_the_package() {
    assert!(relative_path_stays_inside("references/x.md"));
    assert!(relative_path_stays_inside("references/escape.md"));
    assert!(!relative_path_stays_inside("references/../../outside.md"));
    assert!(!relative_path_stays_inside(".."));
    assert!(!relative_path_stays_inside("/etc/passwd"));
    assert!(!relative_path_stays_inside("./x.md"));
    assert!(!relative_path_stays_inside("."));
    assert!(relative_path_stays_inside("a/.../b"));
    assert_eq!(resolved_resource_check("r", "/pkg", "/pkg/references/x.md"), Ok(()));
    assert_eq!(resolved_resource_check("r", "/pkg", "/pkg"), Ok(()));
    assert_eq!(
        resolved_resource_check("r", "/pkg", "/pkgx/outside.md"),
        Err("host skill resource is outside its package: r".to_string())
    );
    assert_eq!(
        resolved_resource_check("r", "/pkg", "/outside.md"),
        Err("host skill resource is outside its package: r".to_string())
    );
}
