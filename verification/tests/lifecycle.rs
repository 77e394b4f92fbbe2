use iris::actions::Action;
use iris::lifecycle::PlanError;
use iris::{FsEntry, FsNode, FsPath, FsSnapshot, GeneratorKind, HostEnv, IrisPaths};

fn paths() -> IrisPaths {
    IrisPaths::under(&FsPath::new("/home/u"))
}

fn p(s: &str) -> FsPath {
    FsPath::new(s)
}

fn file(path: &str, content: &str) -> FsEntry {
    FsEntry { path: p(path), node: FsNode::File(content.to_string()) }
}

fn dir(path: &str) -> FsEntry {
    FsEntry { path: p(path), node: FsNode::Dir }
}

fn link(path: &str, target: &str) -> FsEntry {
    FsEntry { path: p(path), node: FsNode::Symlink(p(target)) }
}

#[test]
fn cleanup_of_a_linked_terminal_removes_its_link_and_cache() {
    let fs = FsSnapshot {
        entries: vec![
            dir("/home/u/.config/alacritty"),
            link(
                "/home/u/.config/alacritty/current_theme.toml",
                "/home/u/.cache/iris/generators/alacritty/nord.toml",
            ),
            file("/home/u/.cache/iris/generators/alacritty/nord.toml", "x"),
            dir("/home/u/.cache/iris/generators/alacritty"),
        ],
    };
    let plan = GeneratorKind::Alacritty.cleanup(&paths(), &HostEnv::empty(), &fs).unwrap();
    assert_eq!(
        plan,
        vec![
            Action::RemoveFile(p("/home/u/.config/alacritty/current_theme.toml")),
            Action::RemoveDirAll(p("/home/u/.cache/iris/generators/alacritty")),
        ]
    );
}

#[test]
fn cleanup_on_an_empty_system_does_nothing() {
    let fs = FsSnapshot { entries: vec![] };
    let plan = GeneratorKind::Kitty.cleanup(&paths(), &HostEnv::empty(), &fs).unwrap();
    assert!(plan.is_empty());
}

#[test]
fn cleanup_of_herdr_rewrites_then_removes_its_config() {
    let content = "a = 1\n# [iris:begin:herdr]\ncolors\n# [iris:end:herdr]\n";
    let fs = FsSnapshot { entries: vec![file("/home/u/.config/herdr/config.toml", content)] };
    let plan = GeneratorKind::Herdr.cleanup(&paths(), &HostEnv::empty(), &fs).unwrap();
    assert_eq!(
        plan,
        vec![
            Action::WriteFile {
                path: p("/home/u/.config/herdr/config.toml"),
                content: "a = 1\n# [iris:begin:herdr]\n\n# [iris:end:herdr]".to_string(),
            },
            Action::RemoveFile(p("/home/u/.config/herdr/config.toml")),
        ]
    );
}

#[test]
fn cleanup_reports_an_unreadable_config() {
    let fs = FsSnapshot { entries: vec![dir("/home/u/.config/starship/starship.toml")] };
    let r = GeneratorKind::Starship.cleanup(&paths(), &HostEnv::empty(), &fs);
    assert_eq!(r, Err(PlanError::Unreadable(p("/home/u/.config/starship/starship.toml"))));
}

#[test]
fn cleanup_of_fzf_drops_its_block_and_lines() {
    let fs = FsSnapshot {
        entries: vec![
            file("/home/u/.zshrc", "export A=1\n  fzf --zsh\n# [iris:begin:fzf]\nsource x\n# [iris:end:fzf]\n"),
            dir("/home/u/.cache/iris/generators/fzf"),
        ],
    };
    let plan = GeneratorKind::Fzf.cleanup(&paths(), &HostEnv::empty(), &fs).unwrap();
    assert_eq!(
        plan,
        vec![
            Action::WriteFile {
                path: p("/home/u/.zshrc"),
                content: "export A=1".to_string(),
            },
            Action::RemoveDirAll(p("/home/u/.cache/iris/generators/fzf")),
        ]
    );
}

#[test]
fn cleanup_of_fzf_leaves_an_unchanged_zshrc() {
    let fs = FsSnapshot { entries: vec![file("/home/u/.zshrc", "export A=1")] };
    let plan = GeneratorKind::Fzf.cleanup(&paths(), &HostEnv::empty(), &fs).unwrap();
    assert!(plan.is_empty());
}

#[test]
fn cleanup_of_bat_removes_its_conf() {
    let fs = FsSnapshot { entries: vec![file("/home/u/.cache/iris/bin/bat.conf", "--theme=x")] };
    let plan = GeneratorKind::Bat.cleanup(&paths(), &HostEnv::empty(), &fs).unwrap();
    assert_eq!(plan, vec![Action::RemoveFile(p("/home/u/.cache/iris/bin/bat.conf"))]);
    let plain = GeneratorKind::Bat.default_cleanup(&paths(), &HostEnv::empty(), &fs, false).unwrap();
    assert!(plain.is_empty());
}

#[test]
fn removing_a_theme_removes_only_links_to_its_cache() {
    let fs = FsSnapshot {
        entries: vec![
            link("/home/u/.config/btop/themes/nord.theme", "/home/u/.cache/iris/generators/btop/nord.theme"),
            file("/home/u/.cache/iris/generators/btop/nord.theme", "t"),
        ],
    };
    let plan = GeneratorKind::Btop.remove_theme(&paths(), &HostEnv::empty(), "Nord", &fs).unwrap();
    assert_eq!(
        plan,
        vec![
            Action::RemoveFile(p("/home/u/.config/btop/themes/nord.theme")),
            Action::RemoveFile(p("/home/u/.cache/iris/generators/btop/nord.theme")),
        ]
    );
}

#[test]
fn removing_a_theme_keeps_a_link_elsewhere() {
    let fs = FsSnapshot {
        entries: vec![
            link("/home/u/.config/btop/themes/nord.theme", "/tmp/other.theme"),
            file("/tmp/other.theme", "t"),
        ],
    };
    let plan = GeneratorKind::Btop.remove_theme(&paths(), &HostEnv::empty(), "nord", &fs).unwrap();
    assert!(plan.is_empty());
}

#[test]
fn removing_a_bat_theme_rebuilds_its_cache() {
    let fs = FsSnapshot { entries: vec![] };
    let plan = GeneratorKind::Bat.remove_theme(&paths(), &HostEnv::empty(), "nord", &fs).unwrap();
    assert_eq!(
        plan,
        vec![Action::RunCommand {
            program: "bat".to_string(),
            args: vec!["cache".to_string(), "--build".to_string()],
            silent: true,
        }]
    );
}

#[test]
fn removing_the_starship_theme_strips_its_palette() {
    let content = "palette = \"nord\"\nformat = 1\n# [iris:begin:starship]\n[palettes.nord]\n# [iris:end:starship]";
    let fs = FsSnapshot {
        entries: vec![
            file("/home/u/.config/starship/starship.toml", content),
            file("/home/u/.cache/iris/generators/starship/nord_block.toml", "b"),
        ],
    };
    let plan = GeneratorKind::Starship.remove_theme(&paths(), &HostEnv::empty(), "Nord", &fs).unwrap();
    assert_eq!(
        plan,
        vec![
            Action::WriteFile {
                path: p("/home/u/.config/starship/starship.toml"),
                content: "format = 1\n# [iris:begin:starship]\n\n# [iris:end:starship]".to_string(),
            },
            Action::RemoveFile(p("/home/u/.cache/iris/generators/starship/nord_block.toml")),
        ]
    );
}

#[test]
fn removing_another_starship_theme_leaves_the_config() {
    let fs = FsSnapshot { entries: vec![file("/home/u/.config/starship/starship.toml", "palette = \"dracula\"")] };
    let plan = GeneratorKind::Starship.remove_theme(&paths(), &HostEnv::empty(), "nord", &fs).unwrap();
    assert!(plan.is_empty());
}

#[test]
fn snapshot_follows_performed_actions() {
    let mut fs = FsSnapshot { entries: vec![dir("/a"), file("/a/b", "x"), file("/c", "y")] };
    fs.perform(&Action::RemoveDirAll(p("/a")));
    assert!(!fs.path_exists(&p("/a/b")));
    assert!(fs.path_exists(&p("/c")));
    fs.perform(&Action::WriteFile { path: p("/d"), content: "z".to_string() });
    assert_eq!(fs.read(&p("/d")), Some("z".to_string()));
    fs.perform(&Action::RemoveFile(p("/c")));
    assert!(!fs.path_exists(&p("/c")));
}

/// Applies `plan` to `fs`.
fn performed(mut fs: FsSnapshot, plan: &[Action]) -> FsSnapshot {
    for a in plan {
        fs.perform(a);
    }
    fs
}

/// What an apply of the theme leaves for fzf: the generated script in the
/// cache and the zshrc block that sources it.
fn fzf_applied(theme: &str) -> FsSnapshot {
    let g = iris::FzfGenerator;
    let cache = g.cache_path(&paths(), theme);
    FsSnapshot {
        entries: vec![
            FsEntry { path: cache.parent_or_self(), node: FsNode::Dir },
            FsEntry { path: cache.clone(), node: FsNode::File("export FZF_DEFAULT_OPTS=\"\"".to_string()) },
            file(
                "/home/u/.zshrc",
                "# [iris:begin:fzf]\nfzf_source ~/.cache/iris/fzf.sh\n# [iris:end:fzf]\n",
            ),
        ],
    }
}

#[test]
fn should_clear_generated_files_for_fzf() {
    let g = iris::FzfGenerator;
    let fs = fzf_applied("test-theme");
    let fzf_script = g.cache_path(&paths(), "test-theme");
    assert!(fs.path_exists(&fzf_script), "Cache file should exist after apply");

    let plan = g.kind().cleanup(&paths(), &HostEnv::empty(), &fs).unwrap();
    let after = performed(fs, &plan);
    assert!(!after.path_exists(&fzf_script));
    let zshrc = after.read(&p("/home/u/.zshrc")).unwrap();
    assert!(!zshrc.lines().any(|l| l.contains("[iris:begin:fzf]") || l.contains("[iris:end:fzf]")));
}

#[test]
fn should_remove_theme_for_fzf() {
    let g = iris::FzfGenerator;
    let fs = fzf_applied("test-theme");
    let fzf_script = g.cache_path(&paths(), "test-theme");
    assert!(fs.path_exists(&fzf_script));

    let plan = g.kind().remove_theme(&paths(), &HostEnv::empty(), "test-theme", &fs).unwrap();
    let after = performed(fs, &plan);
    assert!(!after.path_exists(&fzf_script), "remove_theme should delete the fzf theme script");
}

/// What an apply of the theme leaves for yazi: the generated flavor in the
/// cache and the link to it in yazi's configuration.
fn yazi_applied(theme: &str) -> FsSnapshot {
    let g = iris::YaziGenerator;
    let cache = g.cache_path(&paths(), theme);
    let link = g.theme_path(&paths(), theme);
    FsSnapshot {
        entries: vec![
            FsEntry { path: cache.parent_or_self(), node: FsNode::Dir },
            FsEntry { path: cache.clone(), node: FsNode::File("[manager]".to_string()) },
            FsEntry { path: link, node: FsNode::Symlink(cache) },
        ],
    }
}

#[test]
fn should_clear_generated_files_for_yazi() {
    let g = iris::YaziGenerator;
    let fs = yazi_applied("test-theme");
    let cache_dir = paths().generators.join(g.name());
    assert!(fs.path_exists(&cache_dir));

    let plan = g.kind().cleanup(&paths(), &HostEnv::empty(), &fs).unwrap();
    let after = performed(fs, &plan);
    assert!(!after.path_exists(&cache_dir), "Clear should remove the entire cache dir");
}

#[test]
fn should_remove_theme_for_yazi() {
    let g = iris::YaziGenerator;
    let fs = yazi_applied("test-theme");
    let cache_file = g.cache_path(&paths(), "test-theme");
    let link_file = g.theme_path(&paths(), "test-theme");
    assert!(fs.path_exists(&cache_file));
    assert!(fs.path_exists(&link_file));

    let plan = g.kind().remove_theme(&paths(), &HostEnv::empty(), "test-theme", &fs).unwrap();
    let after = performed(fs, &plan);
    assert!(!after.path_exists(&cache_file));
    assert!(!after.path_exists(&link_file));
}

#[test]
fn should_return_health_ok_for_fzf() {
    let g = iris::FzfGenerator;
    let fs = fzf_applied("test-theme");
    let status = g.health_check(&paths(), "test-theme", &fs, true);
    assert!(status.is_ok(), "Expected Ok, got: {}", status.message());
}

#[test]
fn should_return_health_ok_for_yazi() {
    let g = iris::YaziGenerator;
    let theme = "test-theme";
    let cache = g.cache_path(&paths(), theme);
    let link = g.link_path(&paths(), "");
    let fs = FsSnapshot {
        entries: vec![
            FsEntry { path: cache.clone(), node: FsNode::File("[manager]".to_string()) },
            FsEntry { path: link, node: FsNode::Symlink(cache) },
        ],
    };
    let status = g.health_check(&paths(), theme, &fs, true);
    assert!(status.is_ok(), "Expected Ok, got: {}", status.message());
}

#[test]
fn should_return_health_ok_for_bat() {
    let g = iris::BatGenerator;
    let theme = "test-theme";
    let expected_config = paths().bin.join("bat.conf");
    let env = HostEnv { home: Some("/home/u".to_string()), starship_config: None, bat_config_path: Some(expected_config.display()) };
    let fs = FsSnapshot {
        entries: vec![FsEntry { path: g.link_path(&paths(), theme), node: FsNode::File("<plist/>".to_string()) }],
    };
    let status = g.health_check(&paths(), &env, theme, &fs, true);
    assert!(status.is_ok(), "Expected Ok, got: {}", status.message());
}

#[test]
fn should_return_health_error_env_mismatch_for_bat() {
    let g = iris::BatGenerator;
    let env = HostEnv { home: Some("/home/u".to_string()), starship_config: None, bat_config_path: Some("/wrong/path/config.conf".to_string()) };
    let status = g.health_check(&paths(), &env, "", &FsSnapshot { entries: vec![] }, true);
    assert!(status.is_warning(), "Expected Warning, got: {}", status.message());
    assert!(status.message().contains("Environment variable mismatch"));
}

#[test]
fn should_return_health_error_if_config_missing_for_starship() {
    let g = iris::StarshipGenerator;
    let config_path = paths().config.join("starship_missing.toml");
    let env = HostEnv { home: Some("/home/u".to_string()), starship_config: Some(config_path.display()), bat_config_path: None };
    let status = g.health_check(&paths(), &env, "any", &FsSnapshot { entries: vec![] }, true);
    assert!(status.is_error(), "Expected Error, got: {}", status.message());
}

#[test]
fn removing_a_marker_block_leaves_no_marker_line() {
    use_remove_marker_block();
}

fn use_remove_marker_block() {
    let out = iris::strings::remove_marker_block("a\n# [iris:begin:fzf]\nsrc\n# [iris:end:fzf]\nb", "fzf");
    assert_eq!(out, "a\n\nb");
    let out = iris::strings::remove_marker_block("a\n# [iris:end:fzf]\nb\n# [iris:begin:fzf]", "fzf");
    assert_eq!(out, "a\nb");
    let out = iris::strings::remove_marker_block("fzf_x\nkeep", "fzf");
    assert_eq!(out, "keep");
}
