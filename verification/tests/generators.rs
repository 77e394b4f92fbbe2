use iris::{
    AlacrittyGenerator, BatGenerator, BottomGenerator, BtopGenerator, FsPath, FsSnapshot,
    FzfGenerator, GeneratorType, GhosttyGenerator, HerdrGenerator, IrisPaths, KittyGenerator,
    StarshipGenerator, TmuxGenerator, WezTermGenerator, YaziGenerator,
};
use tempdir::TempDir;

/// A temporary home with the tool's directory layout under it.
fn mock_paths() -> (TempDir, IrisPaths) {
    let temp_dir = TempDir::new("iris_test").expect("Failed to create temp directory");
    let root = FsPath::new(temp_dir.path().to_str().unwrap());
    let paths = IrisPaths::under(&root);
    (temp_dir, paths)
}

fn empty_fs() -> FsSnapshot {
    FsSnapshot { entries: vec![] }
}

#[test]
fn should_return_metadata_for_herdr() {
    let generator = HerdrGenerator;
    assert_eq!(generator.name(), "herdr");
    assert_eq!(generator.generator_type(), GeneratorType::Multiplexer);
    assert_eq!(generator.file_name("any"), "config.toml");
}

#[test]
fn should_handle_path_resolution_for_herdr() {
    let (_temp_dir, paths) = mock_paths();
    let generator = HerdrGenerator;
    let theme = "tokyonight";

    let expected_config_dir = paths.config.parent().unwrap().join("herdr");
    assert_eq!(generator.config_dir(&paths), expected_config_dir);

    let expected_config_path = expected_config_dir.join("config.toml");
    assert_eq!(generator.config_path(&paths), expected_config_path);

    let expected_cache_path = paths.generators.join("herdr/tokyonight_block.toml");
    assert_eq!(generator.cache_path(&paths, theme), expected_cache_path);
    assert_eq!(generator.template_path(), "multiplexer/herdr");
}

#[test]
fn should_return_metadata_for_tmux() {
    let generator = TmuxGenerator;
    assert_eq!(generator.name(), "tmux");
    assert_eq!(generator.generator_type(), GeneratorType::Multiplexer);
    assert_eq!(generator.target_file_name("dracula"), "dracula.conf");
}

#[test]
fn should_return_metadata_for_starship() {
    let generator = StarshipGenerator;
    assert_eq!(generator.name(), "starship");
    assert_eq!(generator.generator_type(), GeneratorType::Prompt);
    assert_eq!(generator.target_file_name("any"), "starship.toml");
}

#[test]
fn should_return_metadata_for_bottom() {
    let generator = BottomGenerator;
    assert_eq!(generator.name(), "bottom");
    assert_eq!(generator.generator_type(), GeneratorType::System);
    assert_eq!(generator.target_file_name("any"), "bottom.toml");
}

#[test]
fn should_return_metadata_for_btop() {
    let generator = BtopGenerator;
    assert_eq!(generator.name(), "btop");
    assert_eq!(generator.generator_type(), GeneratorType::System);
    assert_eq!(generator.file_name("iris-dark"), "iris-dark.theme");
}

#[test]
fn should_handle_path_resolution_for_btop() {
    let (_temp_dir, paths) = mock_paths();
    let generator = BtopGenerator;
    let theme = "tokyonight";

    let expected_config_dir = paths.config.parent().unwrap().join("btop");
    assert_eq!(generator.config_dir(&paths), expected_config_dir);

    let expected_config_path = expected_config_dir.join("btop.conf");
    assert_eq!(generator.config_path(&paths), expected_config_path);

    let expected_cache_path = paths.generators.join("btop/tokyonight.theme");
    assert_eq!(generator.cache_path(&paths, theme), expected_cache_path);

    let expected_link_path = expected_config_dir.join("themes/tokyonight.theme");
    assert_eq!(generator.link_path(&paths, theme), expected_link_path);

    assert_eq!(generator.template_path(), "system/btop");
}

#[test]
fn should_return_health_error_missing_conf_for_btop() {
    let generator = BtopGenerator;
    if !generator.is_installed() {
        println!("Skipping integration test for 'btop': application not installed.");
        return;
    }
    let (_, paths) = mock_paths();
    let status = generator.health_check(&paths, "", &empty_fs(), true);

    assert!(status.is_error(), "Expected Error, got: {}", status.message());
    assert!(status.contains("Configuration file missing"));
}

#[test]
fn should_return_metadata_for_alacritty() {
    let generator = AlacrittyGenerator;
    assert_eq!(generator.name(), "alacritty");
    assert_eq!(generator.generator_type(), GeneratorType::Terminal);
    assert_eq!(generator.target_file_name("nord"), "nord.toml");
}

#[test]
fn should_return_metadata_for_ghostty() {
    let generator = GhosttyGenerator;
    assert_eq!(generator.name(), "ghostty");
    assert_eq!(generator.generator_type(), GeneratorType::Terminal);
    assert_eq!(generator.target_file_name("melange"), "melange.conf");
}

#[test]
fn should_return_metadata_for_kitty() {
    let generator = KittyGenerator;
    assert_eq!(generator.name(), "kitty");
    assert_eq!(generator.generator_type(), GeneratorType::Terminal);
    assert_eq!(generator.file_name(""), "current_theme.conf");
}

#[test]
fn should_handle_path_resolution_for_kitty() {
    let (_temp_dir, paths) = mock_paths();
    let generator = KittyGenerator;
    let theme = "tokyonight";

    let expected_config_dir = paths.config.parent().unwrap().join("kitty");
    assert_eq!(generator.config_dir(&paths), expected_config_dir);

    let expected_config_path = expected_config_dir.join("kitty.conf");
    assert_eq!(generator.config_path(&paths), expected_config_path);

    let expected_cache_path = paths.generators.join("kitty/tokyonight.conf");
    assert_eq!(generator.cache_path(&paths, theme), expected_cache_path);

    let expected_link_path = expected_config_dir.join("current_theme.conf");
    assert_eq!(generator.link_path(&paths, theme), expected_link_path);

    assert_eq!(generator.active_link_path(&paths), Some(expected_link_path));
    assert_eq!(generator.template_path(), "terminals/kitty");
}

#[test]
fn should_return_health_error_missing_config_for_kitty() {
    let generator = KittyGenerator;
    if !generator.is_installed() {
        println!("Skipping integration test for 'kitty': application not installed.");
        return;
    }
    let (_, paths) = mock_paths();
    let status = generator.health_check(&paths, "test-theme", &empty_fs(), true);
    assert!(status.is_error(), "Expected Error, got: {}", status.message());
    assert!(status.contains("Configuration file missing"));
}

#[test]
fn should_return_metadata_for_wezterm() {
    let generator = WezTermGenerator;
    assert_eq!(generator.name(), "wezterm");
    assert_eq!(generator.generator_type(), GeneratorType::Terminal);
    assert_eq!(generator.target_file_name("gruvbox"), "gruvbox.lua");
}

#[test]
fn should_return_health_error_missing_config_for_wezterm() {
    let generator = WezTermGenerator;
    if !generator.is_installed() {
        println!("Skipping integration test for 'wezterm': application not installed.");
        return;
    }
    let (_, paths) = mock_paths();
    let status = generator.health_check(&paths, "test-theme", &empty_fs(), true);
    assert!(status.is_error(), "Expected Error, got: {}", status.message());
    assert!(status.contains("Configuration file missing"));
}

#[test]
fn should_return_metadata_for_bat() {
    let generator = BatGenerator;
    assert_eq!(generator.name(), "bat");
    assert_eq!(generator.generator_type(), GeneratorType::Tool);
    assert_eq!(generator.file_name("nord"), "nord.tmTheme");
}

#[test]
fn should_handle_path_resolution_for_bat() {
    let (_temp_dir, paths) = mock_paths();
    let generator = BatGenerator;
    let theme = "tokyonight";

    let expected_config_dir = generator.config_dir(&paths);
    assert_eq!(generator.config_dir(&paths), expected_config_dir);

    let expected_config_path = generator.config_path(&paths);
    assert_eq!(generator.config_path(&paths), expected_config_path);

    let expected_cache_path = paths.generators.join("bat/tokyonight.tmTheme");
    assert_eq!(generator.cache_path(&paths, theme), expected_cache_path);

    let expected_link_path = generator.theme_path(&paths, theme);
    assert!(expected_link_path.display().contains("tokyonight.tmTheme"));

    assert_eq!(generator.template_path(), "tools/bat");
}

#[test]
fn should_return_metadata_for_fzf() {
    let generator = FzfGenerator;
    assert_eq!(generator.name(), "fzf");
    assert_eq!(generator.generator_type(), GeneratorType::Tool);
    assert_eq!(generator.file_name("vesper"), "vesper.sh");
}

#[test]
fn should_handle_path_resolution_for_fzf() {
    let (_temp_dir, paths) = mock_paths();
    let generator = FzfGenerator;
    let theme = "tokyonight";

    let expected_zshrc = paths
        .config
        .parent()
        .unwrap()
        .parent()
        .unwrap()
        .join(".zshrc");
    assert_eq!(generator.zshrc_path(&paths), expected_zshrc);
    assert_eq!(generator.link_path(&paths, theme), expected_zshrc);

    let expected_cache_path = paths.generators.join("fzf/tokyonight.sh");
    assert_eq!(generator.cache_path(&paths, theme), expected_cache_path);

    assert_eq!(generator.template_path(), "tools/fzf");
}

#[test]
fn should_return_health_error_no_zshrc_for_fzf() {
    let generator = FzfGenerator;
    if !generator.is_installed() {
        println!("Skipping integration test for 'fzf': application not installed.");
        return;
    }
    let (_, paths) = mock_paths();
    let status = generator.health_check(&paths, "", &empty_fs(), true);

    assert!(status.is_error(), "Expected Error, got: {}", status.message());
}

#[test]
fn should_return_metadata_for_yazi() {
    let generator = YaziGenerator;
    assert_eq!(generator.name(), "yazi");
    assert_eq!(generator.generator_type(), GeneratorType::Tool);
    assert_eq!(generator.target_file_name("cattpuccin"), "cattpuccin.toml");
}
