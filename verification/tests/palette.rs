use iris::starship_palette::set_palette_key;
use iris::palette::{ColorKey, JsonField, Palette, PaletteError};
use iris::rules::CheckRule;
use iris::{BatGenerator, FsEntry, FsNode, FsPath, FsSnapshot, GeneratorKind, HealthStatus, HostEnv, Issue, IrisPaths, YaziGenerator};

#[test]
fn palette_errors_name_the_problem() {
    assert_eq!(Palette::parse_from_nvim("no json here").err(), Some(PaletteError::NoJsonObject));
    assert_eq!(Palette::parse_from_nvim("} {").err(), Some(PaletteError::NoJsonObject));
    assert_eq!(Palette::parse_from_nvim("{ not json }").err(), Some(PaletteError::InvalidJson));
    assert!(matches!(Palette::parse_from_nvim("{\"bg\": \"#000000\"}"), Err(PaletteError::MissingField(_))));
}

#[test]
fn color_keys_resolve_to_the_palette() {
    let p = Palette::mock();
    assert_eq!(ColorKey::Fg.resolve(&p), "#c0caf5");
    assert_eq!(ColorKey::TypeName.resolve(&p), "#2ac3de");
}

#[test]
fn bat_context_rules_follow_the_palette() {
    let p = Palette::mock();
    let rules = BatGenerator.enrich_context(&p);
    assert_eq!(rules.len(), 178);
    assert_eq!(rules[0].foreground, p.fg);
    assert_eq!(rules[0].style, None);
    assert_eq!(rules[2].name, "Comments");
    assert_eq!(rules[2].style, Some("italic".to_string()));
    assert_eq!(rules[2].foreground, p.comment);
}

#[test]
fn yazi_line_highlight_falls_back_to_the_selection() {
    let mut p = Palette::mock();
    assert_eq!(YaziGenerator.enrich_context(&p), "#292e42");
    p.line_hl = "#cccccc".to_string();
    assert_eq!(YaziGenerator.enrich_context(&p), "#334455");
}

#[test]
fn bat_theme_settings_start_with_the_global_colors() {
    let out = BatGenerator.build_config(&Palette::mock());
    assert!(out.contains("<key>background</key><string>#1a1b26</string>"));
    assert!(out.contains("<key>lineHighlight</key><string>#292e42</string>"));
}

#[test]
fn rule_checks_report_the_first_problem() {
    let paths = IrisPaths::under(&FsPath::new("/home/u"));
    let env = HostEnv::empty();
    let fs = FsSnapshot { entries: vec![] };
    let rules = vec![CheckRule::CacheExists, CheckRule::ConfigExists];
    assert_eq!(
        GeneratorKind::Kitty.check(&rules, &paths, &env, "nord", &fs, true, &[]),
        HealthStatus::Warning(Issue::CacheMissing)
    );
    assert_eq!(
        GeneratorKind::Kitty.check(&rules, &paths, &env, "", &fs, true, &[]),
        HealthStatus::Error(Issue::ConfigMissing)
    );
    assert_eq!(
        GeneratorKind::Kitty.check(&rules, &paths, &env, "", &fs, false, &[]),
        HealthStatus::Error(Issue::BinaryNotFound)
    );
    assert!(GeneratorKind::Kitty.check_rules().is_empty());
}

#[test]
fn env_rule_compares_the_shown_path() {
    let paths = IrisPaths::under(&FsPath::new("/home/u"));
    let fs = FsSnapshot { entries: vec![] };
    let rule = CheckRule::EnvValid { var_name: "BAT_CONFIG_PATH".to_string(), expected: FsPath::new("/x/bat.conf") };
    let good = vec![("BAT_CONFIG_PATH".to_string(), "/x/bat.conf".to_string())];
    assert_eq!(GeneratorKind::Bat.rule_status(&rule, &paths, &HostEnv::empty(), "", &fs, &good), HealthStatus::Good);
    assert_eq!(
        GeneratorKind::Bat.rule_status(&rule, &paths, &HostEnv::empty(), "", &fs, &[]),
        HealthStatus::Warning(Issue::EnvMismatch)
    );
}

#[test]
fn symlink_rule_checks_the_cache_target() {
    let paths = IrisPaths::under(&FsPath::new("/home/u"));
    let fs = FsSnapshot {
        entries: vec![
            FsEntry {
                path: FsPath::new("/home/u/.config/tmux/themes/nord.conf"),
                node: FsNode::Symlink(FsPath::new("/elsewhere/nord.conf")),
            },
            FsEntry { path: FsPath::new("/elsewhere/nord.conf"), node: FsNode::File(String::new()) },
        ],
    };
    assert_eq!(
        GeneratorKind::Tmux.rule_status(&CheckRule::SymlinkValid, &paths, &HostEnv::empty(), "nord", &fs, &[]),
        HealthStatus::Warning(Issue::CacheMismatch)
    );
}

#[test]
fn should_build_valid_render_context_for_yazi() {
    let mut theme = Palette::mock();

    theme.line_hl = "#123456".to_string();
    assert_eq!(YaziGenerator.enrich_context(&theme), "#123456");

    theme.line_hl = "#cccccc".to_string();
    theme.sel = "#ff0000".to_string();
    assert_eq!(YaziGenerator.enrich_context(&theme), "#ff0000");
}

#[test]
fn the_palette_key_is_inserted_where_no_line_assigns_it() {
    let out = set_palette_key("#palette =", "n");
    assert!(out.lines().any(|l| l == "palette = \"n\""));
    assert_eq!(out, "palette = \"n\"\n#palette =");
    assert_eq!(set_palette_key("a = 1\n  palette = \"old\"\nb = 2", "n"), "a = 1\npalette = \"n\"\nb = 2");
}

#[test]
fn a_palette_is_read_from_the_members_of_the_object() {
    assert_eq!(
        Palette::parse_from_nvim("{\"bg\": \"#000000\"}").err(),
        Some(PaletteError::MissingField("fg".to_string()))
    );
    let keys = [
        "bg", "fg", "caret", "line_hl", "sel", "gutter_fg", "comment", "variable", "constant", "number", "string",
        "keyword", "operator", "func", "type_name", "tag", "attribute", "white", "added", "changed", "deleted",
    ];
    let mut ms: Vec<(String, JsonField)> =
        keys.iter().map(|k| (k.to_string(), JsonField::Str(format!("#{}", k.len())))).collect();
    assert_eq!(Palette::from_members(&ms).err(), Some(PaletteError::MissingField("ansi".to_string())));
    ms.push(("ansi".to_string(), JsonField::List(vec![Some("#111111".to_string())])));
    let p = Palette::from_members(&ms).unwrap();
    assert_eq!(p.fg, "#2");
    assert_eq!(p.type_color, "#9");
    assert_eq!(p.ansi, vec!["#111111".to_string()]);
    assert_eq!(p.name, "");
}
