use iris::toml_doc::{alacritty_diff_target, alacritty_general_editable};
use iris::diff::{bat_diff_target, BatTarget};
use iris::diff::{DiffDecision, DiffError};
use iris::render::{render_diff, render_groups, ChangeKind, LineChange};
use iris::{FsEntry, FsNode, FsPath, FsSnapshot, GeneratorKind, HostEnv, IrisPaths};

fn paths() -> IrisPaths {
    IrisPaths::under(&FsPath::new("/home/u"))
}

fn file(path: &str, content: &str) -> FsEntry {
    FsEntry { path: FsPath::new(path), node: FsNode::File(content.to_string()) }
}

#[test]
fn kitty_diff_puts_the_include_first() {
    let fs = FsSnapshot { entries: vec![file("/home/u/.config/kitty/kitty.conf", "font_size 12\ninclude old.conf")] };
    let d = GeneratorKind::Kitty.diff_decision(&paths(), &HostEnv::empty(), "nord", &fs).unwrap();
    assert_eq!(
        d,
        DiffDecision::Differs {
            path: FsPath::new("/home/u/.config/kitty/kitty.conf"),
            current: "font_size 12\ninclude old.conf".to_string(),
            target: "include current_theme.conf\nfont_size 12".to_string(),
        }
    );
}

#[test]
fn diff_finds_nothing_when_up_to_date() {
    let fs = FsSnapshot {
        entries: vec![file("/home/u/.config/btop/btop.conf", "color_theme = \"nord\"\nupdate_ms = 100\n")],
    };
    let d = GeneratorKind::Btop.diff_decision(&paths(), &HostEnv::empty(), "Nord", &fs).unwrap();
    assert_eq!(d, DiffDecision::Same);
    assert_eq!(GeneratorKind::Btop.diff(&paths(), &HostEnv::empty(), "Nord", &fs).unwrap(), None);
}

#[test]
fn diff_reports_a_missing_config() {
    let fs = FsSnapshot { entries: vec![] };
    assert_eq!(
        GeneratorKind::Tmux.diff_decision(&paths(), &HostEnv::empty(), "nord", &fs).unwrap(),
        DiffDecision::ConfigNotFound
    );
    let shown = GeneratorKind::Tmux.diff(&paths(), &HostEnv::empty(), "nord", &fs).unwrap().unwrap();
    assert!(shown.starts_with("  "));
    assert!(shown.contains("✘ Config file not found"));
}

#[test]
fn tmux_diff_replaces_theme_sources() {
    let fs = FsSnapshot {
        entries: vec![file("/home/u/.config/tmux/tmux.conf", "set -g mouse on\nsource-file \"~/.config/tmux/themes/old.conf\"")],
    };
    match GeneratorKind::Tmux.diff_decision(&paths(), &HostEnv::empty(), "", &fs).unwrap() {
        DiffDecision::Differs { target, .. } => {
            assert_eq!(target, "source-file \"~/.config/tmux/themes/default.conf\"\nset -g mouse on")
        }
        other => panic!("unexpected {:?}", other),
    }
}

#[test]
fn custom_comparisons_need_their_config() {
    let fs = FsSnapshot { entries: vec![] };
    assert_eq!(
        GeneratorKind::Alacritty.diff_decision(&paths(), &HostEnv::empty(), "nord", &fs),
        Ok(DiffDecision::ConfigNotFound)
    );
    assert_eq!(
        GeneratorKind::Bat.diff_decision(&paths(), &HostEnv::empty(), "nord", &fs),
        Ok(DiffDecision::ConfigNotFound)
    );
    assert_eq!(
        GeneratorKind::Yazi.diff_decision(&paths(), &HostEnv::empty(), "nord", &fs),
        Ok(DiffDecision::Same)
    );
}

#[test]
fn render_diff_numbers_the_changed_lines() {
    colored::control::set_override(false);
    let out = render_diff("a\nb\nc\n", "a\nB\nc\n");
    assert_eq!(out, "   1    1 │  a\n   2      │ -b\n        2 │ +B\n   3    3 │  c\n");
}

#[test]
fn render_diff_of_equal_texts_is_empty() {
    assert_eq!(render_diff("same\n", "same\n"), "");
}

#[test]
fn alacritty_diff_keeps_a_correct_import() {
    let ok = "[general]\nimport = [\"~/.config/alacritty/current_theme.toml\"]\n";
    assert_eq!(alacritty_diff_target(ok), Ok(None));
}

#[test]
fn alacritty_diff_moves_the_import_under_general() {
    let current = "[window]\nimport = [\"old.toml\"]\n\n[font]\nsize = 12\n";
    let t = alacritty_diff_target(current).unwrap().unwrap();
    assert!(t.contains("[general]"));
    assert!(t.contains("import = [\"~/.config/alacritty/current_theme.toml\"]"));
    assert!(!t.contains("old.toml"));
    assert!(t.contains("size = 12"));
}

#[test]
fn alacritty_diff_refuses_text_that_is_not_toml() {
    assert_eq!(alacritty_diff_target("[[[ nope"), Err(DiffError::InvalidToml));
    assert!(!alacritty_general_editable("general = 1"));
    assert!(alacritty_general_editable("[font]\nsize = 1"));
    let fs = FsSnapshot { entries: vec![file("/home/u/.config/alacritty/alacritty.toml", "general = 1")] };
    assert_eq!(
        GeneratorKind::Alacritty.diff_decision(&paths(), &HostEnv::empty(), "nord", &fs),
        Err(DiffError::NotATable)
    );
    let fs = FsSnapshot { entries: vec![file("/home/u/.config/alacritty/alacritty.toml", "[[[")] };
    assert_eq!(
        GeneratorKind::Alacritty.diff_decision(&paths(), &HostEnv::empty(), "nord", &fs),
        Err(DiffError::InvalidToml)
    );
}

#[test]
fn bat_diff_writes_bat_conf_first_then_the_shell_block() {
    let conf = "# [iris:begin:batconf]\n--theme=\"nord\"\n--style=\"numbers,changes\"\n--color=\"always\"\n# [iris:end:batconf]\n";
    assert_eq!(bat_diff_target("", "", "", "~/x"), None);
    assert_eq!(bat_diff_target("Nord", "", "", "~/.cache/iris/bin/bat.conf"), Some((BatTarget::BatConf, conf.to_string())));
    assert_eq!(bat_diff_target("Nord", conf, "", "~/.cache/iris/bin/bat.conf"), None);
    assert_eq!(
        bat_diff_target("Nord", conf, "export X=1", "~/.cache/iris/bin/bat.conf"),
        Some((
            BatTarget::Zshrc,
            "export X=1\n\n# [iris:begin:bat]\nexport BAT_CONFIG_PATH=~/.cache/iris/bin/bat.conf\n# [iris:end:bat]\n".to_string()
        ))
    );
}

#[test]
fn rendered_groups_are_numbered_and_separated() {
    use_render_groups();
}

fn use_render_groups() {
    colored::control::set_override(false);
    let line = |kind, o: Option<usize>, n: Option<usize>, v: &str| LineChange { kind, old_index: o, new_index: n, value: v.to_string() };
    let groups = vec![
        vec![line(ChangeKind::Equal, Some(0), Some(0), "a\n"), line(ChangeKind::Delete, Some(1), None, "b\n")],
        vec![line(ChangeKind::Insert, None, Some(9), "z\n")],
    ];
    assert_eq!(render_groups(&groups), "   1    1 │  a\n   2      │ -b\n\n       10 │ +z\n");
}
