use iris::setup::{HookPlan, Setup};
use iris::theme::{LoadPlan, ThemeError, ThemeService};
use iris::{FsEntry, FsNode, FsPath, FsSnapshot, IrisPaths};

fn service() -> ThemeService {
    ThemeService::new(IrisPaths::under(&FsPath::new("/home/u")))
}

fn with_current(content: &str) -> FsSnapshot {
    FsSnapshot {
        entries: vec![FsEntry {
            path: FsPath::new("/home/u/.cache/iris/core/current_theme"),
            node: FsNode::File(content.to_string()),
        }],
    }
}

#[test]
fn current_theme_is_trimmed_and_capitalized() {
    assert_eq!(service().current(&with_current("  melange\n")), Ok("Melange".to_string()));
}

#[test]
fn current_theme_errors() {
    assert_eq!(service().current(&with_current("    ")), Err(ThemeError::EmptyCache));
    assert_eq!(service().current(&FsSnapshot { entries: vec![] }), Err(ThemeError::NoActiveTheme));
    assert_eq!(ThemeError::EmptyCache.message(), "Theme cache is empty!");
    assert!(ThemeError::NoActiveTheme.message().starts_with("No active theme detected.\n"));
}

#[test]
fn sync_status_compares_ignoring_ascii_case() {
    assert_eq!(service().sync_status("NORD", &with_current("nord")), ("NORD".to_string(), true));
    assert_eq!(service().sync_status("nord", &with_current("dracula")), ("Dracula".to_string(), false));
    assert_eq!(
        service().sync_status("nord", &FsSnapshot { entries: vec![] }),
        ("Unknown".to_string(), false)
    );
}

#[test]
fn load_plans() {
    let s = service();
    let builtins = ["habamax", "desert"];
    assert_eq!(s.load_theme("Vesper", false, true, true, &builtins), LoadPlan::UseCache);
    assert_eq!(s.load_theme("Vesper", true, true, true, &builtins), LoadPlan::UseCacheExternal);
    assert_eq!(s.load_theme("Vesper", true, false, true, &builtins), LoadPlan::Refuse);
    assert_eq!(s.load_theme("Habamax", true, true, true, &builtins), LoadPlan::Fetch { bypassed: true });
    assert_eq!(s.load_theme("Vesper", false, false, false, &builtins), LoadPlan::Fetch { bypassed: false });
}

#[test]
fn theme_existence() {
    let s = service();
    let builtins = ["habamax"];
    assert_eq!(s.theme_exists("x", false, true, true, &builtins), Some(false));
    assert_eq!(s.theme_exists("x", true, true, false, &builtins), Some(true));
    assert_eq!(s.theme_exists("HABAMAX", true, false, true, &builtins), Some(true));
    assert_eq!(s.theme_exists("x", true, false, false, &builtins), None);
}

#[test]
fn themes_fall_back_to_builtins() {
    let s = service();
    assert_eq!(s.themes(Some(vec!["a".to_string()]), &["b"]), (vec!["a".to_string()], false));
    assert_eq!(s.themes(Some(vec![]), &["b"]), (vec!["b".to_string()], true));
    assert_eq!(s.themes(None, &["b", "c"]), (vec!["b".to_string(), "c".to_string()], true));
}

#[test]
fn zsh_hook_plans() {
    let home = FsPath::new("/home/u");
    assert_eq!(Setup::setup_zsh_hook(&home, &FsSnapshot { entries: vec![] }), Ok(HookPlan::NoZshrc));
    let present = FsSnapshot {
        entries: vec![FsEntry {
            path: FsPath::new("/home/u/.zshrc"),
            node: FsNode::File("x\n# --- Iris FZF Sync ---\n".to_string()),
        }],
    };
    assert_eq!(Setup::setup_zsh_hook(&home, &present), Ok(HookPlan::AlreadyPresent));
    let bare = FsSnapshot {
        entries: vec![FsEntry { path: FsPath::new("/home/u/.zshrc"), node: FsNode::File("x".to_string()) }],
    };
    match Setup::setup_zsh_hook(&home, &bare) {
        Ok(HookPlan::Append { zshrc, text }) => {
            assert_eq!(zshrc, FsPath::new("/home/u/.zshrc"));
            assert!(text.starts_with("\n\n# --- Iris FZF Sync ---\n"));
            assert!(text.contains("local cache_file=\"/home/u/.cache/iris/fzf.sh\""));
            assert!(text.ends_with("# ---------------------\n\n\n"));
        }
        other => panic!("unexpected {:?}", other),
    }
}

#[test]
fn initial_generators() {
    assert_eq!(Setup::initial_enabled(true, true, true, true), vec!["ghostty", "fzf", "bat"]);
    assert_eq!(Setup::initial_enabled(true, false, false, true), vec!["bat"]);
    assert!(Setup::initial_enabled(false, true, false, false).is_empty());
}
