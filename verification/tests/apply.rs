use iris::actions::{Action, InjectionPosition};
use iris::apply::pretty_path;
use iris::{FsEntry, FsNode, FsPath, FsSnapshot, GeneratorKind, HostEnv, IrisPaths, PipelineStep, Strategy};

fn paths() -> IrisPaths {
    IrisPaths::under(&FsPath::new("/home/u"))
}

fn p(s: &str) -> FsPath {
    FsPath::new(s)
}

fn env_home() -> HostEnv {
    HostEnv { home: Some("/home/u".to_string()), starship_config: None, bat_config_path: None }
}

#[test]
fn should_handle_pretty_path_function() {
    let home = "/home/u".to_string();
    let path = p("/home/u").join(".cache/iris");
    assert_eq!(pretty_path(&path, &Some(home)), "~/.cache/iris");
    assert_eq!(pretty_path(&path, &None), "/home/u/.cache/iris");
}

#[test]
fn btop_pre_apply_drops_the_old_key_and_puts_the_theme_first() {
    let fs = FsSnapshot { entries: vec![] };
    let plan = GeneratorKind::Btop.pre_apply(&paths(), &HostEnv::empty(), "Nord", &fs);
    assert_eq!(
        plan,
        vec![
            Action::CreateDirAll(p("/home/u/.config/btop")),
            Action::CreateDirAll(p("/home/u/.config/btop/themes")),
            Action::RemoveMarker { path: p("/home/u/.config/btop/btop.conf"), marker: "color_theme".to_string() },
            Action::InjectLine {
                path: p("/home/u/.config/btop/btop.conf"),
                line: "color_theme = \"nord\"".to_string(),
                position: InjectionPosition::Start,
            },
        ]
    );
}

#[test]
fn wezterm_pre_apply_writes_a_default_config_where_none_is_usable() {
    let fs = FsSnapshot { entries: vec![] };
    let plan = GeneratorKind::WezTerm.pre_apply(&paths(), &HostEnv::empty(), "nord", &fs);
    assert_eq!(plan.len(), 2);
    match &plan[1] {
        Action::WriteFile { path, content } => {
            assert_eq!(path, &p("/home/u/.config/wezterm/wezterm.lua"));
            assert!(content.starts_with("local has_iris, current_theme"));
            assert!(content.ends_with("return config\n"));
        }
        other => panic!("unexpected {:?}", other),
    }
}

#[test]
fn wezterm_pre_apply_injects_into_an_existing_config() {
    let fs = FsSnapshot {
        entries: vec![FsEntry {
            path: p("/home/u/.config/wezterm/wezterm.lua"),
            node: FsNode::File("local wezterm = require 'wezterm'\nreturn {}".to_string()),
        }],
    };
    let plan = GeneratorKind::WezTerm.pre_apply(&paths(), &HostEnv::empty(), "nord", &fs);
    assert_eq!(plan.len(), 3);
    assert_eq!(
        plan[2],
        Action::InjectLine {
            path: p("/home/u/.config/wezterm/wezterm.lua"),
            line: "if has_iris and current_theme.colors then\n    config.colors = current_theme.colors\nend".to_string(),
            position: InjectionPosition::Before("return".to_string()),
        }
    );
}

#[test]
fn alacritty_pre_apply_imports_after_general() {
    let fs = FsSnapshot { entries: vec![] };
    let plan = GeneratorKind::Alacritty.pre_apply(&paths(), &HostEnv::empty(), "nord", &fs);
    assert_eq!(
        plan[1],
        Action::InjectLine {
            path: p("/home/u/.config/alacritty/alacritty.toml"),
            line: "import = [\"~/.config/alacritty/current_theme.toml\"]".to_string(),
            position: InjectionPosition::After("[general]".to_string()),
        }
    );
}

#[test]
fn yazi_has_nothing_to_prepare() {
    let fs = FsSnapshot { entries: vec![] };
    assert!(GeneratorKind::Yazi.pre_apply(&paths(), &HostEnv::empty(), "nord", &fs).is_empty());
}

#[test]
fn fzf_pipeline_sources_its_script() {
    let steps = GeneratorKind::Fzf.pipeline_steps(&paths(), &env_home(), "nord");
    assert_eq!(
        steps,
        vec![
            PipelineStep::GenerateFile {
                template_name: "fzf".to_string(),
                destination: p("/home/u/.cache/iris/generators/fzf/nord.sh"),
            },
            PipelineStep::InjectBlock {
                file_path: p("/home/u/.zshrc"),
                marker: "fzf".to_string(),
                content: "[ -f ~/.cache/iris/generators/fzf/nord.sh ] && source ~/.cache/iris/generators/fzf/nord.sh"
                    .to_string(),
            },
            PipelineStep::RunCommand {
                program: "zsh".to_string(),
                args: vec!["-c".to_string(), "source ~/.zshrc".to_string()],
                silent: true,
            },
        ]
    );
}

#[test]
fn bat_pipeline_links_and_configures() {
    let steps = GeneratorKind::Bat.pipeline_steps(&paths(), &env_home(), "Nord");
    assert_eq!(steps.len(), 5);
    assert_eq!(
        steps[1],
        PipelineStep::RunCommand {
            program: "ln".to_string(),
            args: vec![
                "-sf".to_string(),
                "/home/u/.cache/iris/generators/bat/nord.tmTheme".to_string(),
                "/home/u/.config/bat/themes/nord.tmTheme".to_string(),
            ],
            silent: false,
        }
    );
    assert_eq!(
        steps[3],
        PipelineStep::InjectBlock {
            file_path: p("/home/u/.zshrc"),
            marker: "bat".to_string(),
            content: "export BAT_CONFIG_PATH=~/.cache/iris/bin/bat.conf".to_string(),
        }
    );
}

#[test]
fn strategies_become_operations() {
    let cache = p("/c/f");
    let link = p("/l/f");
    assert_eq!(
        Strategy::Symlink.apply("x", vec![], &cache, &link),
        vec![Action::Symlink { target: cache.clone(), link: link.clone() }]
    );
    assert_eq!(
        Strategy::InjectBlock { file: "f".to_string() }.apply("herdr", vec![], &cache, &link),
        vec![Action::InjectFileBlock { from: cache.clone(), path: link.clone(), marker: "herdr".to_string() }]
    );
    let steps = vec![PipelineStep::GenerateFile { template_name: "t".to_string(), destination: p("/d") }];
    assert_eq!(
        Strategy::Pipeline { steps: vec![] }.apply("x", steps, &cache, &link),
        vec![Action::CopyFile { from: cache.clone(), to: p("/d") }]
    );
}

#[test]
fn applying_a_theme_runs_the_strategy_over_the_applications_own_steps() {
    let env = HostEnv::empty();
    let kitty = GeneratorKind::Kitty;
    assert_eq!(
        kitty.theme_actions(&paths(), &env, "nord"),
        vec![Action::Symlink { target: kitty.cache_path(&paths(), "nord"), link: kitty.link_path(&paths(), &env, "nord") }]
    );
    let fzf = GeneratorKind::Fzf;
    let steps = fzf.pipeline_steps(&paths(), &env, "nord");
    let acts = fzf.theme_actions(&paths(), &env, "nord");
    assert_eq!(acts.len(), steps.len());
    assert_eq!(acts, Strategy::Pipeline { steps: vec![] }.apply("fzf", steps, &fzf.cache_path(&paths(), "nord"), &fzf.link_path(&paths(), &env, "nord")));
}
