//! Applying a theme: what each application's configuration needs before the
//! theme goes in, the steps of the pipeline applications, and the operations
//! a strategy performs.

use vstd::prelude::*;
use crate::actions::{Action, ActionView, InjectionPosition, PositionView, action_views};
use crate::generators::{GeneratorKind, HostEnv, spec_zshrc_path, zshrc_path};
use crate::health::{FsSnapshot, fs_exists, fs_read};
use crate::paths::{FsPath, IrisPaths, PathView, display, join, parent};
use crate::state::string_views;
use crate::strategy::{PipelineStep, Strategy};
use crate::text::{
    chars_of, concat, concat3, contains, lowercase, replace, replace_exec, str_contains, string_of,
    to_lowercase, trim,
};

verus! {

/// `path.display()` with the home directory, where it is known, written `~`.
pub open spec fn spec_pretty_path(p: PathView, home: Option<Seq<char>>) -> Seq<char> {
    match home {
        Some(h) => replace(display(p), h, "~"@),
        None => display(p),
    }
}

/// The path as it is shown to the user: every occurrence of the home
/// directory replaced by `~`.
pub fn pretty_path(p: &FsPath, home: &Option<String>) -> (r: String)
    ensures
        r@ == spec_pretty_path(p@, match home {
            Some(h) => Some(h@),
            None => None,
        }),
{
    let shown = p.display();
    match home {
        Some(h) => {
            let out = replace_exec(&chars_of(shown.as_str()), &chars_of(h.as_str()), &chars_of("~"));
            string_of(&out)
        },
        None => shown,
    }
}

/// The home directory of the environment, as a value.
pub open spec fn home_of(env: HostEnv) -> Option<Seq<char>> {
    match env.home {
        Some(h) => Some(h@),
        None => None,
    }
}

/// The views of pipeline steps.
pub enum StepView {
    GenerateFile(Seq<char>, PathView),
    InjectBlock(PathView, Seq<char>, Seq<char>),
    RunCommand(Seq<char>, Seq<Seq<char>>, bool),
}

impl View for PipelineStep {
    type V = StepView;

    open spec fn view(&self) -> StepView {
        match self {
            PipelineStep::GenerateFile { template_name, destination } => StepView::GenerateFile(
                template_name@,
                destination@,
            ),
            PipelineStep::InjectBlock { file_path, marker, content } => StepView::InjectBlock(
                file_path@,
                marker@,
                content@,
            ),
            PipelineStep::RunCommand { program, args, silent } => StepView::RunCommand(
                program@,
                string_views(args@),
                *silent,
            ),
        }
    }
}

pub open spec fn step_views(v: Seq<PipelineStep>) -> Seq<StepView> {
    v.map_values(|s: PipelineStep| s@)
}

/// The `bat.conf` lines for a theme.
pub open spec fn bat_conf_body(lower: Seq<char>) -> Seq<char> {
    "--theme=\""@ + lower + "\"\n--style=\"numbers,changes\"\n--color=\"always\""@
}

/// The pipeline of an application themed by steps: bat writes its theme,
/// links it where bat looks, points `bat.conf` and `~/.zshrc` at it and
/// rebuilds bat's cache; fzf writes its script, sources it from `~/.zshrc`
/// and reloads the shell. Other applications have no steps.
pub open spec fn spec_pipeline_steps(kind: GeneratorKind, paths: IrisPaths, env: HostEnv, theme: Seq<char>) -> Seq<
    StepView,
> {
    match kind {
        GeneratorKind::Bat => {
            let lower = lowercase(theme);
            let cache = kind.spec_cache_path(paths, lower);
            let link = kind.spec_link_path(paths, env, lower);
            let conf = join(paths.bin@, "bat.conf"@);
            seq![
                StepView::GenerateFile("bat"@, cache),
                StepView::RunCommand("ln"@, seq!["-sf"@, display(cache), display(link)], false),
                StepView::InjectBlock(conf, "batconf"@, bat_conf_body(lower)),
                StepView::InjectBlock(
                    spec_zshrc_path(paths),
                    "bat"@,
                    "export BAT_CONFIG_PATH="@ + spec_pretty_path(conf, home_of(env)),
                ),
                StepView::RunCommand("bat"@, seq!["cache"@, "--build"@], true),
            ]
        },
        GeneratorKind::Fzf => {
            let cache = kind.spec_cache_path(paths, theme);
            let shown = spec_pretty_path(cache, home_of(env));
            seq![
                StepView::GenerateFile("fzf"@, cache),
                StepView::InjectBlock(
                    spec_zshrc_path(paths),
                    "fzf"@,
                    "[ -f "@ + shown + " ] && source "@ + shown,
                ),
                StepView::RunCommand("zsh"@, seq!["-c"@, "source ~/.zshrc"@], true),
            ]
        },
        _ => Seq::<StepView>::empty(),
    }
}

fn strings2(a: &str, b: &str) -> (r: Vec<String>)
    ensures
        string_views(r@) == seq![a@, b@],
{
    let mut v: Vec<String> = Vec::new();
    v.push(String::from_str(a));
    v.push(String::from_str(b));
    assert(string_views(v@) =~= seq![a@, b@]);
    v
}

fn strings3(a: &str, b: &str, c: &str) -> (r: Vec<String>)
    ensures
        string_views(r@) == seq![a@, b@, c@],
{
    let mut v: Vec<String> = Vec::new();
    v.push(String::from_str(a));
    v.push(String::from_str(b));
    v.push(String::from_str(c));
    assert(string_views(v@) =~= seq![a@, b@, c@]);
    v
}

/// The wezterm configuration written where none usable exists.
pub open spec fn wezterm_default_config() -> Seq<char> {
    "local has_iris, current_theme = pcall(require, \"current_theme\")\nlocal wezterm = require(\"wezterm\")\nlocal config = wezterm.config_builder()\n\nif has_iris and current_theme.colors then\n    config.colors = current_theme.colors\nend\n\nreturn config\n"@
}

/// The line that loads the theme module in wezterm's configuration.
pub open spec fn wezterm_loader() -> Seq<char> {
    "local has_iris, current_theme = pcall(require, \"current_theme\")"@
}

/// The block that hands the theme's colors to wezterm.
pub open spec fn wezterm_colors_block() -> Seq<char> {
    "if has_iris and current_theme.colors then\n    config.colors = current_theme.colors\nend"@
}

/// The line alacritty's configuration imports the theme with.
pub open spec fn alacritty_import() -> Seq<char> {
    "import = [\"~/.config/alacritty/current_theme.toml\"]"@
}

/// The file whose parent directory is created before a theme goes in, and
/// which the theme line is injected into.
pub open spec fn pre_apply_target(kind: GeneratorKind, paths: IrisPaths, env: HostEnv) -> PathView {
    let dir = kind.spec_config_dir(paths, env);
    match kind {
        GeneratorKind::Alacritty => join(dir, "alacritty.toml"@),
        GeneratorKind::WezTerm => join(dir, "wezterm.lua"@),
        GeneratorKind::Tmux => join(dir, "tmux.conf"@),
        GeneratorKind::Ghostty => join(dir, "config"@),
        GeneratorKind::Btop | GeneratorKind::Kitty => kind.spec_config_path(paths, env),
        _ => kind.spec_link_path(paths, env, ""@),
    }
}

/// Creating the parent directory of `p`, where it has one.
pub open spec fn make_parent(p: PathView) -> Seq<ActionView> {
    match parent(p) {
        Some(d) => seq![ActionView::CreateDirAll(d)],
        None => Seq::<ActionView>::empty(),
    }
}

/// What is done to an application's configuration before a theme is
/// applied, decided against the observed file system: the theme's line is
/// put at the top (or, for alacritty, after `[general]`) once the stale one
/// is dropped; wezterm gets a default configuration where it has none usable.
pub open spec fn spec_pre_apply(kind: GeneratorKind, paths: IrisPaths, env: HostEnv, theme: Seq<char>, es: crate::health::FsView) -> Seq<
    ActionView,
> {
    let cfg = pre_apply_target(kind, paths, env);
    let lower = lowercase(theme);
    match kind {
        GeneratorKind::Alacritty => make_parent(cfg) + seq![
            ActionView::InjectLine(cfg, alacritty_import(), PositionView::After("[general]"@)),
        ],
        GeneratorKind::WezTerm => {
            let content = match fs_read(es, cfg) {
                Some(c) => c,
                None => Seq::<char>::empty(),
            };
            if !fs_exists(es, cfg) || trim(content).len() == 0 || !contains(content, "wezterm"@) {
                make_parent(cfg) + seq![ActionView::WriteFile(cfg, wezterm_default_config())]
            } else {
                let marker = if contains(content, "return config"@) {
                    "return config"@
                } else {
                    "return"@
                };
                make_parent(cfg) + seq![
                    ActionView::InjectLine(cfg, wezterm_loader(), PositionView::Start),
                    ActionView::InjectLine(cfg, wezterm_colors_block(), PositionView::Before(marker)),
                ]
            }
        },
        GeneratorKind::Btop => make_parent(cfg) + make_parent(kind.spec_link_path(paths, env, theme)) + seq![
            ActionView::RemoveMarker(cfg, "color_theme"@),
            ActionView::InjectLine(cfg, "color_theme = \""@ + lower + "\""@, PositionView::Start),
        ],
        GeneratorKind::Tmux => make_parent(cfg) + seq![
            ActionView::RemoveMarker(cfg, "source-file \"~/.config/tmux/themes/"@),
            ActionView::InjectLine(
                cfg,
                "source-file \"~/.config/tmux/themes/"@ + lower + ".conf\""@,
                PositionView::Start,
            ),
        ],
        GeneratorKind::Herdr | GeneratorKind::Bottom => make_parent(cfg) + seq![
            ActionView::RemoveMarker(cfg, "# iris_theme:"@),
            ActionView::InjectLine(cfg, "# iris_theme: "@ + lower, PositionView::Start),
        ],
        GeneratorKind::Starship => make_parent(cfg) + seq![
            ActionView::RemoveKey(cfg, "palette"@),
            ActionView::InjectLine(cfg, "palette = \""@ + lower + "\""@, PositionView::Start),
        ],
        GeneratorKind::Ghostty => make_parent(cfg) + seq![
            ActionView::InjectLine(cfg, "config-file = "@ + kind.spec_file_name(""@), PositionView::Start),
        ],
        GeneratorKind::Kitty => make_parent(cfg) + seq![
            ActionView::InjectLine(cfg, "include "@ + kind.spec_file_name(""@), PositionView::Start),
        ],
        _ => Seq::<ActionView>::empty(),
    }
}

fn push_parent(acts: &mut Vec<Action>, p: &FsPath)
    ensures
        action_views(final(acts)@) == action_views(old(acts)@) + make_parent(p@),
{
    let ghost before = action_views(acts@);
    match p.parent() {
        Some(d) => {
            acts.push(Action::CreateDirAll(d));
            assert(action_views(acts@) =~= before + make_parent(p@));
        },
        None => {
            assert(action_views(acts@) =~= before + make_parent(p@));
        },
    }
}

fn push_action(acts: &mut Vec<Action>, a: Action)
    ensures
        action_views(final(acts)@) == action_views(old(acts)@).push(a@),
{
    let ghost before = action_views(acts@);
    acts.push(a);
    assert(action_views(acts@) =~= before.push(a@));
}

impl GeneratorKind {
    /// What is done to the application's configuration before `theme` is
    /// applied, decided against `fs`.
    pub fn pre_apply(&self, paths: &IrisPaths, env: &HostEnv, theme: &str, fs: &FsSnapshot) -> (r: Vec<Action>)
        ensures
            action_views(r@) == spec_pre_apply(*self, *paths, *env, theme@, fs@),
    {
        let dir = self.config_dir(paths, env);
        let cfg = match self {
            GeneratorKind::Alacritty => dir.join("alacritty.toml"),
            GeneratorKind::WezTerm => dir.join("wezterm.lua"),
            GeneratorKind::Tmux => dir.join("tmux.conf"),
            GeneratorKind::Ghostty => dir.join("config"),
            GeneratorKind::Btop | GeneratorKind::Kitty => self.config_path(paths, env),
            _ => self.link_path(paths, env, ""),
        };
        let lower = to_lowercase(theme);
        let mut acts: Vec<Action> = Vec::new();
        assert(action_views(acts@) =~= Seq::<ActionView>::empty());
        match self {
            GeneratorKind::Alacritty => {
                push_parent(&mut acts, &cfg);
                push_action(&mut acts, Action::InjectLine {
                    path: cfg,
                    line: String::from_str("import = [\"~/.config/alacritty/current_theme.toml\"]"),
                    position: InjectionPosition::After(String::from_str("[general]")),
                });
            },
            GeneratorKind::WezTerm => {
                let content = fs.read_or_empty(&cfg);
                let trimmed = crate::text::str_trim(content.as_str());
                push_parent(&mut acts, &cfg);
                if !fs.path_exists(&cfg) || trimmed.as_str().is_empty() || !str_contains(content.as_str(), "wezterm") {
                    push_action(&mut acts, Action::WriteFile {
                        path: cfg,
                        content: String::from_str("local has_iris, current_theme = pcall(require, \"current_theme\")\nlocal wezterm = require(\"wezterm\")\nlocal config = wezterm.config_builder()\n\nif has_iris and current_theme.colors then\n    config.colors = current_theme.colors\nend\n\nreturn config\n"),
                    });
                } else {
                    let marker = if str_contains(content.as_str(), "return config") {
                        String::from_str("return config")
                    } else {
                        String::from_str("return")
                    };
                    push_action(&mut acts, Action::InjectLine {
                        path: cfg.clone_path(),
                        line: String::from_str("local has_iris, current_theme = pcall(require, \"current_theme\")"),
                        position: InjectionPosition::Start,
                    });
                    push_action(&mut acts, Action::InjectLine {
                        path: cfg,
                        line: String::from_str("if has_iris and current_theme.colors then\n    config.colors = current_theme.colors\nend"),
                        position: InjectionPosition::Before(marker),
                    });
                }
            },
            GeneratorKind::Btop => {
                push_parent(&mut acts, &cfg);
                let link = self.link_path(paths, env, theme);
                push_parent(&mut acts, &link);
                push_action(&mut acts, Action::RemoveMarker { path: cfg.clone_path(), marker: String::from_str("color_theme") });
                push_action(&mut acts, Action::InjectLine {
                    path: cfg,
                    line: concat3("color_theme = \"", lower.as_str(), "\""),
                    position: InjectionPosition::Start,
                });
            },
            GeneratorKind::Tmux => {
                push_parent(&mut acts, &cfg);
                push_action(&mut acts, Action::RemoveMarker {
                    path: cfg.clone_path(),
                    marker: String::from_str("source-file \"~/.config/tmux/themes/"),
                });
                push_action(&mut acts, Action::InjectLine {
                    path: cfg,
                    line: concat3("source-file \"~/.config/tmux/themes/", lower.as_str(), ".conf\""),
                    position: InjectionPosition::Start,
                });
            },
            GeneratorKind::Herdr | GeneratorKind::Bottom => {
                push_parent(&mut acts, &cfg);
                push_action(&mut acts, Action::RemoveMarker { path: cfg.clone_path(), marker: String::from_str("# iris_theme:") });
                push_action(&mut acts, Action::InjectLine {
                    path: cfg,
                    line: concat("# iris_theme: ", lower.as_str()),
                    position: InjectionPosition::Start,
                });
            },
            GeneratorKind::Starship => {
                push_parent(&mut acts, &cfg);
                push_action(&mut acts, Action::RemoveKey { path: cfg.clone_path(), key: String::from_str("palette") });
                push_action(&mut acts, Action::InjectLine {
                    path: cfg,
                    line: concat3("palette = \"", lower.as_str(), "\""),
                    position: InjectionPosition::Start,
                });
            },
            GeneratorKind::Ghostty => {
                push_parent(&mut acts, &cfg);
                push_action(&mut acts, Action::InjectLine {
                    path: cfg,
                    line: concat("config-file = ", self.file_name("").as_str()),
                    position: InjectionPosition::Start,
                });
            },
            GeneratorKind::Kitty => {
                push_parent(&mut acts, &cfg);
                push_action(&mut acts, Action::InjectLine {
                    path: cfg,
                    line: concat("include ", self.file_name("").as_str()),
                    position: InjectionPosition::Start,
                });
            },
            _ => {},
        }
        proof {
            reveal_strlit("[general]");
            reveal_strlit("return config");
            reveal_strlit("return");
        }
        acts
    }

    /// The steps of the application's pipeline for `theme`.
    pub fn pipeline_steps(&self, paths: &IrisPaths, env: &HostEnv, theme: &str) -> (r: Vec<PipelineStep>)
        ensures
            step_views(r@) == spec_pipeline_steps(*self, *paths, *env, theme@),
    {
        let mut steps: Vec<PipelineStep> = Vec::new();
        match self {
            GeneratorKind::Bat => {
                let lower = to_lowercase(theme);
                let cache = self.cache_path(paths, lower.as_str());
                let link = self.link_path(paths, env, lower.as_str());
                let conf = paths.bin.join("bat.conf");
                let cache_shown = cache.display();
                let link_shown = link.display();
                steps.push(PipelineStep::GenerateFile { template_name: String::from_str("bat"), destination: cache });
                steps.push(PipelineStep::RunCommand {
                    program: String::from_str("ln"),
                    args: strings3("-sf", cache_shown.as_str(), link_shown.as_str()),
                    silent: false,
                });
                steps.push(PipelineStep::InjectBlock {
                    file_path: conf.clone_path(),
                    marker: String::from_str("batconf"),
                    content: concat3(
                        "--theme=\"",
                        lower.as_str(),
                        "\"\n--style=\"numbers,changes\"\n--color=\"always\"",
                    ),
                });
                let conf_shown = pretty_path(&conf, &env.home);
                steps.push(PipelineStep::InjectBlock {
                    file_path: zshrc_path(paths),
                    marker: String::from_str("bat"),
                    content: concat("export BAT_CONFIG_PATH=", conf_shown.as_str()),
                });
                steps.push(PipelineStep::RunCommand {
                    program: String::from_str("bat"),
                    args: strings2("cache", "--build"),
                    silent: true,
                });
                assert(step_views(steps@) =~= spec_pipeline_steps(*self, *paths, *env, theme@));
            },
            GeneratorKind::Fzf => {
                let cache = self.cache_path(paths, theme);
                let shown = pretty_path(&cache, &env.home);
                steps.push(PipelineStep::GenerateFile { template_name: String::from_str("fzf"), destination: cache });
                let mut content = concat3("[ -f ", shown.as_str(), " ] && source ");
                content.append(shown.as_str());
                steps.push(PipelineStep::InjectBlock {
                    file_path: zshrc_path(paths),
                    marker: String::from_str("fzf"),
                    content,
                });
                steps.push(PipelineStep::RunCommand {
                    program: String::from_str("zsh"),
                    args: strings2("-c", "source ~/.zshrc"),
                    silent: true,
                });
                assert(step_views(steps@) =~= spec_pipeline_steps(*self, *paths, *env, theme@));
            },
            _ => {
                assert(step_views(steps@) =~= Seq::<StepView>::empty());
            },
        }
        steps
    }
}

/// The operation a pipeline step is performed by: a generated file is copied
/// from the cache to its destination.
pub open spec fn step_action(s: StepView, cache: PathView) -> ActionView {
    match s {
        StepView::GenerateFile(_, d) => ActionView::CopyFile(cache, d),
        StepView::InjectBlock(p, m, c) => ActionView::InjectBlock(p, m, c),
        StepView::RunCommand(p, a, q) => ActionView::RunCommand(p, a, q),
    }
}

/// The operations a strategy performs for a generator called `name` whose
/// generated file is `cache` and whose configuration reads `link`; a
/// pipeline performs the generator's `steps`.
pub open spec fn spec_strategy_actions(
    strategy: Strategy,
    name: Seq<char>,
    steps: Seq<StepView>,
    cache: PathView,
    link: PathView,
) -> Seq<ActionView> {
    match strategy {
        Strategy::Symlink => seq![ActionView::Symlink(cache, link)],
        Strategy::StaticOverwrite => seq![ActionView::CopyFile(cache, link)],
        Strategy::Pipeline { steps: _ } => steps.map_values(|s: StepView| step_action(s, cache)),
        Strategy::InjectBlock { file: _ } => seq![ActionView::InjectFileBlock(cache, link, name)],
    }
}

impl Strategy {
    /// The operations that apply a theme by this strategy.
    pub fn apply(&self, name: &str, steps: Vec<PipelineStep>, cache_path: &FsPath, link_path: &FsPath) -> (r: Vec<Action>)
        ensures
            action_views(r@) == spec_strategy_actions(*self, name@, step_views(steps@), cache_path@, link_path@),
    {
        let mut acts: Vec<Action> = Vec::new();
        match self {
            Strategy::Symlink => {
                acts.push(Action::Symlink { target: cache_path.clone_path(), link: link_path.clone_path() });
                assert(action_views(acts@) =~= seq![ActionView::Symlink(cache_path@, link_path@)]);
            },
            Strategy::StaticOverwrite => {
                acts.push(Action::CopyFile { from: cache_path.clone_path(), to: link_path.clone_path() });
                assert(action_views(acts@) =~= seq![ActionView::CopyFile(cache_path@, link_path@)]);
            },
            Strategy::Pipeline { steps: _ } => {
                let ghost sv = step_views(steps@);
                let mut rest = steps;
                let mut n: usize = 0;
                let total = rest.len();
                while rest.len() > 0
                    invariant
                        n + rest@.len() == total,
                        total == sv.len(),
                        step_views(rest@) == sv.skip(n as int),
                        action_views(acts@) == sv.take(n as int).map_values(|s: StepView| step_action(s, cache_path@)),
                    decreases rest@.len(),
                {
                    let step = rest.remove(0);
                    assert(sv.skip(n as int)[0] == step@);
                    assert(sv.skip(n as int).drop_first() =~= sv.skip(n + 1));
                    let a = match step {
                        PipelineStep::GenerateFile { template_name: _, destination } => Action::CopyFile {
                            from: cache_path.clone_path(),
                            to: destination,
                        },
                        PipelineStep::InjectBlock { file_path, marker, content } => Action::InjectBlock {
                            path: file_path,
                            marker,
                            content,
                        },
                        PipelineStep::RunCommand { program, args, silent } => Action::RunCommand {
                            program,
                            args,
                            silent,
                        },
                    };
                    let ghost before = action_views(acts@);
                    acts.push(a);
                    assert(action_views(acts@) =~= before.push(step_action(sv[n as int], cache_path@)));
                    assert(sv.take(n + 1).map_values(|s: StepView| step_action(s, cache_path@)) =~= sv.take(
                        n as int,
                    ).map_values(|s: StepView| step_action(s, cache_path@)).push(step_action(sv[n as int], cache_path@)));
                    n = n + 1;
                }
                assert(sv.take(n as int) =~= sv);
            },
            Strategy::InjectBlock { file: _ } => {
                acts.push(Action::InjectFileBlock {
                    from: cache_path.clone_path(),
                    path: link_path.clone_path(),
                    marker: String::from_str(name),
                });
                assert(action_views(acts@) =~= seq![ActionView::InjectFileBlock(cache_path@, link_path@, name@)]);
            },
        }
        acts
    }
}


/// The operations that apply `theme` to the application by its strategy: a
/// link from its theme file to the cached one for the linked applications,
/// its pipeline's own steps for bat and fzf, and the cached block injected
/// into its configuration file for the others.
pub open spec fn spec_theme_actions(kind: GeneratorKind, paths: IrisPaths, env: HostEnv, theme: Seq<char>) -> Seq<
    ActionView,
> {
    let cache = kind.spec_cache_path(paths, theme);
    let link = kind.spec_link_path(paths, env, theme);
    match kind {
        GeneratorKind::Bat | GeneratorKind::Fzf => spec_pipeline_steps(kind, paths, env, theme).map_values(
            |st: StepView| step_action(st, cache),
        ),
        GeneratorKind::Starship | GeneratorKind::Bottom | GeneratorKind::Herdr => seq![
            ActionView::InjectFileBlock(cache, link, kind.spec_name()),
        ],
        _ => seq![ActionView::Symlink(cache, link)],
    }
}

impl GeneratorKind {
    /// The operations that apply `theme` to the application: its strategy
    /// run over its own pipeline steps, its cached file for `theme` and its
    /// theme file for `theme`.
    pub fn theme_actions(&self, paths: &IrisPaths, env: &HostEnv, theme: &str) -> (r: Vec<Action>)
        ensures
            action_views(r@) == spec_theme_actions(*self, *paths, *env, theme@),
    {
        let steps = self.pipeline_steps(paths, env, theme);
        let cache = self.cache_path(paths, theme);
        let link = self.link_path(paths, env, theme);
        let strategy = self.strategy();
        strategy.apply(self.name(), steps, &cache, &link)
    }
}

/// Before a theme is applied to tmux, every line of `tmux.conf` that sources
/// a theme file under `~/.config/tmux/themes/` is dropped, and only then is
/// the one line sourcing the new theme put at the top; nothing else is
/// injected. The text the removal leaves is made of lines none of which,
/// trimmed, starts with that `source-file` prefix, so the new line is the
/// only one that loads a theme.
pub proof fn lemma_tmux_keeps_one_theme_line(
    paths: IrisPaths,
    env: HostEnv,
    theme: Seq<char>,
    es: crate::health::FsView,
    content: Seq<char>,
)
    ensures
        ({
            let acts = spec_pre_apply(GeneratorKind::Tmux, paths, env, theme, es);
            let cfg = join(GeneratorKind::Tmux.spec_config_dir(paths, env), "tmux.conf"@);
            let prefix = "source-file \"~/.config/tmux/themes/"@;
            let line = prefix + lowercase(theme) + ".conf\""@;
            &&& exists|i: int, j: int|
                #![trigger acts[i], acts[j]]
                0 <= i < j < acts.len() && acts[i] == ActionView::RemoveMarker(cfg, prefix) && acts[j]
                    == ActionView::InjectLine(cfg, line, PositionView::Start)
                    && forall|k: int| 0 <= k < acts.len() && #[trigger] acts[k] is InjectLine ==> k == j
        }),
        ({
            let prefix = "source-file \"~/.config/tmux/themes/"@;
            let kept = crate::strings::lines_without(crate::text::lines(content), prefix);
            &&& crate::strings::spec_drop_lines(content, prefix) == crate::text::join(kept, "\n"@)
            &&& forall|k: int| 0 <= k < kept.len() ==> !crate::text::starts_with(trim(#[trigger] kept[k]), prefix)
        }),
{
    let acts = spec_pre_apply(GeneratorKind::Tmux, paths, env, theme, es);
    let cfg = join(GeneratorKind::Tmux.spec_config_dir(paths, env), "tmux.conf"@);
    let prefix = "source-file \"~/.config/tmux/themes/"@;
    let line = prefix + lowercase(theme) + ".conf\""@;
    let mp = make_parent(cfg);
    assert(acts =~= mp + seq![
        ActionView::RemoveMarker(cfg, prefix),
        ActionView::InjectLine(cfg, line, PositionView::Start),
    ]);
    let i = mp.len() as int;
    let j = i + 1;
    assert(acts[i] == ActionView::RemoveMarker(cfg, prefix));
    assert(acts[j] == ActionView::InjectLine(cfg, line, PositionView::Start));
    assert forall|k: int| 0 <= k < acts.len() && #[trigger] acts[k] is InjectLine implies k == j by {
        if k < i {
            assert(acts[k] == mp[k]);
        }
    }
    crate::strings::lemma_lines_without_drops(crate::text::lines(content), prefix);
}
} // verus!
