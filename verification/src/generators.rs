//! The supported applications: their names, categories, and the files a theme
//! is written to and read from.

use vstd::prelude::*;
use vstd::string::*;
use crate::kinds::GeneratorType;
use crate::paths::{FsPath, IrisPaths, PathView, join, parent, parent_or_self, path_of};
use crate::strategy::{ConfigSource, Strategy, cache_path_for, config_dir, config_path, spec_cache_path};
use crate::text::{concat, concat3, lowercase, str_eq, to_lowercase};

verus! {

/// Environment values that some generators consult.
#[derive(Debug, Clone)]
pub struct HostEnv {
    /// `HOME`
    pub home: Option<String>,
    /// `STARSHIP_CONFIG`
    pub starship_config: Option<String>,
    /// `BAT_CONFIG_PATH`
    pub bat_config_path: Option<String>,
}

/// The environment with no variable set.
pub open spec fn no_env() -> HostEnv {
    HostEnv { home: None, starship_config: None, bat_config_path: None }
}

impl HostEnv {
    /// No variable set.
    pub fn empty() -> (r: HostEnv)
        ensures
            r == no_env(),
    {
        HostEnv { home: None, starship_config: None, bat_config_path: None }
    }
}

/// A supported application.
#[derive(Debug, Clone, Copy, PartialEq, Eq, Structural)]
pub enum GeneratorKind {
    Alacritty,
    Ghostty,
    Kitty,
    WezTerm,
    Starship,
    Bat,
    Yazi,
    Fzf,
    Btop,
    Bottom,
    Tmux,
    Herdr,
}

/// `~/.zshrc` as seen from the layout: two levels above the tool's
/// configuration directory, or inside it where it has fewer levels.
pub open spec fn spec_zshrc_path(paths: IrisPaths) -> PathView {
    let base = match parent(paths.config@) {
        Some(p) => match parent(p) {
            Some(g) => g,
            None => paths.config@,
        },
        None => paths.config@,
    };
    join(base, ".zshrc"@)
}

/// The shell startup file the tool injects into.
pub fn zshrc_path(paths: &IrisPaths) -> (r: FsPath)
    ensures
        r@ == spec_zshrc_path(*paths),
{
    let base = match paths.config.parent() {
        Some(p) => match p.parent() {
            Some(g) => g,
            None => paths.config.clone_path(),
        },
        None => paths.config.clone_path(),
    };
    base.join(".zshrc")
}

/// `<theme lowercased><ext>`, or `empty_name` for an empty theme.
pub open spec fn themed_name(theme: Seq<char>, empty_name: Seq<char>, ext: Seq<char>) -> Seq<char> {
    if theme.len() == 0 {
        empty_name
    } else {
        lowercase(theme) + ext
    }
}

fn themed_name_exec(theme: &str, empty_name: &str, ext: &str) -> (r: String)
    ensures
        r@ == themed_name(theme@, empty_name@, ext@),
{
    if theme.is_empty() {
        String::from_str(empty_name)
    } else {
        let l = to_lowercase(theme);
        concat(l.as_str(), ext)
    }
}

impl GeneratorKind {
    /// Every supported application.
    pub open spec fn spec_all() -> Seq<GeneratorKind> {
        seq![
            GeneratorKind::Alacritty,
            GeneratorKind::Ghostty,
            GeneratorKind::Kitty,
            GeneratorKind::WezTerm,
            GeneratorKind::Starship,
            GeneratorKind::Bat,
            GeneratorKind::Yazi,
            GeneratorKind::Fzf,
            GeneratorKind::Btop,
            GeneratorKind::Bottom,
            GeneratorKind::Tmux,
            GeneratorKind::Herdr,
        ]
    }

    pub open spec fn spec_name(self) -> Seq<char> {
        match self {
            GeneratorKind::Alacritty => "alacritty"@,
            GeneratorKind::Ghostty => "ghostty"@,
            GeneratorKind::Kitty => "kitty"@,
            GeneratorKind::WezTerm => "wezterm"@,
            GeneratorKind::Starship => "starship"@,
            GeneratorKind::Bat => "bat"@,
            GeneratorKind::Yazi => "yazi"@,
            GeneratorKind::Fzf => "fzf"@,
            GeneratorKind::Btop => "btop"@,
            GeneratorKind::Bottom => "bottom"@,
            GeneratorKind::Tmux => "tmux"@,
            GeneratorKind::Herdr => "herdr"@,
        }
    }

    /// Unique name of the generator.
    pub fn name(&self) -> (r: &'static str)
        ensures
            r@ == self.spec_name(),
    {
        match self {
            GeneratorKind::Alacritty => "alacritty",
            GeneratorKind::Ghostty => "ghostty",
            GeneratorKind::Kitty => "kitty",
            GeneratorKind::WezTerm => "wezterm",
            GeneratorKind::Starship => "starship",
            GeneratorKind::Bat => "bat",
            GeneratorKind::Yazi => "yazi",
            GeneratorKind::Fzf => "fzf",
            GeneratorKind::Btop => "btop",
            GeneratorKind::Bottom => "bottom",
            GeneratorKind::Tmux => "tmux",
            GeneratorKind::Herdr => "herdr",
        }
    }

    pub open spec fn spec_type(self) -> GeneratorType {
        match self {
            GeneratorKind::Alacritty => GeneratorType::Terminal,
            GeneratorKind::Ghostty => GeneratorType::Terminal,
            GeneratorKind::Kitty => GeneratorType::Terminal,
            GeneratorKind::WezTerm => GeneratorType::Terminal,
            GeneratorKind::Starship => GeneratorType::Prompt,
            GeneratorKind::Bat => GeneratorType::Tool,
            GeneratorKind::Yazi => GeneratorType::Tool,
            GeneratorKind::Fzf => GeneratorType::Tool,
            GeneratorKind::Btop => GeneratorType::System,
            GeneratorKind::Bottom => GeneratorType::System,
            GeneratorKind::Tmux => GeneratorType::Multiplexer,
            GeneratorKind::Herdr => GeneratorType::Multiplexer,
        }
    }

    /// Category of the generator.
    pub fn generator_type(&self) -> (r: GeneratorType)
        ensures
            r == self.spec_type(),
    {
        match self {
            GeneratorKind::Alacritty => GeneratorType::Terminal,
            GeneratorKind::Ghostty => GeneratorType::Terminal,
            GeneratorKind::Kitty => GeneratorType::Terminal,
            GeneratorKind::WezTerm => GeneratorType::Terminal,
            GeneratorKind::Starship => GeneratorType::Prompt,
            GeneratorKind::Bat => GeneratorType::Tool,
            GeneratorKind::Yazi => GeneratorType::Tool,
            GeneratorKind::Fzf => GeneratorType::Tool,
            GeneratorKind::Btop => GeneratorType::System,
            GeneratorKind::Bottom => GeneratorType::System,
            GeneratorKind::Tmux => GeneratorType::Multiplexer,
            GeneratorKind::Herdr => GeneratorType::Multiplexer,
        }
    }

    /// The kind with the given name.
    pub fn from_name(name: &str) -> (r: Option<GeneratorKind>)
        ensures
            r matches Some(k) ==> k.spec_name() == name@,
            r is None ==> forall|k: GeneratorKind| k.spec_name() != name@,
    {
        let all = [
            GeneratorKind::Alacritty,
            GeneratorKind::Ghostty,
            GeneratorKind::Kitty,
            GeneratorKind::WezTerm,
            GeneratorKind::Starship,
            GeneratorKind::Bat,
            GeneratorKind::Yazi,
            GeneratorKind::Fzf,
            GeneratorKind::Btop,
            GeneratorKind::Bottom,
            GeneratorKind::Tmux,
            GeneratorKind::Herdr,
        ];
        let mut i: usize = 0;
        while i < 12
            invariant
                i <= 12,
                all@ == Self::spec_all(),
                forall|j: int| 0 <= j < i ==> all@[j].spec_name() != name@,
            decreases 12 - i,
        {
            let k = all[i];
            if str_eq(k.name(), name) {
                return Some(k);
            }
            i = i + 1;
        }
        proof {
            assert forall|k: GeneratorKind| k.spec_name() != name@ by {
                assert(Self::spec_all().contains(k)) by {
                    match k {
                        GeneratorKind::Alacritty => assert(Self::spec_all()[0] == k),
                        GeneratorKind::Ghostty => assert(Self::spec_all()[1] == k),
                        GeneratorKind::Kitty => assert(Self::spec_all()[2] == k),
                        GeneratorKind::WezTerm => assert(Self::spec_all()[3] == k),
                        GeneratorKind::Starship => assert(Self::spec_all()[4] == k),
                        GeneratorKind::Bat => assert(Self::spec_all()[5] == k),
                        GeneratorKind::Yazi => assert(Self::spec_all()[6] == k),
                        GeneratorKind::Fzf => assert(Self::spec_all()[7] == k),
                        GeneratorKind::Btop => assert(Self::spec_all()[8] == k),
                        GeneratorKind::Bottom => assert(Self::spec_all()[9] == k),
                        GeneratorKind::Tmux => assert(Self::spec_all()[10] == k),
                        GeneratorKind::Herdr => assert(Self::spec_all()[11] == k),
                    }
                }
            }
        }
        None
    }

    /// The program looked up on `PATH` to decide whether the application is installed.
    pub open spec fn spec_binary(self) -> Seq<char> {
        match self {
            GeneratorKind::Bottom => "btm"@,
            _ => self.spec_name(),
        }
    }

    pub fn binary(&self) -> (r: &'static str)
        ensures
            r@ == self.spec_binary(),
    {
        match self {
            GeneratorKind::Bottom => "btm",
            _ => self.name(),
        }
    }

    /// Whether the application's program is found on `PATH`.
    pub fn is_installed(&self) -> bool {
        program_on_path(self.binary())
    }

    pub open spec fn spec_base_file_name(self) -> Seq<char> {
        match self {
            GeneratorKind::Alacritty => "alacritty.toml"@,
            GeneratorKind::Ghostty => "config"@,
            GeneratorKind::Kitty => "kitty.conf"@,
            GeneratorKind::WezTerm => "wezterm.lua"@,
            GeneratorKind::Starship => "starship.toml"@,
            GeneratorKind::Bat => "config"@,
            GeneratorKind::Yazi => "yazi.toml"@,
            GeneratorKind::Fzf => "fzf.sh"@,
            GeneratorKind::Btop => "btop.conf"@,
            GeneratorKind::Bottom => "bottom.toml"@,
            GeneratorKind::Tmux => "tmux.conf"@,
            GeneratorKind::Herdr => "config.toml"@,
        }
    }

    /// Name of the application's main configuration file.
    pub fn base_file_name(&self) -> (r: String)
        ensures
            r@ == self.spec_base_file_name(),
    {
        let s = match self {
            GeneratorKind::Alacritty => "alacritty.toml",
            GeneratorKind::Ghostty => "config",
            GeneratorKind::Kitty => "kitty.conf",
            GeneratorKind::WezTerm => "wezterm.lua",
            GeneratorKind::Starship => "starship.toml",
            GeneratorKind::Bat => "config",
            GeneratorKind::Yazi => "yazi.toml",
            GeneratorKind::Fzf => "fzf.sh",
            GeneratorKind::Btop => "btop.conf",
            GeneratorKind::Bottom => "bottom.toml",
            GeneratorKind::Tmux => "tmux.conf",
            GeneratorKind::Herdr => "config.toml",
        };
        String::from_str(s)
    }

    pub open spec fn spec_file_name(self, theme: Seq<char>) -> Seq<char> {
        match self {
            GeneratorKind::Alacritty => themed_name(theme, "current_theme.toml"@, ".toml"@),
            GeneratorKind::Ghostty => themed_name(theme, "current_theme.conf"@, ".conf"@),
            GeneratorKind::Kitty => themed_name(theme, "current_theme.conf"@, ".conf"@),
            GeneratorKind::WezTerm => themed_name(theme, "current_theme.lua"@, ".lua"@),
            GeneratorKind::Starship => "starship.toml"@,
            GeneratorKind::Bat => theme + ".tmTheme"@,
            GeneratorKind::Yazi => themed_name(theme, "theme.toml"@, ".toml"@),
            GeneratorKind::Fzf => lowercase(theme) + ".sh"@,
            GeneratorKind::Btop => lowercase(theme) + ".theme"@,
            GeneratorKind::Bottom => "bottom.toml"@,
            GeneratorKind::Tmux => theme + ".conf"@,
            GeneratorKind::Herdr => "config.toml"@,
        }
    }

    /// Name of the generated theme file for `theme`.
    pub fn file_name(&self, theme: &str) -> (r: String)
        ensures
            r@ == self.spec_file_name(theme@),
    {
        match self {
            GeneratorKind::Alacritty => themed_name_exec(theme, "current_theme.toml", ".toml"),
            GeneratorKind::Ghostty => themed_name_exec(theme, "current_theme.conf", ".conf"),
            GeneratorKind::Kitty => themed_name_exec(theme, "current_theme.conf", ".conf"),
            GeneratorKind::WezTerm => themed_name_exec(theme, "current_theme.lua", ".lua"),
            GeneratorKind::Starship => String::from_str("starship.toml"),
            GeneratorKind::Bat => concat(theme, ".tmTheme"),
            GeneratorKind::Yazi => themed_name_exec(theme, "theme.toml", ".toml"),
            GeneratorKind::Fzf => concat(to_lowercase(theme).as_str(), ".sh"),
            GeneratorKind::Btop => concat(to_lowercase(theme).as_str(), ".theme"),
            GeneratorKind::Bottom => String::from_str("bottom.toml"),
            GeneratorKind::Tmux => concat(theme, ".conf"),
            GeneratorKind::Herdr => String::from_str("config.toml"),
        }
    }

    /// Where the configuration comes from: `STARSHIP_CONFIG` names starship's
    /// file where it is set; every other application uses its default directory.
    pub fn config_source(&self, env: &HostEnv) -> (r: ConfigSource)
        ensures
            match r {
                ConfigSource::File(p) => *self == GeneratorKind::Starship && (
                env.starship_config matches Some(s) && p@ == path_of(s@)),
                ConfigSource::Default => !(*self == GeneratorKind::Starship
                    && env.starship_config is Some),
                ConfigSource::Dir(_) => false,
            },
    {
        match (self, &env.starship_config) {
            (GeneratorKind::Starship, Some(p)) => ConfigSource::File(FsPath::new(p.as_str())),
            _ => ConfigSource::Default,
        }
    }

    pub open spec fn spec_config_dir(self, paths: IrisPaths, env: HostEnv) -> PathView {
        match (self, env.starship_config) {
            (GeneratorKind::Starship, Some(s)) => parent_or_self(path_of(s@)),
            _ => join(parent_or_self(paths.config@), self.spec_name()),
        }
    }

    /// The application's configuration directory.
    pub fn config_dir(&self, paths: &IrisPaths, env: &HostEnv) -> (r: FsPath)
        ensures
            r@ == self.spec_config_dir(*paths, *env),
    {
        let source = self.config_source(env);
        config_dir(&source, paths, self.name())
    }

    pub open spec fn spec_config_path(self, paths: IrisPaths, env: HostEnv) -> PathView {
        match (self, env.starship_config) {
            (GeneratorKind::Starship, Some(s)) => path_of(s@),
            _ => join(self.spec_config_dir(paths, env), self.spec_base_file_name()),
        }
    }

    /// The main configuration file the application reads.
    pub fn config_path(&self, paths: &IrisPaths, env: &HostEnv) -> (r: FsPath)
        ensures
            r@ == self.spec_config_path(*paths, *env),
    {
        let source = self.config_source(env);
        let base = self.base_file_name();
        config_path(&source, paths, self.name(), base.as_str())
    }

    pub open spec fn spec_cache_path(self, paths: IrisPaths, theme: Seq<char>) -> PathView {
        match self {
            GeneratorKind::Starship | GeneratorKind::Bottom | GeneratorKind::Herdr => spec_cache_path(
                paths,
                self.spec_name(),
                theme + "_block.toml"@,
            ),
            _ => spec_cache_path(paths, self.spec_name(), self.spec_file_name(theme)),
        }
    }

    /// The generated file for `theme`, under the generator's cache directory.
    pub fn cache_path(&self, paths: &IrisPaths, theme: &str) -> (r: FsPath)
        ensures
            r@ == self.spec_cache_path(*paths, theme@),
    {
        match self {
            GeneratorKind::Starship | GeneratorKind::Bottom | GeneratorKind::Herdr => {
                let f = concat(theme, "_block.toml");
                cache_path_for(paths, self.name(), f.as_str())
            },
            _ => {
                let f = self.file_name(theme);
                cache_path_for(paths, self.name(), f.as_str())
            },
        }
    }

    pub open spec fn spec_link_path(self, paths: IrisPaths, env: HostEnv, theme: Seq<char>) -> PathView {
        let dir = self.spec_config_dir(paths, env);
        match self {
            GeneratorKind::Alacritty | GeneratorKind::Ghostty | GeneratorKind::Kitty
            | GeneratorKind::WezTerm | GeneratorKind::Yazi => join(dir, self.spec_file_name(""@)),
            GeneratorKind::Starship => self.spec_config_path(paths, env),
            GeneratorKind::Bat | GeneratorKind::Btop | GeneratorKind::Tmux => join(
                join(dir, "themes"@),
                self.spec_file_name(theme),
            ),
            GeneratorKind::Fzf => spec_zshrc_path(paths),
            GeneratorKind::Bottom => join(dir, "bottom.toml"@),
            GeneratorKind::Herdr => join(dir, self.spec_file_name(theme)),
        }
    }

    /// Where the application expects its theme file or the link to it.
    pub fn link_path(&self, paths: &IrisPaths, env: &HostEnv, theme: &str) -> (r: FsPath)
        ensures
            r@ == self.spec_link_path(*paths, *env, theme@),
    {
        let dir = self.config_dir(paths, env);
        match self {
            GeneratorKind::Alacritty | GeneratorKind::Ghostty | GeneratorKind::Kitty
            | GeneratorKind::WezTerm | GeneratorKind::Yazi => dir.join(self.file_name("").as_str()),
            GeneratorKind::Starship => self.config_path(paths, env),
            GeneratorKind::Bat | GeneratorKind::Btop | GeneratorKind::Tmux => dir.join("themes").join(
                self.file_name(theme).as_str(),
            ),
            GeneratorKind::Fzf => zshrc_path(paths),
            GeneratorKind::Bottom => dir.join("bottom.toml"),
            GeneratorKind::Herdr => dir.join(self.file_name(theme).as_str()),
        }
    }

    pub open spec fn spec_active_link_path(self, paths: IrisPaths, env: HostEnv) -> Option<PathView> {
        let dir = self.spec_config_dir(paths, env);
        match self {
            GeneratorKind::Alacritty | GeneratorKind::Ghostty | GeneratorKind::Kitty
            | GeneratorKind::WezTerm | GeneratorKind::Yazi => Some(join(dir, self.spec_file_name(""@))),
            GeneratorKind::Starship => Some(join(dir, "starship.toml"@)),
            GeneratorKind::Bottom => Some(join(dir, "bottom.toml"@)),
            GeneratorKind::Herdr => Some(self.spec_config_path(paths, env)),
            _ => None,
        }
    }

    /// The static link the application reads its active theme through, where
    /// it has one.
    pub fn active_link_path(&self, paths: &IrisPaths, env: &HostEnv) -> (r: Option<FsPath>)
        ensures
            r matches Some(p) ==> self.spec_active_link_path(*paths, *env) == Some(p@),
            r is None ==> self.spec_active_link_path(*paths, *env) is None,
    {
        let dir = self.config_dir(paths, env);
        match self {
            GeneratorKind::Alacritty | GeneratorKind::Ghostty | GeneratorKind::Kitty
            | GeneratorKind::WezTerm | GeneratorKind::Yazi => Some(dir.join(self.file_name("").as_str())),
            GeneratorKind::Starship => Some(dir.join("starship.toml")),
            GeneratorKind::Bottom => Some(dir.join("bottom.toml")),
            GeneratorKind::Herdr => Some(self.config_path(paths, env)),
            _ => None,
        }
    }

    pub open spec fn spec_template_path(self) -> Seq<char> {
        self.spec_type().spec_label() + "/"@ + self.spec_name()
    }

    /// Template identifier: `<category label>/<name>`.
    pub fn template_path(&self) -> (r: String)
        ensures
            r@ == self.spec_template_path(),
    {
        concat3(self.generator_type().label(), "/", self.name())
    }

    /// The strategy `r` is the one the application is themed by: a link for the
    /// terminals, yazi, btop and tmux; an empty pipeline for bat and fzf; a block
    /// injected into the main configuration file for the others.
    pub open spec fn spec_strategy_is(self, r: Strategy) -> bool {
        match self {
            GeneratorKind::Alacritty | GeneratorKind::Ghostty | GeneratorKind::Kitty
            | GeneratorKind::WezTerm | GeneratorKind::Yazi | GeneratorKind::Btop
            | GeneratorKind::Tmux => r is Symlink,
            GeneratorKind::Bat | GeneratorKind::Fzf => (r matches Strategy::Pipeline { steps } && steps@.len() == 0),
            GeneratorKind::Starship => (r matches Strategy::InjectBlock { file } && file@ == "starship.toml"@),
            GeneratorKind::Bottom => (r matches Strategy::InjectBlock { file } && file@ == "bottom.toml"@),
            GeneratorKind::Herdr => (r matches Strategy::InjectBlock { file } && file@ == "config.toml"@),
        }
    }

    /// How a theme is applied to the application.
    pub fn strategy(&self) -> (r: Strategy)
        ensures
            self.spec_strategy_is(r),
    {
        match self {
            GeneratorKind::Alacritty | GeneratorKind::Ghostty | GeneratorKind::Kitty
            | GeneratorKind::WezTerm | GeneratorKind::Yazi | GeneratorKind::Btop
            | GeneratorKind::Tmux => Strategy::Symlink,
            GeneratorKind::Bat | GeneratorKind::Fzf => Strategy::Pipeline { steps: Vec::new() },
            GeneratorKind::Starship => Strategy::InjectBlock { file: String::from_str("starship.toml") },
            GeneratorKind::Bottom => Strategy::InjectBlock { file: String::from_str("bottom.toml") },
            GeneratorKind::Herdr => Strategy::InjectBlock { file: String::from_str("config.toml") },
        }
    }
}

/// Whether `program` is found on `PATH`.
///
/// Calls `which::which`; the answer depends on the environment and the disk,
/// so nothing is stated of it.
#[verifier::external_body]
pub(crate) fn program_on_path(program: &str) -> bool {
    which::which(program).is_ok()
}

} // verus!
