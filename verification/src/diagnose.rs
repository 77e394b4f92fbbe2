//! Per-application health checks over an observed file system.

use vstd::prelude::*;
use vstd::string::*;
use crate::generators::{GeneratorKind, HostEnv, spec_zshrc_path, zshrc_path};
use crate::health::{FsSnapshot, HealthStatus, Issue, link_destination, destination_of};
use crate::paths::{FsPath, IrisPaths, PathView, display, join};
use crate::strings::{begin_marker, begin_marker_of, end_marker, end_marker_of};
use crate::text::{concat, concat3, contains, lowercase, str_contains, str_eq, to_lowercase};

verus! {

/// Both markers of the block owned by `name` occur in `content`.
pub open spec fn spec_markers_present(content: Seq<char>, name: Seq<char>) -> bool {
    contains(content, begin_marker(name)) && contains(content, end_marker(name))
}

pub fn markers_present(content: &str, name: &str) -> (r: bool)
    ensures
        r == spec_markers_present(content@, name@),
{
    let b = begin_marker_of(name);
    let e = end_marker_of(name);
    str_contains(content, b.as_str()) && str_contains(content, e.as_str())
}

/// The link at `link` leads to `expected` (a relative target is taken from the
/// link's directory); a path that is not a link passes.
pub open spec fn spec_target_status(fs: FsSnapshot, link: PathView, expected: PathView) -> HealthStatus {
    match fs.spec_read_link(link) {
        Some(t) => if link_destination(link, t) != expected {
            HealthStatus::Warning(Issue::CacheMismatch)
        } else {
            HealthStatus::Good
        },
        None => HealthStatus::Good,
    }
}

pub fn target_status(fs: &FsSnapshot, link: &FsPath, expected: &FsPath) -> (r: HealthStatus)
    ensures
        r == spec_target_status(*fs, link@, expected@),
{
    match fs.read_link(link) {
        Some(t) => {
            let dest = destination_of(link, &t);
            if !dest.same_as(expected) {
                HealthStatus::Warning(Issue::CacheMismatch)
            } else {
                HealthStatus::Good
            }
        },
        None => HealthStatus::Good,
    }
}

/// The target held by the link at `link` is `expected`, compared as written;
/// a path that is not a link passes.
pub open spec fn spec_raw_target_status(fs: FsSnapshot, link: PathView, expected: PathView) -> HealthStatus {
    match fs.spec_read_link(link) {
        Some(t) => if t != expected {
            HealthStatus::Warning(Issue::CacheMismatch)
        } else {
            HealthStatus::Good
        },
        None => HealthStatus::Good,
    }
}

pub fn raw_target_status(fs: &FsSnapshot, link: &FsPath, expected: &FsPath) -> (r: HealthStatus)
    ensures
        r == spec_raw_target_status(*fs, link@, expected@),
{
    match fs.read_link(link) {
        Some(t) => {
            if !t.same_as(expected) {
                HealthStatus::Warning(Issue::CacheMismatch)
            } else {
                HealthStatus::Good
            }
        },
        None => HealthStatus::Good,
    }
}

/// Checks for a terminal that imports its theme through a link: the main
/// configuration exists and holds the import, the link is valid, and it leads
/// to the generated file.
pub open spec fn spec_linked_import_check(
    fs: FsSnapshot,
    config: PathView,
    import_ok: bool,
    link: PathView,
    target: HealthStatus,
) -> HealthStatus {
    if !fs.spec_exists(config) {
        HealthStatus::Error(Issue::ConfigMissing)
    } else if !import_ok {
        HealthStatus::Warning(Issue::ImportMissing)
    } else if !(fs.spec_is_symlink(link) && fs.spec_exists(link)) {
        HealthStatus::Error(Issue::SymlinkInvalid)
    } else {
        target
    }
}

/// Checks for a block injected into a configuration file: the file exists and
/// holds both markers; for a named theme, also the theme's `tag` line and the
/// block's `block` header.
pub open spec fn spec_block_check(
    fs: FsSnapshot,
    config: PathView,
    name: Seq<char>,
    theme: Seq<char>,
    tag: Seq<char>,
    tag_issue: Issue,
    block: Seq<char>,
) -> HealthStatus {
    let content = match fs.spec_read(config) {
        Some(c) => c,
        None => Seq::<char>::empty(),
    };
    if !fs.spec_exists(config) {
        HealthStatus::Error(Issue::ConfigMissing)
    } else if !spec_markers_present(content, name) {
        HealthStatus::Warning(Issue::MarkerMissing)
    } else if theme.len() > 0 && !contains(content, tag) {
        HealthStatus::Warning(tag_issue)
    } else if theme.len() > 0 && !contains(content, block) {
        HealthStatus::Error(Issue::BlockMissing)
    } else {
        HealthStatus::Good
    }
}

fn block_check(
    fs: &FsSnapshot,
    config: &FsPath,
    name: &str,
    theme: &str,
    tag: &str,
    tag_issue: Issue,
    block: &str,
) -> (r: HealthStatus)
    ensures
        r == spec_block_check(*fs, config@, name@, theme@, tag@, tag_issue, block@),
{
    if !fs.path_exists(config) {
        return HealthStatus::Error(Issue::ConfigMissing);
    }
    let content = fs.read_or_empty(config);
    if !markers_present(content.as_str(), name) {
        return HealthStatus::Warning(Issue::MarkerMissing);
    }
    if !theme.is_empty() {
        if !str_contains(content.as_str(), tag) {
            return HealthStatus::Warning(tag_issue);
        }
        if !str_contains(content.as_str(), block) {
            return HealthStatus::Error(Issue::BlockMissing);
        }
    }
    HealthStatus::Good
}

/// The content of `p`, or nothing.
pub open spec fn read_or_empty(fs: FsSnapshot, p: PathView) -> Seq<char> {
    match fs.spec_read(p) {
        Some(c) => c,
        None => Seq::<char>::empty(),
    }
}

impl GeneratorKind {
    /// What a health check of the application reports, given the observed file
    /// system, whether its program is installed, and the environment.
    pub open spec fn spec_health(self, paths: IrisPaths, env: HostEnv, theme: Seq<char>, fs: FsSnapshot, installed: bool) -> HealthStatus {
        let dir = self.spec_config_dir(paths, env);
        let link = self.spec_link_path(paths, env, ""@);
        let cache = self.spec_cache_path(paths, theme);
        let lower = lowercase(theme);
        if !installed && self != GeneratorKind::Bat {
            HealthStatus::Error(Issue::BinaryNotFound)
        } else {
            match self {
                GeneratorKind::Alacritty => {
                    let config = join(dir, "alacritty.toml"@);
                    spec_linked_import_check(
                        fs,
                        config,
                        contains(read_or_empty(fs, config), "import = [\"~/.config/alacritty/current_theme.toml\"]"@),
                        link,
                        spec_target_status(fs, link, cache),
                    )
                },
                GeneratorKind::Ghostty => {
                    let config = join(dir, "config"@);
                    spec_linked_import_check(
                        fs,
                        config,
                        contains(read_or_empty(fs, config), "config-file = "@ + self.spec_file_name(""@)),
                        link,
                        spec_target_status(fs, link, cache),
                    )
                },
                GeneratorKind::Kitty => {
                    let config = self.spec_config_path(paths, env);
                    spec_linked_import_check(
                        fs,
                        config,
                        contains(read_or_empty(fs, config), "include "@ + self.spec_file_name(""@)),
                        link,
                        spec_target_status(fs, link, cache),
                    )
                },
                GeneratorKind::WezTerm => {
                    let config = join(dir, "wezterm.lua"@);
                    let content = read_or_empty(fs, config);
                    spec_linked_import_check(
                        fs,
                        config,
                        contains(content, "current_theme"@) && contains(content, "config.colors"@),
                        link,
                        spec_raw_target_status(fs, link, cache),
                    )
                },
                GeneratorKind::Yazi => {
                    if !(fs.spec_is_symlink(link) && fs.spec_exists(link)) {
                        HealthStatus::Error(Issue::SymlinkInvalid)
                    } else if !fs.spec_exists(cache) {
                        HealthStatus::Warning(Issue::CacheMissing)
                    } else {
                        spec_target_status(fs, link, cache)
                    }
                },
                GeneratorKind::Btop => {
                    let config = self.spec_config_path(paths, env);
                    let tlink = self.spec_link_path(paths, env, theme);
                    if !fs.spec_exists(config) {
                        HealthStatus::Error(Issue::ConfigMissing)
                    } else if theme.len() == 0 {
                        HealthStatus::Good
                    } else if !contains(read_or_empty(fs, config), "color_theme = \""@ + lower + "\""@) {
                        HealthStatus::Warning(Issue::MarkerMissing)
                    } else if !(fs.spec_is_symlink(tlink) && fs.spec_exists(tlink)) {
                        HealthStatus::Error(Issue::SymlinkInvalid)
                    } else {
                        spec_target_status(fs, tlink, cache)
                    }
                },
                GeneratorKind::Tmux => {
                    let config = join(dir, "tmux.conf"@);
                    let tlink = self.spec_link_path(paths, env, theme);
                    if !fs.spec_exists(config) {
                        HealthStatus::Error(Issue::ConfigMissing)
                    } else if theme.len() == 0 {
                        HealthStatus::Good
                    } else if !contains(read_or_empty(fs, config), "source-file \"~/.config/tmux/themes/"@ + lower + ".conf\""@) {
                        HealthStatus::Warning(Issue::ImportMissing)
                    } else if !(fs.spec_is_symlink(tlink) && fs.spec_exists(tlink)) {
                        HealthStatus::Error(Issue::SymlinkInvalid)
                    } else {
                        spec_raw_target_status(fs, tlink, cache)
                    }
                },
                GeneratorKind::Starship => spec_block_check(
                    fs,
                    link,
                    self.spec_name(),
                    theme,
                    "palette = \""@ + lower + "\""@,
                    Issue::ImportMissing,
                    "[palettes."@ + lower + "]"@,
                ),
                GeneratorKind::Bottom => spec_block_check(
                    fs,
                    link,
                    self.spec_name(),
                    theme,
                    "# iris_theme: "@ + lower,
                    Issue::MarkerMissing,
                    "[styles"@,
                ),
                GeneratorKind::Herdr => spec_block_check(
                    fs,
                    link,
                    self.spec_name(),
                    theme,
                    "# iris_theme: "@ + lower,
                    Issue::MarkerMissing,
                    "[theme.custom]"@,
                ),
                GeneratorKind::Fzf => {
                    let zshrc = spec_zshrc_path(paths);
                    if !fs.spec_exists(zshrc) || fs.spec_read(zshrc) is None {
                        HealthStatus::Error(Issue::ConfigMissing)
                    } else if !spec_markers_present(read_or_empty(fs, zshrc), "fzf"@) {
                        HealthStatus::Warning(Issue::MarkerMissing)
                    } else if !contains(read_or_empty(fs, zshrc), "fzf"@) {
                        HealthStatus::Warning(Issue::ImportMissing)
                    } else if theme.len() > 0 && !fs.spec_exists(cache) {
                        HealthStatus::Warning(Issue::CacheMissing)
                    } else {
                        HealthStatus::Good
                    }
                },
                GeneratorKind::Bat => {
                    let zshrc = spec_zshrc_path(paths);
                    let expected = display(join(paths.bin@, "bat.conf"@));
                    let current = match env.bat_config_path {
                        Some(v) => v@,
                        None => Seq::<char>::empty(),
                    };
                    if !installed {
                        HealthStatus::Error(Issue::BinaryNotFound)
                    } else if theme.len() > 0 && !fs.spec_exists(self.spec_link_path(paths, env, theme)) {
                        HealthStatus::Error(Issue::CacheMissing)
                    } else if fs.spec_exists(zshrc) && (fs.spec_read(zshrc) matches Some(c) && !contains(c, "BAT_CONFIG_PATH"@)) {
                        HealthStatus::Warning(Issue::ConfigMissing)
                    } else if current != expected {
                        HealthStatus::Warning(Issue::EnvMismatch)
                    } else {
                        HealthStatus::Good
                    }
                },
            }
        }
    }
}

fn linked_import_check(
    fs: &FsSnapshot,
    config: &FsPath,
    import_ok: bool,
    link: &FsPath,
    target: HealthStatus,
) -> (r: HealthStatus)
    ensures
        r == spec_linked_import_check(*fs, config@, import_ok, link@, target),
{
    if !fs.path_exists(config) {
        HealthStatus::Error(Issue::ConfigMissing)
    } else if !import_ok {
        HealthStatus::Warning(Issue::ImportMissing)
    } else if !(fs.is_symlink(link) && fs.path_exists(link)) {
        HealthStatus::Error(Issue::SymlinkInvalid)
    } else {
        target
    }
}

impl GeneratorKind {
    /// Runs the application's health check against the observed file system.
    pub fn health_check(
        &self,
        paths: &IrisPaths,
        env: &HostEnv,
        theme: &str,
        fs: &FsSnapshot,
        installed: bool,
    ) -> (r: HealthStatus)
        ensures
            r == self.spec_health(*paths, *env, theme@, *fs, installed),
    {
        if !installed {
            return HealthStatus::Error(Issue::BinaryNotFound);
        }
        let dir = self.config_dir(paths, env);
        let link = self.link_path(paths, env, "");
        let cache = self.cache_path(paths, theme);
        let lower = to_lowercase(theme);
        match self {
            GeneratorKind::Alacritty => {
                let config = dir.join("alacritty.toml");
                let content = fs.read_or_empty(&config);
                let ok = str_contains(content.as_str(), "import = [\"~/.config/alacritty/current_theme.toml\"]");
                let t = target_status(fs, &link, &cache);
                linked_import_check(fs, &config, ok, &link, t)
            },
            GeneratorKind::Ghostty => {
                let config = dir.join("config");
                let content = fs.read_or_empty(&config);
                let line = concat("config-file = ", self.file_name("").as_str());
                let ok = str_contains(content.as_str(), line.as_str());
                let t = target_status(fs, &link, &cache);
                linked_import_check(fs, &config, ok, &link, t)
            },
            GeneratorKind::Kitty => {
                let config = self.config_path(paths, env);
                let content = fs.read_or_empty(&config);
                let line = concat("include ", self.file_name("").as_str());
                let ok = str_contains(content.as_str(), line.as_str());
                let t = target_status(fs, &link, &cache);
                linked_import_check(fs, &config, ok, &link, t)
            },
            GeneratorKind::WezTerm => {
                let config = dir.join("wezterm.lua");
                let content = fs.read_or_empty(&config);
                let ok = str_contains(content.as_str(), "current_theme") && str_contains(
                    content.as_str(),
                    "config.colors",
                );
                let t = raw_target_status(fs, &link, &cache);
                linked_import_check(fs, &config, ok, &link, t)
            },
            GeneratorKind::Yazi => {
                if !(fs.is_symlink(&link) && fs.path_exists(&link)) {
                    HealthStatus::Error(Issue::SymlinkInvalid)
                } else if !fs.path_exists(&cache) {
                    HealthStatus::Warning(Issue::CacheMissing)
                } else {
                    target_status(fs, &link, &cache)
                }
            },
            GeneratorKind::Btop => {
                let config = self.config_path(paths, env);
                let tlink = self.link_path(paths, env, theme);
                if !fs.path_exists(&config) {
                    return HealthStatus::Error(Issue::ConfigMissing);
                }
                if theme.is_empty() {
                    return HealthStatus::Good;
                }
                let content = fs.read_or_empty(&config);
                let line = concat3("color_theme = \"", lower.as_str(), "\"");
                if !str_contains(content.as_str(), line.as_str()) {
                    HealthStatus::Warning(Issue::MarkerMissing)
                } else if !(fs.is_symlink(&tlink) && fs.path_exists(&tlink)) {
                    HealthStatus::Error(Issue::SymlinkInvalid)
                } else {
                    target_status(fs, &tlink, &cache)
                }
            },
            GeneratorKind::Tmux => {
                let config = dir.join("tmux.conf");
                let tlink = self.link_path(paths, env, theme);
                if !fs.path_exists(&config) {
                    return HealthStatus::Error(Issue::ConfigMissing);
                }
                if theme.is_empty() {
                    return HealthStatus::Good;
                }
                let content = fs.read_or_empty(&config);
                let line = concat3("source-file \"~/.config/tmux/themes/", lower.as_str(), ".conf\"");
                if !str_contains(content.as_str(), line.as_str()) {
                    HealthStatus::Warning(Issue::ImportMissing)
                } else if !(fs.is_symlink(&tlink) && fs.path_exists(&tlink)) {
                    HealthStatus::Error(Issue::SymlinkInvalid)
                } else {
                    raw_target_status(fs, &tlink, &cache)
                }
            },
            GeneratorKind::Starship => {
                let tag = concat3("palette = \"", lower.as_str(), "\"");
                let block = concat3("[palettes.", lower.as_str(), "]");
                block_check(fs, &link, self.name(), theme, tag.as_str(), Issue::ImportMissing, block.as_str())
            },
            GeneratorKind::Bottom => {
                let tag = concat("# iris_theme: ", lower.as_str());
                block_check(fs, &link, self.name(), theme, tag.as_str(), Issue::MarkerMissing, "[styles")
            },
            GeneratorKind::Herdr => {
                let tag = concat("# iris_theme: ", lower.as_str());
                block_check(fs, &link, self.name(), theme, tag.as_str(), Issue::MarkerMissing, "[theme.custom]")
            },
            GeneratorKind::Fzf => {
                let zshrc = zshrc_path(paths);
                if !fs.path_exists(&zshrc) {
                    return HealthStatus::Error(Issue::ConfigMissing);
                }
                let content = match fs.read(&zshrc) {
                    Some(c) => c,
                    None => {
                        return HealthStatus::Error(Issue::ConfigMissing);
                    },
                };
                if !markers_present(content.as_str(), "fzf") {
                    HealthStatus::Warning(Issue::MarkerMissing)
                } else if !str_contains(content.as_str(), "fzf") {
                    HealthStatus::Warning(Issue::ImportMissing)
                } else if !theme.is_empty() && !fs.path_exists(&cache) {
                    HealthStatus::Warning(Issue::CacheMissing)
                } else {
                    HealthStatus::Good
                }
            },
            GeneratorKind::Bat => {
                if !theme.is_empty() {
                    let tlink = self.link_path(paths, env, theme);
                    if !fs.path_exists(&tlink) {
                        return HealthStatus::Error(Issue::CacheMissing);
                    }
                }
                let zshrc = zshrc_path(paths);
                if fs.path_exists(&zshrc) {
                    if let Some(c) = fs.read(&zshrc) {
                        if !str_contains(c.as_str(), "BAT_CONFIG_PATH") {
                            return HealthStatus::Warning(Issue::ConfigMissing);
                        }
                    }
                }
                let expected = paths.bin.join("bat.conf").display();
                let current = match &env.bat_config_path {
                    Some(v) => v.clone(),
                    None => String::new(),
                };
                if !str_eq(current.as_str(), expected.as_str()) {
                    HealthStatus::Warning(Issue::EnvMismatch)
                } else {
                    HealthStatus::Good
                }
            },
        }
    }
}


/// The main configuration file of a terminal that imports its theme, and
/// whether `content` holds that import: kitty's `include current_theme.conf`,
/// ghostty's `config-file = current_theme.conf`, alacritty's import of
/// `~/.config/alacritty/current_theme.toml`, and wezterm's `current_theme`
/// loader with its `config.colors`.
pub open spec fn imports_theme(kind: GeneratorKind, content: Seq<char>) -> bool {
    match kind {
        GeneratorKind::Kitty => contains(content, "include current_theme.conf"@),
        GeneratorKind::Ghostty => contains(content, "config-file = current_theme.conf"@),
        GeneratorKind::Alacritty => contains(content, "import = [\"~/.config/alacritty/current_theme.toml\"]"@),
        _ => contains(content, "current_theme"@) && contains(content, "config.colors"@),
    }
}

/// The file that holds a terminal's import.
pub open spec fn import_config(kind: GeneratorKind, paths: IrisPaths, env: HostEnv) -> PathView {
    match kind {
        GeneratorKind::Kitty => kind.spec_config_path(paths, env),
        GeneratorKind::Ghostty => join(kind.spec_config_dir(paths, env), "config"@),
        GeneratorKind::Alacritty => join(kind.spec_config_dir(paths, env), "alacritty.toml"@),
        _ => join(kind.spec_config_dir(paths, env), "wezterm.lua"@),
    }
}

/// A terminal that loads its theme through an import (kitty, ghostty,
/// alacritty, wezterm) is reported healthy only when its configuration
/// exists and holds the import; where the program is found and the
/// configuration exists without the import, the report is the warning that
/// the theme is not imported.
pub proof fn lemma_health_needs_the_import(
    kind: GeneratorKind,
    paths: IrisPaths,
    env: HostEnv,
    theme: Seq<char>,
    fs: FsSnapshot,
    installed: bool,
)
    requires
        kind == GeneratorKind::Kitty || kind == GeneratorKind::Ghostty || kind == GeneratorKind::Alacritty || kind
            == GeneratorKind::WezTerm,
    ensures
        kind.spec_health(paths, env, theme, fs, installed) == HealthStatus::Good ==> fs.spec_exists(
            import_config(kind, paths, env),
        ) && imports_theme(kind, read_or_empty(fs, import_config(kind, paths, env))),
        installed && fs.spec_exists(import_config(kind, paths, env)) && !imports_theme(
            kind,
            read_or_empty(fs, import_config(kind, paths, env)),
        ) ==> kind.spec_health(paths, env, theme, fs, installed) == HealthStatus::Warning(Issue::ImportMissing),
{
    reveal_strlit("include ");
    reveal_strlit("include current_theme.conf");
    reveal_strlit("config-file = ");
    reveal_strlit("config-file = current_theme.conf");
    reveal_strlit("current_theme.conf");
    reveal_strlit("");
    if kind == GeneratorKind::Kitty || kind == GeneratorKind::Ghostty {
        assert(kind.spec_file_name(""@) == "current_theme.conf"@);
        assert("include "@ + "current_theme.conf"@ =~= "include current_theme.conf"@);
        assert("config-file = "@ + "current_theme.conf"@ =~= "config-file = current_theme.conf"@);
    }
}
} // verus!
