//! One type per supported application, each answering for its own files.

use vstd::prelude::*;
use crate::generators::{GeneratorKind, HostEnv, no_env, spec_zshrc_path, zshrc_path};
use crate::health::{FsSnapshot, HealthStatus};
use crate::kinds::GeneratorType;
use crate::paths::{FsPath, IrisPaths};
use crate::strategy::Strategy;

verus! {
/// Config generator for Alacritty terminal.
#[derive(Debug, Clone, Copy)]
pub struct AlacrittyGenerator;

impl AlacrittyGenerator {
    /// The application this type answers for.
    pub fn kind(&self) -> (r: GeneratorKind)
        ensures
            r == GeneratorKind::Alacritty,
    {
        GeneratorKind::Alacritty
    }

    pub fn name(&self) -> (r: &'static str)
        ensures
            r@ == GeneratorKind::Alacritty.spec_name(),
    {
        GeneratorKind::Alacritty.name()
    }

    pub fn generator_type(&self) -> (r: GeneratorType)
        ensures
            r == GeneratorKind::Alacritty.spec_type(),
    {
        GeneratorKind::Alacritty.generator_type()
    }

    /// Whether the application's program is found on `PATH`.
    pub fn is_installed(&self) -> bool {
        GeneratorKind::Alacritty.is_installed()
    }

    pub fn base_file_name(&self) -> (r: String)
        ensures
            r@ == GeneratorKind::Alacritty.spec_base_file_name(),
    {
        GeneratorKind::Alacritty.base_file_name()
    }

    pub fn file_name(&self, theme: &str) -> (r: String)
        ensures
            r@ == GeneratorKind::Alacritty.spec_file_name(theme@),
    {
        GeneratorKind::Alacritty.file_name(theme)
    }

    pub fn target_file_name(&self, theme: &str) -> (r: String)
        ensures
            r@ == GeneratorKind::Alacritty.spec_file_name(theme@),
    {
        GeneratorKind::Alacritty.file_name(theme)
    }

    pub fn config_dir(&self, paths: &IrisPaths) -> (r: FsPath)
        ensures
            r@ == GeneratorKind::Alacritty.spec_config_dir(*paths, no_env()),
    {
        GeneratorKind::Alacritty.config_dir(paths, &HostEnv::empty())
    }

    pub fn config_path(&self, paths: &IrisPaths) -> (r: FsPath)
        ensures
            r@ == GeneratorKind::Alacritty.spec_config_path(*paths, no_env()),
    {
        GeneratorKind::Alacritty.config_path(paths, &HostEnv::empty())
    }

    pub fn cache_path(&self, paths: &IrisPaths, theme: &str) -> (r: FsPath)
        ensures
            r@ == GeneratorKind::Alacritty.spec_cache_path(*paths, theme@),
    {
        GeneratorKind::Alacritty.cache_path(paths, theme)
    }

    pub fn link_path(&self, paths: &IrisPaths, theme: &str) -> (r: FsPath)
        ensures
            r@ == GeneratorKind::Alacritty.spec_link_path(*paths, no_env(), theme@),
    {
        GeneratorKind::Alacritty.link_path(paths, &HostEnv::empty(), theme)
    }

    pub fn theme_path(&self, paths: &IrisPaths, theme: &str) -> (r: FsPath)
        ensures
            r@ == GeneratorKind::Alacritty.spec_link_path(*paths, no_env(), theme@),
    {
        GeneratorKind::Alacritty.link_path(paths, &HostEnv::empty(), theme)
    }

    pub fn active_link_path(&self, paths: &IrisPaths) -> (r: Option<FsPath>)
        ensures
            r matches Some(p) ==> GeneratorKind::Alacritty.spec_active_link_path(*paths, no_env()) == Some(p@),
            r is None ==> GeneratorKind::Alacritty.spec_active_link_path(*paths, no_env()) is None,
    {
        GeneratorKind::Alacritty.active_link_path(paths, &HostEnv::empty())
    }

    pub fn template_path(&self) -> (r: String)
        ensures
            r@ == GeneratorKind::Alacritty.spec_template_path(),
    {
        GeneratorKind::Alacritty.template_path()
    }

    pub fn strategy(&self) -> (r: Strategy)
        ensures
            GeneratorKind::Alacritty.spec_strategy_is(r),
    {
        GeneratorKind::Alacritty.strategy()
    }

    /// Health of the application's setup, given the observed file system and
    /// whether its program is installed.
    pub fn health_check(&self, paths: &IrisPaths, theme: &str, fs: &FsSnapshot, installed: bool) -> (r: HealthStatus)
        ensures
            r == GeneratorKind::Alacritty.spec_health(*paths, no_env(), theme@, *fs, installed),
    {
        GeneratorKind::Alacritty.health_check(paths, &HostEnv::empty(), theme, fs, installed)
    }
}

/// Config generator for ghostty terminal.
#[derive(Debug, Clone, Copy)]
pub struct GhosttyGenerator;

impl GhosttyGenerator {
    /// The application this type answers for.
    pub fn kind(&self) -> (r: GeneratorKind)
        ensures
            r == GeneratorKind::Ghostty,
    {
        GeneratorKind::Ghostty
    }

    pub fn name(&self) -> (r: &'static str)
        ensures
            r@ == GeneratorKind::Ghostty.spec_name(),
    {
        GeneratorKind::Ghostty.name()
    }

    pub fn generator_type(&self) -> (r: GeneratorType)
        ensures
            r == GeneratorKind::Ghostty.spec_type(),
    {
        GeneratorKind::Ghostty.generator_type()
    }

    /// Whether the application's program is found on `PATH`.
    pub fn is_installed(&self) -> bool {
        GeneratorKind::Ghostty.is_installed()
    }

    pub fn base_file_name(&self) -> (r: String)
        ensures
            r@ == GeneratorKind::Ghostty.spec_base_file_name(),
    {
        GeneratorKind::Ghostty.base_file_name()
    }

    pub fn file_name(&self, theme: &str) -> (r: String)
        ensures
            r@ == GeneratorKind::Ghostty.spec_file_name(theme@),
    {
        GeneratorKind::Ghostty.file_name(theme)
    }

    pub fn target_file_name(&self, theme: &str) -> (r: String)
        ensures
            r@ == GeneratorKind::Ghostty.spec_file_name(theme@),
    {
        GeneratorKind::Ghostty.file_name(theme)
    }

    pub fn config_dir(&self, paths: &IrisPaths) -> (r: FsPath)
        ensures
            r@ == GeneratorKind::Ghostty.spec_config_dir(*paths, no_env()),
    {
        GeneratorKind::Ghostty.config_dir(paths, &HostEnv::empty())
    }

    pub fn config_path(&self, paths: &IrisPaths) -> (r: FsPath)
        ensures
            r@ == GeneratorKind::Ghostty.spec_config_path(*paths, no_env()),
    {
        GeneratorKind::Ghostty.config_path(paths, &HostEnv::empty())
    }

    pub fn cache_path(&self, paths: &IrisPaths, theme: &str) -> (r: FsPath)
        ensures
            r@ == GeneratorKind::Ghostty.spec_cache_path(*paths, theme@),
    {
        GeneratorKind::Ghostty.cache_path(paths, theme)
    }

    pub fn link_path(&self, paths: &IrisPaths, theme: &str) -> (r: FsPath)
        ensures
            r@ == GeneratorKind::Ghostty.spec_link_path(*paths, no_env(), theme@),
    {
        GeneratorKind::Ghostty.link_path(paths, &HostEnv::empty(), theme)
    }

    pub fn theme_path(&self, paths: &IrisPaths, theme: &str) -> (r: FsPath)
        ensures
            r@ == GeneratorKind::Ghostty.spec_link_path(*paths, no_env(), theme@),
    {
        GeneratorKind::Ghostty.link_path(paths, &HostEnv::empty(), theme)
    }

    pub fn active_link_path(&self, paths: &IrisPaths) -> (r: Option<FsPath>)
        ensures
            r matches Some(p) ==> GeneratorKind::Ghostty.spec_active_link_path(*paths, no_env()) == Some(p@),
            r is None ==> GeneratorKind::Ghostty.spec_active_link_path(*paths, no_env()) is None,
    {
        GeneratorKind::Ghostty.active_link_path(paths, &HostEnv::empty())
    }

    pub fn template_path(&self) -> (r: String)
        ensures
            r@ == GeneratorKind::Ghostty.spec_template_path(),
    {
        GeneratorKind::Ghostty.template_path()
    }

    pub fn strategy(&self) -> (r: Strategy)
        ensures
            GeneratorKind::Ghostty.spec_strategy_is(r),
    {
        GeneratorKind::Ghostty.strategy()
    }

    /// Health of the application's setup, given the observed file system and
    /// whether its program is installed.
    pub fn health_check(&self, paths: &IrisPaths, theme: &str, fs: &FsSnapshot, installed: bool) -> (r: HealthStatus)
        ensures
            r == GeneratorKind::Ghostty.spec_health(*paths, no_env(), theme@, *fs, installed),
    {
        GeneratorKind::Ghostty.health_check(paths, &HostEnv::empty(), theme, fs, installed)
    }
}

/// Config generator for kitty terminal.
#[derive(Debug, Clone, Copy)]
pub struct KittyGenerator;

impl KittyGenerator {
    /// The application this type answers for.
    pub fn kind(&self) -> (r: GeneratorKind)
        ensures
            r == GeneratorKind::Kitty,
    {
        GeneratorKind::Kitty
    }

    pub fn name(&self) -> (r: &'static str)
        ensures
            r@ == GeneratorKind::Kitty.spec_name(),
    {
        GeneratorKind::Kitty.name()
    }

    pub fn generator_type(&self) -> (r: GeneratorType)
        ensures
            r == GeneratorKind::Kitty.spec_type(),
    {
        GeneratorKind::Kitty.generator_type()
    }

    /// Whether the application's program is found on `PATH`.
    pub fn is_installed(&self) -> bool {
        GeneratorKind::Kitty.is_installed()
    }

    pub fn base_file_name(&self) -> (r: String)
        ensures
            r@ == GeneratorKind::Kitty.spec_base_file_name(),
    {
        GeneratorKind::Kitty.base_file_name()
    }

    pub fn file_name(&self, theme: &str) -> (r: String)
        ensures
            r@ == GeneratorKind::Kitty.spec_file_name(theme@),
    {
        GeneratorKind::Kitty.file_name(theme)
    }

    pub fn target_file_name(&self, theme: &str) -> (r: String)
        ensures
            r@ == GeneratorKind::Kitty.spec_file_name(theme@),
    {
        GeneratorKind::Kitty.file_name(theme)
    }

    pub fn config_dir(&self, paths: &IrisPaths) -> (r: FsPath)
        ensures
            r@ == GeneratorKind::Kitty.spec_config_dir(*paths, no_env()),
    {
        GeneratorKind::Kitty.config_dir(paths, &HostEnv::empty())
    }

    pub fn config_path(&self, paths: &IrisPaths) -> (r: FsPath)
        ensures
            r@ == GeneratorKind::Kitty.spec_config_path(*paths, no_env()),
    {
        GeneratorKind::Kitty.config_path(paths, &HostEnv::empty())
    }

    pub fn cache_path(&self, paths: &IrisPaths, theme: &str) -> (r: FsPath)
        ensures
            r@ == GeneratorKind::Kitty.spec_cache_path(*paths, theme@),
    {
        GeneratorKind::Kitty.cache_path(paths, theme)
    }

    pub fn link_path(&self, paths: &IrisPaths, theme: &str) -> (r: FsPath)
        ensures
            r@ == GeneratorKind::Kitty.spec_link_path(*paths, no_env(), theme@),
    {
        GeneratorKind::Kitty.link_path(paths, &HostEnv::empty(), theme)
    }

    pub fn theme_path(&self, paths: &IrisPaths, theme: &str) -> (r: FsPath)
        ensures
            r@ == GeneratorKind::Kitty.spec_link_path(*paths, no_env(), theme@),
    {
        GeneratorKind::Kitty.link_path(paths, &HostEnv::empty(), theme)
    }

    pub fn active_link_path(&self, paths: &IrisPaths) -> (r: Option<FsPath>)
        ensures
            r matches Some(p) ==> GeneratorKind::Kitty.spec_active_link_path(*paths, no_env()) == Some(p@),
            r is None ==> GeneratorKind::Kitty.spec_active_link_path(*paths, no_env()) is None,
    {
        GeneratorKind::Kitty.active_link_path(paths, &HostEnv::empty())
    }

    pub fn template_path(&self) -> (r: String)
        ensures
            r@ == GeneratorKind::Kitty.spec_template_path(),
    {
        GeneratorKind::Kitty.template_path()
    }

    pub fn strategy(&self) -> (r: Strategy)
        ensures
            GeneratorKind::Kitty.spec_strategy_is(r),
    {
        GeneratorKind::Kitty.strategy()
    }

    /// Health of the application's setup, given the observed file system and
    /// whether its program is installed.
    pub fn health_check(&self, paths: &IrisPaths, theme: &str, fs: &FsSnapshot, installed: bool) -> (r: HealthStatus)
        ensures
            r == GeneratorKind::Kitty.spec_health(*paths, no_env(), theme@, *fs, installed),
    {
        GeneratorKind::Kitty.health_check(paths, &HostEnv::empty(), theme, fs, installed)
    }
}

/// Config generator for wezterm terminal.
#[derive(Debug, Clone, Copy)]
pub struct WezTermGenerator;

impl WezTermGenerator {
    /// The application this type answers for.
    pub fn kind(&self) -> (r: GeneratorKind)
        ensures
            r == GeneratorKind::WezTerm,
    {
        GeneratorKind::WezTerm
    }

    pub fn name(&self) -> (r: &'static str)
        ensures
            r@ == GeneratorKind::WezTerm.spec_name(),
    {
        GeneratorKind::WezTerm.name()
    }

    pub fn generator_type(&self) -> (r: GeneratorType)
        ensures
            r == GeneratorKind::WezTerm.spec_type(),
    {
        GeneratorKind::WezTerm.generator_type()
    }

    /// Whether the application's program is found on `PATH`.
    pub fn is_installed(&self) -> bool {
        GeneratorKind::WezTerm.is_installed()
    }

    pub fn base_file_name(&self) -> (r: String)
        ensures
            r@ == GeneratorKind::WezTerm.spec_base_file_name(),
    {
        GeneratorKind::WezTerm.base_file_name()
    }

    pub fn file_name(&self, theme: &str) -> (r: String)
        ensures
            r@ == GeneratorKind::WezTerm.spec_file_name(theme@),
    {
        GeneratorKind::WezTerm.file_name(theme)
    }

    pub fn target_file_name(&self, theme: &str) -> (r: String)
        ensures
            r@ == GeneratorKind::WezTerm.spec_file_name(theme@),
    {
        GeneratorKind::WezTerm.file_name(theme)
    }

    pub fn config_dir(&self, paths: &IrisPaths) -> (r: FsPath)
        ensures
            r@ == GeneratorKind::WezTerm.spec_config_dir(*paths, no_env()),
    {
        GeneratorKind::WezTerm.config_dir(paths, &HostEnv::empty())
    }

    pub fn config_path(&self, paths: &IrisPaths) -> (r: FsPath)
        ensures
            r@ == GeneratorKind::WezTerm.spec_config_path(*paths, no_env()),
    {
        GeneratorKind::WezTerm.config_path(paths, &HostEnv::empty())
    }

    pub fn cache_path(&self, paths: &IrisPaths, theme: &str) -> (r: FsPath)
        ensures
            r@ == GeneratorKind::WezTerm.spec_cache_path(*paths, theme@),
    {
        GeneratorKind::WezTerm.cache_path(paths, theme)
    }

    pub fn link_path(&self, paths: &IrisPaths, theme: &str) -> (r: FsPath)
        ensures
            r@ == GeneratorKind::WezTerm.spec_link_path(*paths, no_env(), theme@),
    {
        GeneratorKind::WezTerm.link_path(paths, &HostEnv::empty(), theme)
    }

    pub fn theme_path(&self, paths: &IrisPaths, theme: &str) -> (r: FsPath)
        ensures
            r@ == GeneratorKind::WezTerm.spec_link_path(*paths, no_env(), theme@),
    {
        GeneratorKind::WezTerm.link_path(paths, &HostEnv::empty(), theme)
    }

    pub fn active_link_path(&self, paths: &IrisPaths) -> (r: Option<FsPath>)
        ensures
            r matches Some(p) ==> GeneratorKind::WezTerm.spec_active_link_path(*paths, no_env()) == Some(p@),
            r is None ==> GeneratorKind::WezTerm.spec_active_link_path(*paths, no_env()) is None,
    {
        GeneratorKind::WezTerm.active_link_path(paths, &HostEnv::empty())
    }

    pub fn template_path(&self) -> (r: String)
        ensures
            r@ == GeneratorKind::WezTerm.spec_template_path(),
    {
        GeneratorKind::WezTerm.template_path()
    }

    pub fn strategy(&self) -> (r: Strategy)
        ensures
            GeneratorKind::WezTerm.spec_strategy_is(r),
    {
        GeneratorKind::WezTerm.strategy()
    }

    /// Health of the application's setup, given the observed file system and
    /// whether its program is installed.
    pub fn health_check(&self, paths: &IrisPaths, theme: &str, fs: &FsSnapshot, installed: bool) -> (r: HealthStatus)
        ensures
            r == GeneratorKind::WezTerm.spec_health(*paths, no_env(), theme@, *fs, installed),
    {
        GeneratorKind::WezTerm.health_check(paths, &HostEnv::empty(), theme, fs, installed)
    }
}

/// Config generator for starship.
#[derive(Debug, Clone, Copy)]
pub struct StarshipGenerator;

impl StarshipGenerator {
    /// The application this type answers for.
    pub fn kind(&self) -> (r: GeneratorKind)
        ensures
            r == GeneratorKind::Starship,
    {
        GeneratorKind::Starship
    }

    pub fn name(&self) -> (r: &'static str)
        ensures
            r@ == GeneratorKind::Starship.spec_name(),
    {
        GeneratorKind::Starship.name()
    }

    pub fn generator_type(&self) -> (r: GeneratorType)
        ensures
            r == GeneratorKind::Starship.spec_type(),
    {
        GeneratorKind::Starship.generator_type()
    }

    /// Whether the application's program is found on `PATH`.
    pub fn is_installed(&self) -> bool {
        GeneratorKind::Starship.is_installed()
    }

    pub fn base_file_name(&self) -> (r: String)
        ensures
            r@ == GeneratorKind::Starship.spec_base_file_name(),
    {
        GeneratorKind::Starship.base_file_name()
    }

    pub fn file_name(&self, theme: &str) -> (r: String)
        ensures
            r@ == GeneratorKind::Starship.spec_file_name(theme@),
    {
        GeneratorKind::Starship.file_name(theme)
    }

    pub fn target_file_name(&self, theme: &str) -> (r: String)
        ensures
            r@ == GeneratorKind::Starship.spec_file_name(theme@),
    {
        GeneratorKind::Starship.file_name(theme)
    }

    pub fn config_dir(&self, paths: &IrisPaths, env: &HostEnv) -> (r: FsPath)
        ensures
            r@ == GeneratorKind::Starship.spec_config_dir(*paths, *env),
    {
        GeneratorKind::Starship.config_dir(paths, env)
    }

    pub fn config_path(&self, paths: &IrisPaths, env: &HostEnv) -> (r: FsPath)
        ensures
            r@ == GeneratorKind::Starship.spec_config_path(*paths, *env),
    {
        GeneratorKind::Starship.config_path(paths, env)
    }

    pub fn cache_path(&self, paths: &IrisPaths, theme: &str) -> (r: FsPath)
        ensures
            r@ == GeneratorKind::Starship.spec_cache_path(*paths, theme@),
    {
        GeneratorKind::Starship.cache_path(paths, theme)
    }

    pub fn link_path(&self, paths: &IrisPaths, env: &HostEnv, theme: &str) -> (r: FsPath)
        ensures
            r@ == GeneratorKind::Starship.spec_link_path(*paths, *env, theme@),
    {
        GeneratorKind::Starship.link_path(paths, env, theme)
    }

    pub fn theme_path(&self, paths: &IrisPaths, env: &HostEnv, theme: &str) -> (r: FsPath)
        ensures
            r@ == GeneratorKind::Starship.spec_link_path(*paths, *env, theme@),
    {
        GeneratorKind::Starship.link_path(paths, env, theme)
    }

    pub fn active_link_path(&self, paths: &IrisPaths, env: &HostEnv) -> (r: Option<FsPath>)
        ensures
            r matches Some(p) ==> GeneratorKind::Starship.spec_active_link_path(*paths, *env) == Some(p@),
            r is None ==> GeneratorKind::Starship.spec_active_link_path(*paths, *env) is None,
    {
        GeneratorKind::Starship.active_link_path(paths, env)
    }

    pub fn template_path(&self) -> (r: String)
        ensures
            r@ == GeneratorKind::Starship.spec_template_path(),
    {
        GeneratorKind::Starship.template_path()
    }

    pub fn strategy(&self) -> (r: Strategy)
        ensures
            GeneratorKind::Starship.spec_strategy_is(r),
    {
        GeneratorKind::Starship.strategy()
    }

    /// Health of the application's setup, given the observed file system and
    /// whether its program is installed.
    pub fn health_check(&self, paths: &IrisPaths, env: &HostEnv, theme: &str, fs: &FsSnapshot, installed: bool) -> (r: HealthStatus)
        ensures
            r == GeneratorKind::Starship.spec_health(*paths, *env, theme@, *fs, installed),
    {
        GeneratorKind::Starship.health_check(paths, env, theme, fs, installed)
    }
}

/// Config generator for bat.
#[derive(Debug, Clone, Copy)]
pub struct BatGenerator;

impl BatGenerator {
    /// The application this type answers for.
    pub fn kind(&self) -> (r: GeneratorKind)
        ensures
            r == GeneratorKind::Bat,
    {
        GeneratorKind::Bat
    }

    pub fn name(&self) -> (r: &'static str)
        ensures
            r@ == GeneratorKind::Bat.spec_name(),
    {
        GeneratorKind::Bat.name()
    }

    pub fn generator_type(&self) -> (r: GeneratorType)
        ensures
            r == GeneratorKind::Bat.spec_type(),
    {
        GeneratorKind::Bat.generator_type()
    }

    /// Whether the application's program is found on `PATH`.
    pub fn is_installed(&self) -> bool {
        GeneratorKind::Bat.is_installed()
    }

    pub fn base_file_name(&self) -> (r: String)
        ensures
            r@ == GeneratorKind::Bat.spec_base_file_name(),
    {
        GeneratorKind::Bat.base_file_name()
    }

    pub fn file_name(&self, theme: &str) -> (r: String)
        ensures
            r@ == GeneratorKind::Bat.spec_file_name(theme@),
    {
        GeneratorKind::Bat.file_name(theme)
    }

    pub fn target_file_name(&self, theme: &str) -> (r: String)
        ensures
            r@ == GeneratorKind::Bat.spec_file_name(theme@),
    {
        GeneratorKind::Bat.file_name(theme)
    }

    pub fn config_dir(&self, paths: &IrisPaths) -> (r: FsPath)
        ensures
            r@ == GeneratorKind::Bat.spec_config_dir(*paths, no_env()),
    {
        GeneratorKind::Bat.config_dir(paths, &HostEnv::empty())
    }

    pub fn config_path(&self, paths: &IrisPaths) -> (r: FsPath)
        ensures
            r@ == GeneratorKind::Bat.spec_config_path(*paths, no_env()),
    {
        GeneratorKind::Bat.config_path(paths, &HostEnv::empty())
    }

    pub fn cache_path(&self, paths: &IrisPaths, theme: &str) -> (r: FsPath)
        ensures
            r@ == GeneratorKind::Bat.spec_cache_path(*paths, theme@),
    {
        GeneratorKind::Bat.cache_path(paths, theme)
    }

    pub fn link_path(&self, paths: &IrisPaths, theme: &str) -> (r: FsPath)
        ensures
            r@ == GeneratorKind::Bat.spec_link_path(*paths, no_env(), theme@),
    {
        GeneratorKind::Bat.link_path(paths, &HostEnv::empty(), theme)
    }

    pub fn theme_path(&self, paths: &IrisPaths, theme: &str) -> (r: FsPath)
        ensures
            r@ == GeneratorKind::Bat.spec_link_path(*paths, no_env(), theme@),
    {
        GeneratorKind::Bat.link_path(paths, &HostEnv::empty(), theme)
    }

    pub fn active_link_path(&self, paths: &IrisPaths) -> (r: Option<FsPath>)
        ensures
            r matches Some(p) ==> GeneratorKind::Bat.spec_active_link_path(*paths, no_env()) == Some(p@),
            r is None ==> GeneratorKind::Bat.spec_active_link_path(*paths, no_env()) is None,
    {
        GeneratorKind::Bat.active_link_path(paths, &HostEnv::empty())
    }

    pub fn template_path(&self) -> (r: String)
        ensures
            r@ == GeneratorKind::Bat.spec_template_path(),
    {
        GeneratorKind::Bat.template_path()
    }

    pub fn strategy(&self) -> (r: Strategy)
        ensures
            GeneratorKind::Bat.spec_strategy_is(r),
    {
        GeneratorKind::Bat.strategy()
    }

    /// Health of the application's setup, given the observed file system and
    /// whether its program is installed.
    pub fn health_check(&self, paths: &IrisPaths, env: &HostEnv, theme: &str, fs: &FsSnapshot, installed: bool) -> (r: HealthStatus)
        ensures
            r == GeneratorKind::Bat.spec_health(*paths, *env, theme@, *fs, installed),
    {
        GeneratorKind::Bat.health_check(paths, env, theme, fs, installed)
    }

    /// The shell startup file the application's settings are injected into.
    pub fn zshrc_path(&self, paths: &IrisPaths) -> (r: FsPath)
        ensures
            r@ == spec_zshrc_path(*paths),
    {
        zshrc_path(paths)
    }
}

/// Config generator for yazi.
#[derive(Debug, Clone, Copy)]
pub struct YaziGenerator;

impl YaziGenerator {
    /// The application this type answers for.
    pub fn kind(&self) -> (r: GeneratorKind)
        ensures
            r == GeneratorKind::Yazi,
    {
        GeneratorKind::Yazi
    }

    pub fn name(&self) -> (r: &'static str)
        ensures
            r@ == GeneratorKind::Yazi.spec_name(),
    {
        GeneratorKind::Yazi.name()
    }

    pub fn generator_type(&self) -> (r: GeneratorType)
        ensures
            r == GeneratorKind::Yazi.spec_type(),
    {
        GeneratorKind::Yazi.generator_type()
    }

    /// Whether the application's program is found on `PATH`.
    pub fn is_installed(&self) -> bool {
        GeneratorKind::Yazi.is_installed()
    }

    pub fn base_file_name(&self) -> (r: String)
        ensures
            r@ == GeneratorKind::Yazi.spec_base_file_name(),
    {
        GeneratorKind::Yazi.base_file_name()
    }

    pub fn file_name(&self, theme: &str) -> (r: String)
        ensures
            r@ == GeneratorKind::Yazi.spec_file_name(theme@),
    {
        GeneratorKind::Yazi.file_name(theme)
    }

    pub fn target_file_name(&self, theme: &str) -> (r: String)
        ensures
            r@ == GeneratorKind::Yazi.spec_file_name(theme@),
    {
        GeneratorKind::Yazi.file_name(theme)
    }

    pub fn config_dir(&self, paths: &IrisPaths) -> (r: FsPath)
        ensures
            r@ == GeneratorKind::Yazi.spec_config_dir(*paths, no_env()),
    {
        GeneratorKind::Yazi.config_dir(paths, &HostEnv::empty())
    }

    pub fn config_path(&self, paths: &IrisPaths) -> (r: FsPath)
        ensures
            r@ == GeneratorKind::Yazi.spec_config_path(*paths, no_env()),
    {
        GeneratorKind::Yazi.config_path(paths, &HostEnv::empty())
    }

    pub fn cache_path(&self, paths: &IrisPaths, theme: &str) -> (r: FsPath)
        ensures
            r@ == GeneratorKind::Yazi.spec_cache_path(*paths, theme@),
    {
        GeneratorKind::Yazi.cache_path(paths, theme)
    }

    pub fn link_path(&self, paths: &IrisPaths, theme: &str) -> (r: FsPath)
        ensures
            r@ == GeneratorKind::Yazi.spec_link_path(*paths, no_env(), theme@),
    {
        GeneratorKind::Yazi.link_path(paths, &HostEnv::empty(), theme)
    }

    pub fn theme_path(&self, paths: &IrisPaths, theme: &str) -> (r: FsPath)
        ensures
            r@ == GeneratorKind::Yazi.spec_link_path(*paths, no_env(), theme@),
    {
        GeneratorKind::Yazi.link_path(paths, &HostEnv::empty(), theme)
    }

    pub fn active_link_path(&self, paths: &IrisPaths) -> (r: Option<FsPath>)
        ensures
            r matches Some(p) ==> GeneratorKind::Yazi.spec_active_link_path(*paths, no_env()) == Some(p@),
            r is None ==> GeneratorKind::Yazi.spec_active_link_path(*paths, no_env()) is None,
    {
        GeneratorKind::Yazi.active_link_path(paths, &HostEnv::empty())
    }

    pub fn template_path(&self) -> (r: String)
        ensures
            r@ == GeneratorKind::Yazi.spec_template_path(),
    {
        GeneratorKind::Yazi.template_path()
    }

    pub fn strategy(&self) -> (r: Strategy)
        ensures
            GeneratorKind::Yazi.spec_strategy_is(r),
    {
        GeneratorKind::Yazi.strategy()
    }

    /// Health of the application's setup, given the observed file system and
    /// whether its program is installed.
    pub fn health_check(&self, paths: &IrisPaths, theme: &str, fs: &FsSnapshot, installed: bool) -> (r: HealthStatus)
        ensures
            r == GeneratorKind::Yazi.spec_health(*paths, no_env(), theme@, *fs, installed),
    {
        GeneratorKind::Yazi.health_check(paths, &HostEnv::empty(), theme, fs, installed)
    }
}

/// Config generator for fzf utility.
#[derive(Debug, Clone, Copy)]
pub struct FzfGenerator;

impl FzfGenerator {
    /// The application this type answers for.
    pub fn kind(&self) -> (r: GeneratorKind)
        ensures
            r == GeneratorKind::Fzf,
    {
        GeneratorKind::Fzf
    }

    pub fn name(&self) -> (r: &'static str)
        ensures
            r@ == GeneratorKind::Fzf.spec_name(),
    {
        GeneratorKind::Fzf.name()
    }

    pub fn generator_type(&self) -> (r: GeneratorType)
        ensures
            r == GeneratorKind::Fzf.spec_type(),
    {
        GeneratorKind::Fzf.generator_type()
    }

    /// Whether the application's program is found on `PATH`.
    pub fn is_installed(&self) -> bool {
        GeneratorKind::Fzf.is_installed()
    }

    pub fn base_file_name(&self) -> (r: String)
        ensures
            r@ == GeneratorKind::Fzf.spec_base_file_name(),
    {
        GeneratorKind::Fzf.base_file_name()
    }

    pub fn file_name(&self, theme: &str) -> (r: String)
        ensures
            r@ == GeneratorKind::Fzf.spec_file_name(theme@),
    {
        GeneratorKind::Fzf.file_name(theme)
    }

    pub fn target_file_name(&self, theme: &str) -> (r: String)
        ensures
            r@ == GeneratorKind::Fzf.spec_file_name(theme@),
    {
        GeneratorKind::Fzf.file_name(theme)
    }

    pub fn config_dir(&self, paths: &IrisPaths) -> (r: FsPath)
        ensures
            r@ == GeneratorKind::Fzf.spec_config_dir(*paths, no_env()),
    {
        GeneratorKind::Fzf.config_dir(paths, &HostEnv::empty())
    }

    pub fn config_path(&self, paths: &IrisPaths) -> (r: FsPath)
        ensures
            r@ == GeneratorKind::Fzf.spec_config_path(*paths, no_env()),
    {
        GeneratorKind::Fzf.config_path(paths, &HostEnv::empty())
    }

    pub fn cache_path(&self, paths: &IrisPaths, theme: &str) -> (r: FsPath)
        ensures
            r@ == GeneratorKind::Fzf.spec_cache_path(*paths, theme@),
    {
        GeneratorKind::Fzf.cache_path(paths, theme)
    }

    pub fn link_path(&self, paths: &IrisPaths, theme: &str) -> (r: FsPath)
        ensures
            r@ == GeneratorKind::Fzf.spec_link_path(*paths, no_env(), theme@),
    {
        GeneratorKind::Fzf.link_path(paths, &HostEnv::empty(), theme)
    }

    pub fn theme_path(&self, paths: &IrisPaths, theme: &str) -> (r: FsPath)
        ensures
            r@ == GeneratorKind::Fzf.spec_link_path(*paths, no_env(), theme@),
    {
        GeneratorKind::Fzf.link_path(paths, &HostEnv::empty(), theme)
    }

    pub fn active_link_path(&self, paths: &IrisPaths) -> (r: Option<FsPath>)
        ensures
            r matches Some(p) ==> GeneratorKind::Fzf.spec_active_link_path(*paths, no_env()) == Some(p@),
            r is None ==> GeneratorKind::Fzf.spec_active_link_path(*paths, no_env()) is None,
    {
        GeneratorKind::Fzf.active_link_path(paths, &HostEnv::empty())
    }

    pub fn template_path(&self) -> (r: String)
        ensures
            r@ == GeneratorKind::Fzf.spec_template_path(),
    {
        GeneratorKind::Fzf.template_path()
    }

    pub fn strategy(&self) -> (r: Strategy)
        ensures
            GeneratorKind::Fzf.spec_strategy_is(r),
    {
        GeneratorKind::Fzf.strategy()
    }

    /// Health of the application's setup, given the observed file system and
    /// whether its program is installed.
    pub fn health_check(&self, paths: &IrisPaths, theme: &str, fs: &FsSnapshot, installed: bool) -> (r: HealthStatus)
        ensures
            r == GeneratorKind::Fzf.spec_health(*paths, no_env(), theme@, *fs, installed),
    {
        GeneratorKind::Fzf.health_check(paths, &HostEnv::empty(), theme, fs, installed)
    }

    /// The shell startup file the application's settings are injected into.
    pub fn zshrc_path(&self, paths: &IrisPaths) -> (r: FsPath)
        ensures
            r@ == spec_zshrc_path(*paths),
    {
        zshrc_path(paths)
    }
}

/// Config generator for btop utility.
#[derive(Debug, Clone, Copy)]
pub struct BtopGenerator;

impl BtopGenerator {
    /// The application this type answers for.
    pub fn kind(&self) -> (r: GeneratorKind)
        ensures
            r == GeneratorKind::Btop,
    {
        GeneratorKind::Btop
    }

    pub fn name(&self) -> (r: &'static str)
        ensures
            r@ == GeneratorKind::Btop.spec_name(),
    {
        GeneratorKind::Btop.name()
    }

    pub fn generator_type(&self) -> (r: GeneratorType)
        ensures
            r == GeneratorKind::Btop.spec_type(),
    {
        GeneratorKind::Btop.generator_type()
    }

    /// Whether the application's program is found on `PATH`.
    pub fn is_installed(&self) -> bool {
        GeneratorKind::Btop.is_installed()
    }

    pub fn base_file_name(&self) -> (r: String)
        ensures
            r@ == GeneratorKind::Btop.spec_base_file_name(),
    {
        GeneratorKind::Btop.base_file_name()
    }

    pub fn file_name(&self, theme: &str) -> (r: String)
        ensures
            r@ == GeneratorKind::Btop.spec_file_name(theme@),
    {
        GeneratorKind::Btop.file_name(theme)
    }

    pub fn target_file_name(&self, theme: &str) -> (r: String)
        ensures
            r@ == GeneratorKind::Btop.spec_file_name(theme@),
    {
        GeneratorKind::Btop.file_name(theme)
    }

    pub fn config_dir(&self, paths: &IrisPaths) -> (r: FsPath)
        ensures
            r@ == GeneratorKind::Btop.spec_config_dir(*paths, no_env()),
    {
        GeneratorKind::Btop.config_dir(paths, &HostEnv::empty())
    }

    pub fn config_path(&self, paths: &IrisPaths) -> (r: FsPath)
        ensures
            r@ == GeneratorKind::Btop.spec_config_path(*paths, no_env()),
    {
        GeneratorKind::Btop.config_path(paths, &HostEnv::empty())
    }

    pub fn cache_path(&self, paths: &IrisPaths, theme: &str) -> (r: FsPath)
        ensures
            r@ == GeneratorKind::Btop.spec_cache_path(*paths, theme@),
    {
        GeneratorKind::Btop.cache_path(paths, theme)
    }

    pub fn link_path(&self, paths: &IrisPaths, theme: &str) -> (r: FsPath)
        ensures
            r@ == GeneratorKind::Btop.spec_link_path(*paths, no_env(), theme@),
    {
        GeneratorKind::Btop.link_path(paths, &HostEnv::empty(), theme)
    }

    pub fn theme_path(&self, paths: &IrisPaths, theme: &str) -> (r: FsPath)
        ensures
            r@ == GeneratorKind::Btop.spec_link_path(*paths, no_env(), theme@),
    {
        GeneratorKind::Btop.link_path(paths, &HostEnv::empty(), theme)
    }

    pub fn active_link_path(&self, paths: &IrisPaths) -> (r: Option<FsPath>)
        ensures
            r matches Some(p) ==> GeneratorKind::Btop.spec_active_link_path(*paths, no_env()) == Some(p@),
            r is None ==> GeneratorKind::Btop.spec_active_link_path(*paths, no_env()) is None,
    {
        GeneratorKind::Btop.active_link_path(paths, &HostEnv::empty())
    }

    pub fn template_path(&self) -> (r: String)
        ensures
            r@ == GeneratorKind::Btop.spec_template_path(),
    {
        GeneratorKind::Btop.template_path()
    }

    pub fn strategy(&self) -> (r: Strategy)
        ensures
            GeneratorKind::Btop.spec_strategy_is(r),
    {
        GeneratorKind::Btop.strategy()
    }

    /// Health of the application's setup, given the observed file system and
    /// whether its program is installed.
    pub fn health_check(&self, paths: &IrisPaths, theme: &str, fs: &FsSnapshot, installed: bool) -> (r: HealthStatus)
        ensures
            r == GeneratorKind::Btop.spec_health(*paths, no_env(), theme@, *fs, installed),
    {
        GeneratorKind::Btop.health_check(paths, &HostEnv::empty(), theme, fs, installed)
    }
}

/// Config generator for bottom.
#[derive(Debug, Clone, Copy)]
pub struct BottomGenerator;

impl BottomGenerator {
    /// The application this type answers for.
    pub fn kind(&self) -> (r: GeneratorKind)
        ensures
            r == GeneratorKind::Bottom,
    {
        GeneratorKind::Bottom
    }

    pub fn name(&self) -> (r: &'static str)
        ensures
            r@ == GeneratorKind::Bottom.spec_name(),
    {
        GeneratorKind::Bottom.name()
    }

    pub fn generator_type(&self) -> (r: GeneratorType)
        ensures
            r == GeneratorKind::Bottom.spec_type(),
    {
        GeneratorKind::Bottom.generator_type()
    }

    /// Whether the application's program is found on `PATH`.
    pub fn is_installed(&self) -> bool {
        GeneratorKind::Bottom.is_installed()
    }

    pub fn base_file_name(&self) -> (r: String)
        ensures
            r@ == GeneratorKind::Bottom.spec_base_file_name(),
    {
        GeneratorKind::Bottom.base_file_name()
    }

    pub fn file_name(&self, theme: &str) -> (r: String)
        ensures
            r@ == GeneratorKind::Bottom.spec_file_name(theme@),
    {
        GeneratorKind::Bottom.file_name(theme)
    }

    pub fn target_file_name(&self, theme: &str) -> (r: String)
        ensures
            r@ == GeneratorKind::Bottom.spec_file_name(theme@),
    {
        GeneratorKind::Bottom.file_name(theme)
    }

    pub fn config_dir(&self, paths: &IrisPaths) -> (r: FsPath)
        ensures
            r@ == GeneratorKind::Bottom.spec_config_dir(*paths, no_env()),
    {
        GeneratorKind::Bottom.config_dir(paths, &HostEnv::empty())
    }

    pub fn config_path(&self, paths: &IrisPaths) -> (r: FsPath)
        ensures
            r@ == GeneratorKind::Bottom.spec_config_path(*paths, no_env()),
    {
        GeneratorKind::Bottom.config_path(paths, &HostEnv::empty())
    }

    pub fn cache_path(&self, paths: &IrisPaths, theme: &str) -> (r: FsPath)
        ensures
            r@ == GeneratorKind::Bottom.spec_cache_path(*paths, theme@),
    {
        GeneratorKind::Bottom.cache_path(paths, theme)
    }

    pub fn link_path(&self, paths: &IrisPaths, theme: &str) -> (r: FsPath)
        ensures
            r@ == GeneratorKind::Bottom.spec_link_path(*paths, no_env(), theme@),
    {
        GeneratorKind::Bottom.link_path(paths, &HostEnv::empty(), theme)
    }

    pub fn theme_path(&self, paths: &IrisPaths, theme: &str) -> (r: FsPath)
        ensures
            r@ == GeneratorKind::Bottom.spec_link_path(*paths, no_env(), theme@),
    {
        GeneratorKind::Bottom.link_path(paths, &HostEnv::empty(), theme)
    }

    pub fn active_link_path(&self, paths: &IrisPaths) -> (r: Option<FsPath>)
        ensures
            r matches Some(p) ==> GeneratorKind::Bottom.spec_active_link_path(*paths, no_env()) == Some(p@),
            r is None ==> GeneratorKind::Bottom.spec_active_link_path(*paths, no_env()) is None,
    {
        GeneratorKind::Bottom.active_link_path(paths, &HostEnv::empty())
    }

    pub fn template_path(&self) -> (r: String)
        ensures
            r@ == GeneratorKind::Bottom.spec_template_path(),
    {
        GeneratorKind::Bottom.template_path()
    }

    pub fn strategy(&self) -> (r: Strategy)
        ensures
            GeneratorKind::Bottom.spec_strategy_is(r),
    {
        GeneratorKind::Bottom.strategy()
    }

    /// Health of the application's setup, given the observed file system and
    /// whether its program is installed.
    pub fn health_check(&self, paths: &IrisPaths, theme: &str, fs: &FsSnapshot, installed: bool) -> (r: HealthStatus)
        ensures
            r == GeneratorKind::Bottom.spec_health(*paths, no_env(), theme@, *fs, installed),
    {
        GeneratorKind::Bottom.health_check(paths, &HostEnv::empty(), theme, fs, installed)
    }
}

/// Config generator for tmux.
#[derive(Debug, Clone, Copy)]
pub struct TmuxGenerator;

impl TmuxGenerator {
    /// The application this type answers for.
    pub fn kind(&self) -> (r: GeneratorKind)
        ensures
            r == GeneratorKind::Tmux,
    {
        GeneratorKind::Tmux
    }

    pub fn name(&self) -> (r: &'static str)
        ensures
            r@ == GeneratorKind::Tmux.spec_name(),
    {
        GeneratorKind::Tmux.name()
    }

    pub fn generator_type(&self) -> (r: GeneratorType)
        ensures
            r == GeneratorKind::Tmux.spec_type(),
    {
        GeneratorKind::Tmux.generator_type()
    }

    /// Whether the application's program is found on `PATH`.
    pub fn is_installed(&self) -> bool {
        GeneratorKind::Tmux.is_installed()
    }

    pub fn base_file_name(&self) -> (r: String)
        ensures
            r@ == GeneratorKind::Tmux.spec_base_file_name(),
    {
        GeneratorKind::Tmux.base_file_name()
    }

    pub fn file_name(&self, theme: &str) -> (r: String)
        ensures
            r@ == GeneratorKind::Tmux.spec_file_name(theme@),
    {
        GeneratorKind::Tmux.file_name(theme)
    }

    pub fn target_file_name(&self, theme: &str) -> (r: String)
        ensures
            r@ == GeneratorKind::Tmux.spec_file_name(theme@),
    {
        GeneratorKind::Tmux.file_name(theme)
    }

    pub fn config_dir(&self, paths: &IrisPaths) -> (r: FsPath)
        ensures
            r@ == GeneratorKind::Tmux.spec_config_dir(*paths, no_env()),
    {
        GeneratorKind::Tmux.config_dir(paths, &HostEnv::empty())
    }

    pub fn config_path(&self, paths: &IrisPaths) -> (r: FsPath)
        ensures
            r@ == GeneratorKind::Tmux.spec_config_path(*paths, no_env()),
    {
        GeneratorKind::Tmux.config_path(paths, &HostEnv::empty())
    }

    pub fn cache_path(&self, paths: &IrisPaths, theme: &str) -> (r: FsPath)
        ensures
            r@ == GeneratorKind::Tmux.spec_cache_path(*paths, theme@),
    {
        GeneratorKind::Tmux.cache_path(paths, theme)
    }

    pub fn link_path(&self, paths: &IrisPaths, theme: &str) -> (r: FsPath)
        ensures
            r@ == GeneratorKind::Tmux.spec_link_path(*paths, no_env(), theme@),
    {
        GeneratorKind::Tmux.link_path(paths, &HostEnv::empty(), theme)
    }

    pub fn theme_path(&self, paths: &IrisPaths, theme: &str) -> (r: FsPath)
        ensures
            r@ == GeneratorKind::Tmux.spec_link_path(*paths, no_env(), theme@),
    {
        GeneratorKind::Tmux.link_path(paths, &HostEnv::empty(), theme)
    }

    pub fn active_link_path(&self, paths: &IrisPaths) -> (r: Option<FsPath>)
        ensures
            r matches Some(p) ==> GeneratorKind::Tmux.spec_active_link_path(*paths, no_env()) == Some(p@),
            r is None ==> GeneratorKind::Tmux.spec_active_link_path(*paths, no_env()) is None,
    {
        GeneratorKind::Tmux.active_link_path(paths, &HostEnv::empty())
    }

    pub fn template_path(&self) -> (r: String)
        ensures
            r@ == GeneratorKind::Tmux.spec_template_path(),
    {
        GeneratorKind::Tmux.template_path()
    }

    pub fn strategy(&self) -> (r: Strategy)
        ensures
            GeneratorKind::Tmux.spec_strategy_is(r),
    {
        GeneratorKind::Tmux.strategy()
    }

    /// Health of the application's setup, given the observed file system and
    /// whether its program is installed.
    pub fn health_check(&self, paths: &IrisPaths, theme: &str, fs: &FsSnapshot, installed: bool) -> (r: HealthStatus)
        ensures
            r == GeneratorKind::Tmux.spec_health(*paths, no_env(), theme@, *fs, installed),
    {
        GeneratorKind::Tmux.health_check(paths, &HostEnv::empty(), theme, fs, installed)
    }
}

/// Config generator for herdr.
#[derive(Debug, Clone, Copy)]
pub struct HerdrGenerator;

impl HerdrGenerator {
    /// The application this type answers for.
    pub fn kind(&self) -> (r: GeneratorKind)
        ensures
            r == GeneratorKind::Herdr,
    {
        GeneratorKind::Herdr
    }

    pub fn name(&self) -> (r: &'static str)
        ensures
            r@ == GeneratorKind::Herdr.spec_name(),
    {
        GeneratorKind::Herdr.name()
    }

    pub fn generator_type(&self) -> (r: GeneratorType)
        ensures
            r == GeneratorKind::Herdr.spec_type(),
    {
        GeneratorKind::Herdr.generator_type()
    }

    /// Whether the application's program is found on `PATH`.
    pub fn is_installed(&self) -> bool {
        GeneratorKind::Herdr.is_installed()
    }

    pub fn base_file_name(&self) -> (r: String)
        ensures
            r@ == GeneratorKind::Herdr.spec_base_file_name(),
    {
        GeneratorKind::Herdr.base_file_name()
    }

    pub fn file_name(&self, theme: &str) -> (r: String)
        ensures
            r@ == GeneratorKind::Herdr.spec_file_name(theme@),
    {
        GeneratorKind::Herdr.file_name(theme)
    }

    pub fn target_file_name(&self, theme: &str) -> (r: String)
        ensures
            r@ == GeneratorKind::Herdr.spec_file_name(theme@),
    {
        GeneratorKind::Herdr.file_name(theme)
    }

    pub fn config_dir(&self, paths: &IrisPaths) -> (r: FsPath)
        ensures
            r@ == GeneratorKind::Herdr.spec_config_dir(*paths, no_env()),
    {
        GeneratorKind::Herdr.config_dir(paths, &HostEnv::empty())
    }

    pub fn config_path(&self, paths: &IrisPaths) -> (r: FsPath)
        ensures
            r@ == GeneratorKind::Herdr.spec_config_path(*paths, no_env()),
    {
        GeneratorKind::Herdr.config_path(paths, &HostEnv::empty())
    }

    pub fn cache_path(&self, paths: &IrisPaths, theme: &str) -> (r: FsPath)
        ensures
            r@ == GeneratorKind::Herdr.spec_cache_path(*paths, theme@),
    {
        GeneratorKind::Herdr.cache_path(paths, theme)
    }

    pub fn link_path(&self, paths: &IrisPaths, theme: &str) -> (r: FsPath)
        ensures
            r@ == GeneratorKind::Herdr.spec_link_path(*paths, no_env(), theme@),
    {
        GeneratorKind::Herdr.link_path(paths, &HostEnv::empty(), theme)
    }

    pub fn theme_path(&self, paths: &IrisPaths, theme: &str) -> (r: FsPath)
        ensures
            r@ == GeneratorKind::Herdr.spec_link_path(*paths, no_env(), theme@),
    {
        GeneratorKind::Herdr.link_path(paths, &HostEnv::empty(), theme)
    }

    pub fn active_link_path(&self, paths: &IrisPaths) -> (r: Option<FsPath>)
        ensures
            r matches Some(p) ==> GeneratorKind::Herdr.spec_active_link_path(*paths, no_env()) == Some(p@),
            r is None ==> GeneratorKind::Herdr.spec_active_link_path(*paths, no_env()) is None,
    {
        GeneratorKind::Herdr.active_link_path(paths, &HostEnv::empty())
    }

    pub fn template_path(&self) -> (r: String)
        ensures
            r@ == GeneratorKind::Herdr.spec_template_path(),
    {
        GeneratorKind::Herdr.template_path()
    }

    pub fn strategy(&self) -> (r: Strategy)
        ensures
            GeneratorKind::Herdr.spec_strategy_is(r),
    {
        GeneratorKind::Herdr.strategy()
    }

    /// Health of the application's setup, given the observed file system and
    /// whether its program is installed.
    pub fn health_check(&self, paths: &IrisPaths, theme: &str, fs: &FsSnapshot, installed: bool) -> (r: HealthStatus)
        ensures
            r == GeneratorKind::Herdr.spec_health(*paths, no_env(), theme@, *fs, installed),
    {
        GeneratorKind::Herdr.health_check(paths, &HostEnv::empty(), theme, fs, installed)
    }
}

} // verus!
