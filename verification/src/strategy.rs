//! How a theme reaches an application, and where its configuration lives.

use vstd::prelude::*;
use crate::paths::{FsPath, IrisPaths, PathView, join, parent_or_self};

verus! {

/// Step for a pipeline strategy.
#[derive(Debug, Clone, PartialEq, Eq)]
pub enum PipelineStep {
    /// Generate file from template in specified path (e.g. in .cache or .config)
    GenerateFile { template_name: String, destination: FsPath },
    /// Inject or update block of code in configuration file
    InjectBlock { file_path: FsPath, marker: String, content: String },
    /// Run external system command (e.g. `bat cache --build` or `source ~/.zshrc`)
    RunCommand { program: String, args: Vec<String>, silent: bool },
}

/// Strategy for applying a theme to a specific application.
#[derive(Debug, Clone)]
pub enum Strategy {
    /// Generates file in .cache/iris and makes symlink into app config
    Symlink,
    /// Fully overwrites static config file
    StaticOverwrite,
    /// Makes step in order to apply theme
    Pipeline { steps: Vec<PipelineStep> },
    /// Injects necessary settings into existing config file
    InjectBlock { file: String },
}

/// Configuration source type.
#[derive(Debug, Clone)]
pub enum ConfigSource {
    /// Standard path to the config directory (`~/.config/[name]/...`)
    Default,
    /// Must be a file specified via an environment variable or in the config
    File(FsPath),
    /// Directory specified via an environment variable
    Dir(FsPath),
}

/// The directory that holds an application's configuration.
pub open spec fn spec_config_dir(source: ConfigSource, config: PathView, name: Seq<char>) -> PathView {
    match source {
        ConfigSource::File(p) => parent_or_self(p@),
        ConfigSource::Dir(p) => p@,
        ConfigSource::Default => join(parent_or_self(config), name),
    }
}

/// The main configuration file an application reads.
pub open spec fn spec_config_path(source: ConfigSource, config: PathView, name: Seq<char>, base_file: Seq<char>) -> PathView {
    match source {
        ConfigSource::File(p) => p@,
        ConfigSource::Dir(p) => join(p@, base_file),
        ConfigSource::Default => join(spec_config_dir(source, config, name), base_file),
    }
}

/// The configuration directory: the parent of a configured file, a configured
/// directory, or `<name>` next to the tool's own configuration directory.
pub fn config_dir(source: &ConfigSource, paths: &IrisPaths, name: &str) -> (r: FsPath)
    ensures
        r@ == spec_config_dir(*source, paths.config@, name@),
{
    match source {
        ConfigSource::File(p) => p.parent_or_self(),
        ConfigSource::Dir(p) => p.clone_path(),
        ConfigSource::Default => paths.config.parent_or_self().join(name),
    }
}

/// The main configuration file: a configured file, or `base_file` in the
/// configuration directory.
pub fn config_path(source: &ConfigSource, paths: &IrisPaths, name: &str, base_file: &str) -> (r: FsPath)
    ensures
        r@ == spec_config_path(*source, paths.config@, name@, base_file@),
{
    match source {
        ConfigSource::File(p) => p.clone_path(),
        ConfigSource::Dir(p) => p.join(base_file),
        ConfigSource::Default => config_dir(source, paths, name).join(base_file),
    }
}

/// The generated file of a generator: `<generators>/<name>/<file>`.
pub open spec fn spec_cache_path(paths: IrisPaths, name: Seq<char>, file: Seq<char>) -> PathView {
    join(join(paths.generators@, name), file)
}

pub fn cache_path_for(paths: &IrisPaths, name: &str, file: &str) -> (r: FsPath)
    ensures
        r@ == spec_cache_path(*paths, name@, file@),
{
    paths.generators.join(name).join(file)
}

} // verus!
