//! Theme orchestration logic: generator metadata, path resolution, config
//! block editing, health diagnostics and palette handling.

pub mod kinds;
pub mod text;
pub mod strings;
pub mod paths;
pub mod health;
pub mod strategy;
pub mod generators;
pub mod diagnose;
pub mod apps;
pub mod palette;
pub mod bat_theme;
pub mod starship_palette;
pub mod diff;
pub mod state;
pub mod order;
pub mod registry;
pub mod actions;
pub mod lifecycle;
pub mod apply;
pub mod paint;
pub mod render;
pub mod colors;
pub mod theme;
pub mod setup;
pub mod rules;
pub mod ui;
pub mod run;
pub mod toml_doc;
pub mod steps;

pub use kinds::{ColorName, GeneratorFilter, GeneratorType, StateFilter};
pub use apps::{
    AlacrittyGenerator, BatGenerator, BottomGenerator, BtopGenerator, FzfGenerator,
    GhosttyGenerator, HerdrGenerator, KittyGenerator, StarshipGenerator, TmuxGenerator,
    WezTermGenerator, YaziGenerator,
};
pub use generators::{GeneratorKind, HostEnv};
pub use health::{FsEntry, FsNode, FsSnapshot, HealthStatus, Issue};
pub use paths::{FsPath, IrisPaths};
pub use strategy::{ConfigSource, PipelineStep, Strategy};
pub use strings::{capitalize, remove_key, remove_marker, replace_block};
