//! Taking a generator's theme files away: the whole cleanup of a generator,
//! and the removal of one theme. Each is decided against the observed file
//! system, step after step, as the operations before it leave it.

use vstd::prelude::*;
use crate::actions::{
    Action, ActionView, action_views, fs_after, fs_after_all, is_under, lemma_fs_after_all_append,
    lemma_fs_after_all_push, lemma_removals_keep_absent, lemma_tree_is_gone, lemma_removed_is_gone,
    only_removes,
};
use crate::generators::{GeneratorKind, HostEnv, spec_zshrc_path, zshrc_path};
use crate::health::{FsSnapshot, FsView, fs_canonical, fs_exists, fs_is_dir, fs_is_symlink, fs_read};
use crate::paths::{FsPath, IrisPaths, PathView, file_name, join};
use crate::strings::{
    begin_marker, end_marker, lemma_remove_marker_block_clears, remove_key, remove_marker_block,
    replace_block, spec_drop_lines, spec_remove_marker_block, spec_replace_block,
};
use crate::text::{concat, concat3, contains, lowercase, str_contains, str_eq, str_trim, to_lowercase, trim};

verus! {

/// Why a plan could not be made: a file that exists could not be read.
#[derive(Debug, Clone, PartialEq, Eq)]
pub enum PlanError {
    Unreadable(FsPath),
}

/// `a` where `c` holds, else nothing.
pub open spec fn when(c: bool, a: ActionView) -> Seq<ActionView> {
    if c {
        seq![a]
    } else {
        Seq::<ActionView>::empty()
    }
}

/// The configuration text once the generator's own parts are taken out:
/// its marker block, and for starship also the `palette` key.
pub open spec fn stripped_config(kind: GeneratorKind, content: Seq<char>) -> Seq<char> {
    match kind {
        GeneratorKind::Starship => spec_replace_block(
            spec_drop_lines(content, "palette"@ + " ="@),
            "starship"@,
            ""@,
        ),
        _ => spec_replace_block(content, kind.spec_name(), ""@),
    }
}

/// Rewrites the configuration file `cfg` without the generator's parts,
/// where it exists (herdr, bottom and starship keep their theme in it).
pub open spec fn spec_strip_config(kind: GeneratorKind, cfg: PathView, es: FsView) -> Result<
    Seq<ActionView>,
    PathView,
> {
    if !fs_exists(es, cfg) {
        Ok(Seq::<ActionView>::empty())
    } else {
        match fs_read(es, cfg) {
            None => Err(cfg),
            Some(c) => Ok(seq![ActionView::WriteFile(cfg, trim(stripped_config(kind, c)))]),
        }
    }
}

/// The generator's own configuration hook of a cleanup.
pub open spec fn cleans_config(kind: GeneratorKind) -> bool {
    kind == GeneratorKind::Herdr || kind == GeneratorKind::Starship || kind == GeneratorKind::Bottom
}

/// The generic cleanup of a generator: its configuration hook (with `hooks`),
/// its active link, its static link, a `themes` configuration directory, its
/// cache directory, and bat's `bat.conf` (with `hooks`).
pub open spec fn spec_default_cleanup(
    kind: GeneratorKind,
    paths: IrisPaths,
    env: HostEnv,
    es: FsView,
    hooks: bool,
) -> Result<Seq<ActionView>, PathView> {
    let cfg = kind.spec_link_path(paths, env, ""@);
    let strip = if hooks && cleans_config(kind) {
        spec_strip_config(kind, cfg, es)
    } else {
        Ok(Seq::<ActionView>::empty())
    };
    match strip {
        Err(p) => Err(p),
        Ok(a1) => {
            let f1 = fs_after_all(es, a1);
            let a2 = match kind.spec_active_link_path(paths, env) {
                Some(al) => when(fs_exists(f1, al) || fs_is_symlink(f1, al), ActionView::RemoveFile(al)),
                None => Seq::<ActionView>::empty(),
            };
            let f2 = fs_after_all(f1, a2);
            let a3 = when(fs_is_symlink(f2, cfg) || fs_exists(f2, cfg), ActionView::RemoveFile(cfg));
            let f3 = fs_after_all(f2, a3);
            let dir = kind.spec_config_dir(paths, env);
            let a4 = when(
                fs_exists(f3, dir) && fs_is_dir(f3, dir) && file_name(dir) == Some("themes"@),
                ActionView::RemoveDirAll(dir),
            );
            let f4 = fs_after_all(f3, a4);
            let gen = join(paths.generators@, kind.spec_name());
            let a5 = when(fs_exists(f4, gen), ActionView::RemoveDirAll(gen));
            let f5 = fs_after_all(f4, a5);
            let conf = join(paths.bin@, "bat.conf"@);
            let a6 = when(
                hooks && kind == GeneratorKind::Bat && fs_exists(f5, conf),
                ActionView::RemoveFile(conf),
            );
            Ok(a1 + a2 + a3 + a4 + a5 + a6)
        },
    }
}

/// The cleanup of fzf: its block and its marker lines leave `~/.zshrc`
/// (rewritten, trimmed, only where something changes), then its cache
/// directory goes.
pub open spec fn spec_fzf_cleanup(paths: IrisPaths, es: FsView) -> Result<Seq<ActionView>, PathView> {
    let z = spec_zshrc_path(paths);
    let strip = if !fs_exists(es, z) {
        Ok(Seq::<ActionView>::empty())
    } else {
        match fs_read(es, z) {
            None => Err(z),
            Some(c) => Ok(when(
                c != spec_remove_marker_block(c, "fzf"@),
                ActionView::WriteFile(z, trim(spec_remove_marker_block(c, "fzf"@))),
            )),
        }
    };
    match strip {
        Err(p) => Err(p),
        Ok(a1) => {
            let f1 = fs_after_all(es, a1);
            let gen = join(paths.generators@, "fzf"@);
            Ok(a1 + when(fs_exists(f1, gen), ActionView::RemoveDirAll(gen)))
        },
    }
}

/// What cleaning a generator up does.
pub open spec fn spec_cleanup(kind: GeneratorKind, paths: IrisPaths, env: HostEnv, es: FsView) -> Result<
    Seq<ActionView>,
    PathView,
> {
    match kind {
        GeneratorKind::Fzf => spec_fzf_cleanup(paths, es),
        _ => spec_default_cleanup(kind, paths, env, es, true),
    }
}

/// Performs `a` on the simulated file system and records it.
fn record(acts: &mut Vec<Action>, sim: &mut FsSnapshot, a: Action)
    ensures
        action_views(final(acts)@) == action_views(old(acts)@).push(a@),
        final(sim)@ == fs_after(old(sim)@, a@),
{
    sim.perform(&a);
    let ghost before = action_views(acts@);
    acts.push(a);
    assert(action_views(acts@) =~= before.push(a@));
}

proof fn lemma_when_after(f: FsView, c: bool, a: ActionView)
    ensures
        fs_after_all(f, when(c, a)) == (if c {
            fs_after(f, a)
        } else {
            f
        }),
{
    if c {
        lemma_fs_after_all_push(f, Seq::<ActionView>::empty(), a);
        assert(Seq::<ActionView>::empty().push(a) =~= seq![a]);
    }
}

/// Removes `p` where the condition holds, recording the step.
fn remove_when(acts: &mut Vec<Action>, sim: &mut FsSnapshot, c: bool, a: Action)
    ensures
        action_views(final(acts)@) == action_views(old(acts)@) + when(c, a@),
        final(sim)@ == fs_after_all(old(sim)@, when(c, a@)),
{
    proof {
        lemma_when_after(old(sim)@, c, a@);
    }
    if c {
        record(acts, sim, a);
        assert(action_views(acts@) =~= action_views(old(acts)@) + when(c, a@));
    } else {
        assert(action_views(acts@) =~= action_views(old(acts)@) + when(c, a@));
    }
}

/// The rewrite of a configuration file without the generator's parts.
fn strip_config(kind: GeneratorKind, cfg: &FsPath, fs: &FsSnapshot) -> (r: Result<Vec<Action>, PlanError>)
    ensures
        match spec_strip_config(kind, cfg@, fs@) {
            Ok(a) => r matches Ok(v) && action_views(v@) == a,
            Err(p) => r matches Err(PlanError::Unreadable(q)) && q@ == p,
        },
{
    let mut out: Vec<Action> = Vec::new();
    if !fs.path_exists(cfg) {
        assert(action_views(out@) =~= Seq::<ActionView>::empty());
        return Ok(out);
    }
    match fs.read(cfg) {
        None => Err(PlanError::Unreadable(cfg.clone_path())),
        Some(c) => {
            let cleaned = match kind {
                GeneratorKind::Starship => {
                    let k = remove_key(c.as_str(), "palette");
                    replace_block(k.as_str(), "starship", "")
                },
                _ => replace_block(c.as_str(), kind.name(), ""),
            };
            proof {
                reveal_strlit("starship");
            }
            out.push(Action::WriteFile { path: cfg.clone_path(), content: str_trim(cleaned.as_str()) });
            assert(action_views(out@) =~= seq![ActionView::WriteFile(cfg@, trim(stripped_config(kind, c@)))]);
            Ok(out)
        },
    }
}

impl GeneratorKind {
    /// The steps that clean the generator up, decided against `fs`; `hooks`
    /// adds the generator's own configuration rewrite and bat's `bat.conf`.
    pub fn default_cleanup(&self, paths: &IrisPaths, env: &HostEnv, fs: &FsSnapshot, hooks: bool) -> (r: Result<
        Vec<Action>,
        PlanError,
    >)
        ensures
            match spec_default_cleanup(*self, *paths, *env, fs@, hooks) {
                Ok(a) => r matches Ok(v) && action_views(v@) == a,
                Err(p) => r matches Err(PlanError::Unreadable(q)) && q@ == p,
            },
    {
        let cfg = self.link_path(paths, env, "");
        let mut acts: Vec<Action> = if hooks && (*self == GeneratorKind::Herdr || *self == GeneratorKind::Starship
            || *self == GeneratorKind::Bottom) {
            match strip_config(*self, &cfg, fs) {
                Ok(v) => v,
                Err(e) => return Err(e),
            }
        } else {
            Vec::new()
        };
        assert(action_views(acts@) =~= action_views(acts@));
        proof {
            if !(hooks && cleans_config(*self)) {
                assert(action_views(acts@) =~= Seq::<ActionView>::empty());
            }
        }
        let ghost a1 = action_views(acts@);
        let mut sim = fs.duplicate();
        let mut i: usize = 0;
        while i < acts.len()
            invariant
                i <= acts@.len(),
                a1 == action_views(acts@),
                sim@ == fs_after_all(fs@, a1.take(i as int)),
            decreases acts@.len() - i,
        {
            sim.perform(&acts[i]);
            proof {
                lemma_fs_after_all_push(fs@, a1.take(i as int), a1[i as int]);
                assert(a1.take(i + 1) =~= a1.take(i as int).push(a1[i as int]));
            }
            i = i + 1;
        }
        assert(a1.take(i as int) =~= a1);
        let ghost f1 = sim@;
        match self.active_link_path(paths, env) {
            Some(al) => {
                let c = sim.path_exists(&al) || sim.is_symlink(&al);
                remove_when(&mut acts, &mut sim, c, Action::RemoveFile(al));
            },
            None => {
                assert(action_views(acts@) =~= a1 + Seq::<ActionView>::empty());
                assert(fs_after_all(f1, Seq::<ActionView>::empty()) == f1);
            },
        }
        let ghost a12 = action_views(acts@);
        let ghost f2 = sim@;
        let c3 = sim.is_symlink(&cfg) || sim.path_exists(&cfg);
        remove_when(&mut acts, &mut sim, c3, Action::RemoveFile(cfg.clone_path()));
        let ghost f3 = sim@;
        let dir = self.config_dir(paths, env);
        let named_themes = match dir.file_name() {
            Some(n) => str_eq(n.as_str(), "themes"),
            None => false,
        };
        let c4 = sim.path_exists(&dir) && sim.is_dir(&dir) && named_themes;
        remove_when(&mut acts, &mut sim, c4, Action::RemoveDirAll(dir));
        let ghost f4 = sim@;
        let gen = paths.generators.join(self.name());
        let c5 = sim.path_exists(&gen);
        remove_when(&mut acts, &mut sim, c5, Action::RemoveDirAll(gen));
        let ghost f5 = sim@;
        let conf = paths.bin.join("bat.conf");
        let c6 = hooks && *self == GeneratorKind::Bat && sim.path_exists(&conf);
        remove_when(&mut acts, &mut sim, c6, Action::RemoveFile(conf));
        proof {
            reveal_strlit("themes");
        }
        Ok(acts)
    }

    /// The steps that clean the generator up, decided against `fs`.
    pub fn cleanup(&self, paths: &IrisPaths, env: &HostEnv, fs: &FsSnapshot) -> (r: Result<Vec<Action>, PlanError>)
        ensures
            match spec_cleanup(*self, *paths, *env, fs@) {
                Ok(a) => r matches Ok(v) && action_views(v@) == a,
                Err(p) => r matches Err(PlanError::Unreadable(q)) && q@ == p,
            },
    {
        match self {
            GeneratorKind::Fzf => fzf_cleanup(paths, fs),
            _ => self.default_cleanup(paths, env, fs, true),
        }
    }
}

/// The steps that clean fzf up, decided against `fs`.
fn fzf_cleanup(paths: &IrisPaths, fs: &FsSnapshot) -> (r: Result<Vec<Action>, PlanError>)
    ensures
        match spec_fzf_cleanup(*paths, fs@) {
            Ok(a) => r matches Ok(v) && action_views(v@) == a,
            Err(p) => r matches Err(PlanError::Unreadable(q)) && q@ == p,
        },
{
    let z = zshrc_path(paths);
    let mut acts: Vec<Action> = Vec::new();
    let mut sim = fs.duplicate();
    assert(action_views(acts@) =~= Seq::<ActionView>::empty());
    if sim.path_exists(&z) {
        match sim.read(&z) {
            None => {
                return Err(PlanError::Unreadable(z));
            },
            Some(c) => {
                let cleaned = remove_marker_block(c.as_str(), "fzf");
                let changed = !str_eq(c.as_str(), cleaned.as_str());
                remove_when(&mut acts, &mut sim, changed, Action::WriteFile { path: z.clone_path(), content: str_trim(cleaned.as_str()) });
            },
        }
    }
    let gen = paths.generators.join("fzf");
    let c = sim.path_exists(&gen);
    remove_when(&mut acts, &mut sim, c, Action::RemoveDirAll(gen));
    Ok(acts)
}

/// Removes a theme file at `t` where it is there: a link only where it
/// leads to the theme's cached file, a plain file unless it is the
/// configuration directory itself.
pub open spec fn remove_target(f: FsView, t: PathView, abs_cache: PathView, dir: PathView) -> Seq<ActionView> {
    if fs_exists(f, t) || fs_is_symlink(f, t) {
        if fs_is_symlink(f, t) {
            when(fs_canonical(f, t) == Some(abs_cache), ActionView::RemoveFile(t))
        } else {
            when(t != dir, ActionView::RemoveFile(t))
        }
    } else {
        Seq::<ActionView>::empty()
    }
}

/// The generic removal of a theme: the static link and the theme's link
/// where they are the theme's, then the cached file; bat then rebuilds its
/// cache.
pub open spec fn spec_default_remove(
    kind: GeneratorKind,
    paths: IrisPaths,
    env: HostEnv,
    theme: Seq<char>,
    es: FsView,
) -> Seq<ActionView> {
    let lower = lowercase(theme);
    let cache = kind.spec_cache_path(paths, lower);
    let abs_cache = if fs_exists(es, cache) {
        match fs_canonical(es, cache) {
            Some(c) => c,
            None => cache,
        }
    } else {
        cache
    };
    let st = kind.spec_link_path(paths, env, ""@);
    let cu = kind.spec_link_path(paths, env, lower);
    let dir = kind.spec_config_dir(paths, env);
    let a1 = remove_target(es, st, abs_cache, dir);
    let f1 = fs_after_all(es, a1);
    let a2 = if cu == st {
        Seq::<ActionView>::empty()
    } else {
        remove_target(f1, cu, abs_cache, dir)
    };
    let f2 = fs_after_all(f1, a2);
    let a3 = when(fs_exists(f2, cache), ActionView::RemoveFile(cache));
    let a4 = when(
        kind == GeneratorKind::Bat,
        ActionView::RunCommand("bat"@, seq!["cache"@, "--build"@], true),
    );
    a1 + a2 + a3 + a4
}

/// What marks a theme as the one written into the configuration file, for
/// the generators that keep their theme there.
pub open spec fn theme_mark(kind: GeneratorKind, lower: Seq<char>) -> Seq<char> {
    match kind {
        GeneratorKind::Starship => "palette = \""@ + lower + "\""@,
        GeneratorKind::Bottom => "# [iris:begin:bottom]"@,
        _ => "# iris_theme: "@ + lower,
    }
}

/// The removal of a theme from a generator that keeps it in its
/// configuration file (herdr, starship, bottom): the file is rewritten
/// without the generator's parts where it holds the theme, then the cached
/// block goes.
pub open spec fn spec_config_remove(
    kind: GeneratorKind,
    paths: IrisPaths,
    env: HostEnv,
    theme: Seq<char>,
    es: FsView,
) -> Result<Seq<ActionView>, PathView> {
    let lower = lowercase(theme);
    let cfg = kind.spec_link_path(paths, env, ""@);
    let strip = if !fs_exists(es, cfg) {
        Ok(Seq::<ActionView>::empty())
    } else {
        match fs_read(es, cfg) {
            None => Err(cfg),
            Some(c) => if contains(c, theme_mark(kind, lower)) {
                spec_strip_config(kind, cfg, es)
            } else {
                Ok(Seq::<ActionView>::empty())
            },
        }
    };
    match strip {
        Err(p) => Err(p),
        Ok(a1) => {
            let f1 = fs_after_all(es, a1);
            let cache = kind.spec_cache_path(paths, lower);
            Ok(a1 + when(fs_exists(f1, cache), ActionView::RemoveFile(cache)))
        },
    }
}

/// What removing a theme from a generator does.
pub open spec fn spec_remove_theme(
    kind: GeneratorKind,
    paths: IrisPaths,
    env: HostEnv,
    theme: Seq<char>,
    es: FsView,
) -> Result<Seq<ActionView>, PathView> {
    match kind {
        GeneratorKind::Herdr | GeneratorKind::Starship | GeneratorKind::Bottom => spec_config_remove(
            kind,
            paths,
            env,
            theme,
            es,
        ),
        GeneratorKind::Fzf => {
            let cache = kind.spec_cache_path(paths, lowercase(theme));
            Ok(when(fs_exists(es, cache), ActionView::RemoveFile(cache)))
        },
        _ => Ok(spec_default_remove(kind, paths, env, theme, es)),
    }
}

fn remove_target_exec(
    acts: &mut Vec<Action>,
    sim: &mut FsSnapshot,
    t: &FsPath,
    abs_cache: &FsPath,
    dir: &FsPath,
)
    ensures
        action_views(final(acts)@) == action_views(old(acts)@) + remove_target(old(sim)@, t@, abs_cache@, dir@),
        final(sim)@ == fs_after_all(old(sim)@, remove_target(old(sim)@, t@, abs_cache@, dir@)),
{
    if sim.path_exists(t) || sim.is_symlink(t) {
        if sim.is_symlink(t) {
            let same = match sim.canonical(t) {
                Some(c) => c.same_as(abs_cache),
                None => false,
            };
            remove_when(acts, sim, same, Action::RemoveFile(t.clone_path()));
        } else {
            let other = !t.same_as(dir);
            remove_when(acts, sim, other, Action::RemoveFile(t.clone_path()));
        }
    } else {
        assert(action_views(acts@) =~= action_views(old(acts)@) + Seq::<ActionView>::empty());
    }
}

impl GeneratorKind {
    /// The steps of the generic removal of `theme`, decided against `fs`.
    pub fn default_remove(&self, paths: &IrisPaths, env: &HostEnv, theme: &str, fs: &FsSnapshot) -> (r: Vec<Action>)
        ensures
            action_views(r@) == spec_default_remove(*self, *paths, *env, theme@, fs@),
    {
        let lower = to_lowercase(theme);
        let cache = self.cache_path(paths, lower.as_str());
        let abs_cache = if fs.path_exists(&cache) {
            match fs.canonical(&cache) {
                Some(c) => c,
                None => cache.clone_path(),
            }
        } else {
            cache.clone_path()
        };
        let st = self.link_path(paths, env, "");
        let cu = self.link_path(paths, env, lower.as_str());
        let dir = self.config_dir(paths, env);
        let mut acts: Vec<Action> = Vec::new();
        let mut sim = fs.duplicate();
        assert(action_views(acts@) =~= Seq::<ActionView>::empty());
        remove_target_exec(&mut acts, &mut sim, &st, &abs_cache, &dir);
        assert(action_views(acts@) =~= remove_target(fs@, st@, abs_cache@, dir@));
        if !cu.same_as(&st) {
            remove_target_exec(&mut acts, &mut sim, &cu, &abs_cache, &dir);
        } else {
            assert(action_views(acts@) =~= action_views(acts@) + Seq::<ActionView>::empty());
            assert(fs_after_all(sim@, Seq::<ActionView>::empty()) == sim@);
        }
        let c3 = sim.path_exists(&cache);
        remove_when(&mut acts, &mut sim, c3, Action::RemoveFile(cache));
        let is_bat = *self == GeneratorKind::Bat;
        let mut args: Vec<String> = Vec::new();
        args.push(String::from_str("cache"));
        args.push(String::from_str("--build"));
        let run = Action::RunCommand { program: String::from_str("bat"), args, silent: true };
        proof {
            reveal_strlit("bat");
            reveal_strlit("cache");
            reveal_strlit("--build");
            assert(crate::state::string_views(args@) =~= seq!["cache"@, "--build"@]);
        }
        remove_when(&mut acts, &mut sim, is_bat, run);
        acts
    }

    /// The steps that remove `theme` from the generator, decided against `fs`.
    pub fn remove_theme(&self, paths: &IrisPaths, env: &HostEnv, theme: &str, fs: &FsSnapshot) -> (r: Result<
        Vec<Action>,
        PlanError,
    >)
        ensures
            match spec_remove_theme(*self, *paths, *env, theme@, fs@) {
                Ok(a) => r matches Ok(v) && action_views(v@) == a,
                Err(p) => r matches Err(PlanError::Unreadable(q)) && q@ == p,
            },
    {
        match self {
            GeneratorKind::Herdr | GeneratorKind::Starship | GeneratorKind::Bottom => {
                self.config_remove(paths, env, theme, fs)
            },
            GeneratorKind::Fzf => {
                let lower = to_lowercase(theme);
                let cache = self.cache_path(paths, lower.as_str());
                let mut acts: Vec<Action> = Vec::new();
                let mut sim = fs.duplicate();
                assert(action_views(acts@) =~= Seq::<ActionView>::empty());
                let c = sim.path_exists(&cache);
                remove_when(&mut acts, &mut sim, c, Action::RemoveFile(cache));
                assert(action_views(acts@) =~= when(fs_exists(fs@, cache@), ActionView::RemoveFile(cache@)));
                Ok(acts)
            },
            _ => Ok(self.default_remove(paths, env, theme, fs)),
        }
    }

    fn config_remove(&self, paths: &IrisPaths, env: &HostEnv, theme: &str, fs: &FsSnapshot) -> (r: Result<
        Vec<Action>,
        PlanError,
    >)
        requires
            *self == GeneratorKind::Herdr || *self == GeneratorKind::Starship || *self == GeneratorKind::Bottom,
        ensures
            match spec_config_remove(*self, *paths, *env, theme@, fs@) {
                Ok(a) => r matches Ok(v) && action_views(v@) == a,
                Err(p) => r matches Err(PlanError::Unreadable(q)) && q@ == p,
            },
    {
        let lower = to_lowercase(theme);
        let cfg = self.link_path(paths, env, "");
        let mut acts: Vec<Action> = if !fs.path_exists(&cfg) {
            Vec::new()
        } else {
            match fs.read(&cfg) {
                None => return Err(PlanError::Unreadable(cfg)),
                Some(c) => {
                    let mark = match self {
                        GeneratorKind::Starship => concat3("palette = \"", lower.as_str(), "\""),
                        GeneratorKind::Bottom => String::from_str("# [iris:begin:bottom]"),
                        _ => concat("# iris_theme: ", lower.as_str()),
                    };
                    if str_contains(c.as_str(), mark.as_str()) {
                        match strip_config(*self, &cfg, fs) {
                            Ok(v) => v,
                            Err(e) => return Err(e),
                        }
                    } else {
                        Vec::new()
                    }
                },
            }
        };
        let ghost a1 = action_views(acts@);
        proof {
            if a1.len() == 0 {
                assert(a1 =~= Seq::<ActionView>::empty());
            }
        }
        let mut sim = fs.duplicate();
        let mut i: usize = 0;
        while i < acts.len()
            invariant
                i <= acts@.len(),
                a1 == action_views(acts@),
                sim@ == fs_after_all(fs@, a1.take(i as int)),
            decreases acts@.len() - i,
        {
            sim.perform(&acts[i]);
            proof {
                lemma_fs_after_all_push(fs@, a1.take(i as int), a1[i as int]);
                assert(a1.take(i + 1) =~= a1.take(i as int).push(a1[i as int]));
            }
            i = i + 1;
        }
        assert(a1.take(i as int) =~= a1);
        let cache = self.cache_path(paths, lower.as_str());
        let c = sim.path_exists(&cache);
        remove_when(&mut acts, &mut sim, c, Action::RemoveFile(cache));
        Ok(acts)
    }
}

/// After a removal step guarded by existence, the path does not exist.
proof fn lemma_guarded_removal(f: FsView, p: PathView, tree: bool)
    ensures
        !fs_exists(
            fs_after_all(
                f,
                when(
                    fs_exists(f, p),
                    if tree {
                        ActionView::RemoveDirAll(p)
                    } else {
                        ActionView::RemoveFile(p)
                    },
                ),
            ),
            p,
        ),
{
    let a = if tree {
        ActionView::RemoveDirAll(p)
    } else {
        ActionView::RemoveFile(p)
    };
    lemma_when_after(f, fs_exists(f, p), a);
    if fs_exists(f, p) {
        if tree {
            assert(p.1.take(p.1.len() as int) =~= p.1);
            lemma_tree_is_gone(f, p, p);
        } else {
            lemma_removed_is_gone(f, p);
        }
    }
}

proof fn lemma_when_only_removes(c: bool, a: ActionView)
    requires
        only_removes(a),
    ensures
        forall|i: int| 0 <= i < when(c, a).len() ==> only_removes(#[trigger] when(c, a)[i]),
{
}

/// Once a generator is cleaned up, its cache directory is gone.
pub proof fn lemma_cleanup_clears_cache_dir(
    kind: GeneratorKind,
    paths: IrisPaths,
    env: HostEnv,
    es: FsView,
    plan: Seq<ActionView>,
)
    requires
        spec_cleanup(kind, paths, env, es) == Ok::<Seq<ActionView>, PathView>(plan),
    ensures
        !fs_exists(fs_after_all(es, plan), join(paths.generators@, kind.spec_name())),
{
    let gen = join(paths.generators@, kind.spec_name());
    if kind == GeneratorKind::Fzf {
        let z = spec_zshrc_path(paths);
        let a1 = plan.take(plan.len() - when(fs_exists(es, gen), ActionView::RemoveDirAll(gen)).len());
        let strip = if !fs_exists(es, z) {
            Ok(Seq::<ActionView>::empty())
        } else {
            match fs_read(es, z) {
                None => Err(z),
                Some(c) => Ok(when(
                    c != spec_remove_marker_block(c, "fzf"@),
                    ActionView::WriteFile(z, trim(spec_remove_marker_block(c, "fzf"@))),
                )),
            }
        };
        let b1 = strip->Ok_0;
        let f1 = fs_after_all(es, b1);
        let b2 = when(fs_exists(f1, gen), ActionView::RemoveDirAll(gen));
        assert(plan == b1 + b2);
        lemma_fs_after_all_append(es, b1, b2);
        lemma_guarded_removal(f1, gen, true);
    } else {
        let cfg = kind.spec_link_path(paths, env, ""@);
        let strip = if cleans_config(kind) {
            spec_strip_config(kind, cfg, es)
        } else {
            Ok(Seq::<ActionView>::empty())
        };
        let a1 = strip->Ok_0;
        let f1 = fs_after_all(es, a1);
        let a2 = match kind.spec_active_link_path(paths, env) {
            Some(al) => when(fs_exists(f1, al) || fs_is_symlink(f1, al), ActionView::RemoveFile(al)),
            None => Seq::<ActionView>::empty(),
        };
        let f2 = fs_after_all(f1, a2);
        let a3 = when(fs_is_symlink(f2, cfg) || fs_exists(f2, cfg), ActionView::RemoveFile(cfg));
        let f3 = fs_after_all(f2, a3);
        let dir = kind.spec_config_dir(paths, env);
        let a4 = when(
            fs_exists(f3, dir) && fs_is_dir(f3, dir) && file_name(dir) == Some("themes"@),
            ActionView::RemoveDirAll(dir),
        );
        let f4 = fs_after_all(f3, a4);
        let a5 = when(fs_exists(f4, gen), ActionView::RemoveDirAll(gen));
        let f5 = fs_after_all(f4, a5);
        let conf = join(paths.bin@, "bat.conf"@);
        let a6 = when(kind == GeneratorKind::Bat && fs_exists(f5, conf), ActionView::RemoveFile(conf));
        assert(plan == a1 + a2 + a3 + a4 + a5 + a6);
        lemma_fs_after_all_append(es, a1, a2);
        lemma_fs_after_all_append(es, a1 + a2, a3);
        lemma_fs_after_all_append(es, a1 + a2 + a3, a4);
        lemma_fs_after_all_append(es, a1 + a2 + a3 + a4, a5);
        lemma_fs_after_all_append(es, a1 + a2 + a3 + a4 + a5, a6);
        lemma_guarded_removal(f4, gen, true);
        lemma_when_only_removes(kind == GeneratorKind::Bat && fs_exists(f5, conf), ActionView::RemoveFile(conf));
        lemma_removals_keep_absent(f5, a6, gen);
    }
}

/// Once a theme is removed from a generator, the theme's cached file is gone.
pub proof fn lemma_remove_clears_cache_file(
    kind: GeneratorKind,
    paths: IrisPaths,
    env: HostEnv,
    theme: Seq<char>,
    es: FsView,
    plan: Seq<ActionView>,
)
    requires
        spec_remove_theme(kind, paths, env, theme, es) == Ok::<Seq<ActionView>, PathView>(plan),
    ensures
        !fs_exists(fs_after_all(es, plan), kind.spec_cache_path(paths, lowercase(theme))),
{
    let lower = lowercase(theme);
    let cache = kind.spec_cache_path(paths, lower);
    match kind {
        GeneratorKind::Herdr | GeneratorKind::Starship | GeneratorKind::Bottom => {
            let cfg = kind.spec_link_path(paths, env, ""@);
            let strip = if !fs_exists(es, cfg) {
                Ok(Seq::<ActionView>::empty())
            } else {
                match fs_read(es, cfg) {
                    None => Err(cfg),
                    Some(c) => if contains(c, theme_mark(kind, lower)) {
                        spec_strip_config(kind, cfg, es)
                    } else {
                        Ok(Seq::<ActionView>::empty())
                    },
                }
            };
            let a1 = strip->Ok_0;
            let f1 = fs_after_all(es, a1);
            let a2 = when(fs_exists(f1, cache), ActionView::RemoveFile(cache));
            assert(plan == a1 + a2);
            lemma_fs_after_all_append(es, a1, a2);
            lemma_guarded_removal(f1, cache, false);
        },
        GeneratorKind::Fzf => {
            assert(plan == Seq::<ActionView>::empty() + when(fs_exists(es, cache), ActionView::RemoveFile(cache)));
            lemma_guarded_removal(es, cache, false);
        },
        _ => {
            let abs_cache = if fs_exists(es, cache) {
                match fs_canonical(es, cache) {
                    Some(c) => c,
                    None => cache,
                }
            } else {
                cache
            };
            let st = kind.spec_link_path(paths, env, ""@);
            let cu = kind.spec_link_path(paths, env, lower);
            let dir = kind.spec_config_dir(paths, env);
            let a1 = remove_target(es, st, abs_cache, dir);
            let f1 = fs_after_all(es, a1);
            let a2 = if cu == st {
                Seq::<ActionView>::empty()
            } else {
                remove_target(f1, cu, abs_cache, dir)
            };
            let f2 = fs_after_all(f1, a2);
            let a3 = when(fs_exists(f2, cache), ActionView::RemoveFile(cache));
            let f3 = fs_after_all(f2, a3);
            let a4 = when(
                kind == GeneratorKind::Bat,
                ActionView::RunCommand("bat"@, seq!["cache"@, "--build"@], true),
            );
            assert(plan == a1 + a2 + a3 + a4);
            lemma_fs_after_all_append(es, a1, a2);
            lemma_fs_after_all_append(es, a1 + a2, a3);
            lemma_fs_after_all_append(es, a1 + a2 + a3, a4);
            lemma_guarded_removal(f2, cache, false);
            lemma_when_only_removes(
                kind == GeneratorKind::Bat,
                ActionView::RunCommand("bat"@, seq!["cache"@, "--build"@], true),
            );
            lemma_removals_keep_absent(f3, a4, cache);
        },
    }
}

/// Cleaning fzf up leaves no line of its block in `~/.zshrc`: whatever the
/// cleanup writes there holds neither the begin nor the end marker of the
/// `fzf` block.
pub proof fn lemma_fzf_cleanup_clears_block(paths: IrisPaths, es: FsView)
    ensures
        spec_fzf_cleanup(paths, es) matches Ok(a) ==> forall|i: int|
            0 <= i < a.len() ==> (#[trigger] a[i] matches ActionView::WriteFile(_, t) ==> !contains(
                t,
                begin_marker("fzf"@),
            ) && !contains(t, end_marker("fzf"@))),
{
    reveal_strlit("fzf");
    let z = spec_zshrc_path(paths);
    if fs_exists(es, z) {
        if let Some(c) = fs_read(es, z) {
            lemma_remove_marker_block_clears(c, "fzf"@);
        }
    }
    if let Ok(a) = spec_fzf_cleanup(paths, es) {
        assert forall|i: int| 0 <= i < a.len() implies (#[trigger] a[i] matches ActionView::WriteFile(_, t)
            ==> !contains(t, begin_marker("fzf"@)) && !contains(t, end_marker("fzf"@))) by {
        }
    }
}

} // verus!
