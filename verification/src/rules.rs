//! Health checks put together from rules: the first rule that finds a
//! problem reports it.

use vstd::prelude::*;
use crate::diagnose::{markers_present, read_or_empty, spec_markers_present, spec_target_status, target_status};
use crate::generators::{GeneratorKind, HostEnv};
use crate::health::{FsSnapshot, HealthStatus, Issue};
use crate::paths::{FsPath, IrisPaths, PathView, display};
use crate::state::string_views;
use crate::text::str_eq;

verus! {

/// One check of a generator's setup.
#[derive(Debug, Clone)]
pub enum CheckRule {
    /// The configuration file exists.
    ConfigExists,
    /// The theme file holds the generator's begin and end markers.
    MarkersExist,
    /// The theme link is valid and, for a named theme, leads to the cache.
    SymlinkValid,
    /// The configuration's content is accepted.
    ContentValid,
    /// For a named theme, the generated file exists.
    CacheExists,
    /// The environment variable holds the expected path.
    EnvValid { var_name: String, expected: FsPath },
}

/// The value of `name` among `vars`, the first that has it; empty where unset.
pub open spec fn var_value(vars: Seq<(Seq<char>, Seq<char>)>, name: Seq<char>) -> Seq<char>
    decreases vars.len(),
{
    if vars.len() == 0 {
        Seq::<char>::empty()
    } else if vars[0].0 == name {
        vars[0].1
    } else {
        var_value(vars.drop_first(), name)
    }
}

pub open spec fn var_views(v: Seq<(String, String)>) -> Seq<(Seq<char>, Seq<char>)> {
    v.map_values(|p: (String, String)| (p.0@, p.1@))
}

/// What one rule reports.
pub open spec fn spec_rule_status(
    kind: GeneratorKind,
    rule: CheckRule,
    paths: IrisPaths,
    env: HostEnv,
    theme: Seq<char>,
    fs: FsSnapshot,
    vars: Seq<(Seq<char>, Seq<char>)>,
) -> HealthStatus {
    match rule {
        CheckRule::ConfigExists => fs.spec_check_file(kind.spec_config_path(paths, env), Issue::ConfigMissing),
        CheckRule::MarkersExist => if spec_markers_present(
            read_or_empty(fs, kind.spec_link_path(paths, env, theme)),
            kind.spec_name(),
        ) {
            HealthStatus::Good
        } else {
            HealthStatus::Warning(Issue::MarkerMissing)
        },
        CheckRule::SymlinkValid => {
            let link = kind.spec_link_path(paths, env, theme);
            let s = fs.spec_check_symlink(link, Issue::SymlinkInvalid);
            if !(s is Good) || theme.len() == 0 {
                s
            } else {
                spec_target_status(fs, link, kind.spec_cache_path(paths, theme))
            }
        },
        CheckRule::ContentValid => HealthStatus::Good,
        CheckRule::CacheExists => if theme.len() > 0 && !fs.spec_exists(kind.spec_cache_path(paths, theme)) {
            HealthStatus::Warning(Issue::CacheMissing)
        } else {
            HealthStatus::Good
        },
        CheckRule::EnvValid { var_name, expected } => if var_value(vars, var_name@) != display(expected@) {
            HealthStatus::Warning(Issue::EnvMismatch)
        } else {
            HealthStatus::Good
        },
    }
}

/// The first problem the rules find, in order; healthy where none does.
pub open spec fn first_problem(
    kind: GeneratorKind,
    rules: Seq<CheckRule>,
    paths: IrisPaths,
    env: HostEnv,
    theme: Seq<char>,
    fs: FsSnapshot,
    vars: Seq<(Seq<char>, Seq<char>)>,
) -> HealthStatus
    decreases rules.len(),
{
    if rules.len() == 0 {
        HealthStatus::Good
    } else {
        let s = spec_rule_status(kind, rules[0], paths, env, theme, fs, vars);
        if s is Good {
            first_problem(kind, rules.drop_first(), paths, env, theme, fs, vars)
        } else {
            s
        }
    }
}

fn var_lookup(vars: &[(String, String)], name: &str) -> (r: String)
    ensures
        r@ == var_value(var_views(vars@), name@),
{
    let mut i: usize = 0;
    let ghost vs = var_views(vars@);
    assert(vs.skip(0) =~= vs);
    while i < vars.len()
        invariant
            i <= vars@.len(),
            vs == var_views(vars@),
            var_value(vs, name@) == var_value(vs.skip(i as int), name@),
        decreases vars@.len() - i,
    {
        assert(vs.skip(i as int)[0] == vs[i as int]);
        assert(vs.skip(i as int).drop_first() =~= vs.skip(i + 1));
        if str_eq(vars[i].0.as_str(), name) {
            return String::from_str(vars[i].1.as_str());
        }
        i = i + 1;
    }
    String::new()
}

impl GeneratorKind {
    /// The rules of the generator: none of the applications has any.
    pub fn check_rules(&self) -> (r: Vec<CheckRule>)
        ensures
            r@.len() == 0,
    {
        Vec::new()
    }

    /// What one rule reports of the generator, against `fs` and the
    /// environment values `vars`.
    pub fn rule_status(
        &self,
        rule: &CheckRule,
        paths: &IrisPaths,
        env: &HostEnv,
        theme: &str,
        fs: &FsSnapshot,
        vars: &[(String, String)],
    ) -> (r: HealthStatus)
        ensures
            r == spec_rule_status(*self, *rule, *paths, *env, theme@, *fs, var_views(vars@)),
    {
        match rule {
            CheckRule::ConfigExists => fs.check_file(&self.config_path(paths, env), Issue::ConfigMissing),
            CheckRule::MarkersExist => {
                let content = fs.read_or_empty(&self.link_path(paths, env, theme));
                if markers_present(content.as_str(), self.name()) {
                    HealthStatus::Good
                } else {
                    HealthStatus::Warning(Issue::MarkerMissing)
                }
            },
            CheckRule::SymlinkValid => {
                let link = self.link_path(paths, env, theme);
                let s = fs.check_symlink(&link, Issue::SymlinkInvalid);
                if !s.is_ok() || theme.is_empty() {
                    s
                } else {
                    target_status(fs, &link, &self.cache_path(paths, theme))
                }
            },
            CheckRule::ContentValid => HealthStatus::Good,
            CheckRule::CacheExists => {
                if !theme.is_empty() && !fs.path_exists(&self.cache_path(paths, theme)) {
                    HealthStatus::Warning(Issue::CacheMissing)
                } else {
                    HealthStatus::Good
                }
            },
            CheckRule::EnvValid { var_name, expected } => {
                let current = var_lookup(vars, var_name.as_str());
                let shown = expected.display();
                if !str_eq(current.as_str(), shown.as_str()) {
                    HealthStatus::Warning(Issue::EnvMismatch)
                } else {
                    HealthStatus::Good
                }
            },
        }
    }

    /// A health check by rules: the program must be found, then the first
    /// rule that finds a problem reports it.
    pub fn check(
        &self,
        rules: &[CheckRule],
        paths: &IrisPaths,
        env: &HostEnv,
        theme: &str,
        fs: &FsSnapshot,
        installed: bool,
        vars: &[(String, String)],
    ) -> (r: HealthStatus)
        ensures
            r == (if !installed {
                HealthStatus::Error(Issue::BinaryNotFound)
            } else {
                first_problem(*self, rules@, *paths, *env, theme@, *fs, var_views(vars@))
            }),
    {
        if !installed {
            return HealthStatus::Error(Issue::BinaryNotFound);
        }
        let mut i: usize = 0;
        assert(rules@.skip(0) =~= rules@);
        while i < rules.len()
            invariant
                i <= rules@.len(),
                installed,
                first_problem(*self, rules@, *paths, *env, theme@, *fs, var_views(vars@)) == first_problem(
                    *self,
                    rules@.skip(i as int),
                    *paths,
                    *env,
                    theme@,
                    *fs,
                    var_views(vars@),
                ),
            decreases rules@.len() - i,
        {
            assert(rules@.skip(i as int)[0] == rules@[i as int]);
            assert(rules@.skip(i as int).drop_first() =~= rules@.skip(i + 1));
            let s = self.rule_status(&rules[i], paths, env, theme, fs, vars);
            let ghost rest = rules@.skip(i as int);
            assert(first_problem(*self, rest, *paths, *env, theme@, *fs, var_views(vars@)) == (if s is Good {
                first_problem(*self, rest.drop_first(), *paths, *env, theme@, *fs, var_views(vars@))
            } else {
                s
            }));
            if !s.is_ok() {
                return s;
            }
            i = i + 1;
        }
        HealthStatus::Good
    }
}

} // verus!
