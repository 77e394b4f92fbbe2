//! The registry of generators: every known generator, listed by category and
//! name, with lookups and the selections the commands work on.

use vstd::prelude::*;
use vstd::multiset::Multiset;
use crate::generators::{GeneratorKind, HostEnv};
use crate::health::{FsSnapshot, HealthStatus};
use crate::kinds::GeneratorType;
use crate::order::{key_less, key_lt, lemma_key_le_transitive, lemma_key_lt_asymmetric};
use crate::paths::IrisPaths;
use crate::state::State;
use crate::strategy::Strategy;
use crate::text::{chars_of, concat, concat3, contains, join, join_lines, str_eq, string_of, views};
use crate::paint::{Tint, painted, tint, tinted};

verus! {

/// A generator that stands in for an application in tests of the registry.
pub struct GeneratorMock {
    pub name: String,
    pub g_type: GeneratorType,
    pub installed: bool,
    pub strategy: Strategy,
}

impl GeneratorMock {
    pub fn name(&self) -> (r: &str)
        ensures
            r@ == self.name@,
    {
        self.name.as_str()
    }

    pub fn generator_type(&self) -> (r: GeneratorType)
        ensures
            r == self.g_type,
    {
        self.g_type
    }

    pub fn is_installed(&self) -> (r: bool)
        ensures
            r == self.installed,
    {
        self.installed
    }

    /// `<name>.conf`, whatever the theme.
    pub fn target_file_name(&self, _theme: &str) -> (r: String)
        ensures
            r@ == self.name@ + ".conf"@,
    {
        concat(self.name.as_str(), ".conf")
    }

    /// A stand-in is always healthy.
    pub fn health_check(&self, _paths: &IrisPaths, _theme: &str) -> (r: HealthStatus)
        ensures
            r == HealthStatus::Good,
    {
        HealthStatus::Good
    }
}

/// A generator held by the registry: a supported application with whether
/// its program was found, or a stand-in.
pub enum Generator {
    Builtin { kind: GeneratorKind, installed: bool },
    Mock(GeneratorMock),
}

/// What the registry knows of a generator.
pub struct GeneratorView {
    pub name: Seq<char>,
    pub g_type: GeneratorType,
    pub installed: bool,
    /// The application, for a supported one.
    pub kind: Option<GeneratorKind>,
}

impl View for Generator {
    type V = GeneratorView;

    open spec fn view(&self) -> GeneratorView {
        match self {
            Generator::Builtin { kind, installed } => GeneratorView {
                name: kind.spec_name(),
                g_type: kind.spec_type(),
                installed: *installed,
                kind: Some(*kind),
            },
            Generator::Mock(m) => GeneratorView {
                name: m.name@,
                g_type: m.g_type,
                installed: m.installed,
                kind: None,
            },
        }
    }
}

impl Generator {
    pub fn name(&self) -> (r: &str)
        ensures
            r@ == self@.name,
    {
        match self {
            Generator::Builtin { kind, installed: _ } => kind.name(),
            Generator::Mock(m) => m.name.as_str(),
        }
    }

    pub fn generator_type(&self) -> (r: GeneratorType)
        ensures
            r == self@.g_type,
    {
        match self {
            Generator::Builtin { kind, installed: _ } => kind.generator_type(),
            Generator::Mock(m) => m.g_type,
        }
    }

    pub fn is_installed(&self) -> (r: bool)
        ensures
            r == self@.installed,
    {
        match self {
            Generator::Builtin { kind: _, installed } => *installed,
            Generator::Mock(m) => m.installed,
        }
    }
}

/// `x` comes strictly before `y` in listings.
pub open spec fn before(x: GeneratorView, y: GeneratorView) -> bool {
    key_lt(x.g_type, x.name, y.g_type, y.name)
}

/// `x` placed into `s` after every generator it does not come before.
pub open spec fn insert_sorted(s: Seq<GeneratorView>, x: GeneratorView) -> Seq<GeneratorView>
    decreases s.len(),
{
    if s.len() == 0 {
        seq![x]
    } else if before(x, s.last()) {
        insert_sorted(s.drop_last(), x).push(s.last())
    } else {
        s.push(x)
    }
}

/// A stable sort of `s` by category, then name: generators with equal keys
/// keep their order.
pub open spec fn sort_generators(s: Seq<GeneratorView>) -> Seq<GeneratorView>
    decreases s.len(),
{
    if s.len() == 0 {
        Seq::<GeneratorView>::empty()
    } else {
        insert_sorted(sort_generators(s.drop_last()), s.last())
    }
}

/// No generator comes before one listed earlier.
pub open spec fn is_sorted(s: Seq<GeneratorView>) -> bool {
    forall|i: int, j: int| 0 <= i < j < s.len() ==> !before(#[trigger] s[j], #[trigger] s[i])
}

proof fn lemma_insert_sorted_elements(s: Seq<GeneratorView>, x: GeneratorView)
    ensures
        insert_sorted(s, x).len() == s.len() + 1,
        forall|i: int|
            0 <= i < s.len() + 1 ==> (#[trigger] insert_sorted(s, x)[i] == x || s.contains(
                insert_sorted(s, x)[i],
            )),
    decreases s.len(),
{
    if s.len() > 0 && before(x, s.last()) {
        lemma_insert_sorted_elements(s.drop_last(), x);
        let r = insert_sorted(s, x);
        assert forall|i: int| 0 <= i < s.len() + 1 implies (#[trigger] r[i] == x || s.contains(r[i])) by {
            if i < s.len() {
                let e = insert_sorted(s.drop_last(), x)[i];
                if e != x {
                    let k = choose|k: int| 0 <= k < s.drop_last().len() && s.drop_last()[k] == e;
                    assert(s[k] == e);
                }
            } else {
                assert(r[i] == s[s.len() - 1]);
            }
        }
    } else if s.len() > 0 {
        let r = insert_sorted(s, x);
        assert forall|i: int| 0 <= i < s.len() + 1 implies (#[trigger] r[i] == x || s.contains(r[i])) by {
            if i < s.len() {
                assert(r[i] == s[i]);
            }
        }
    }
}

/// Inserting into a sorted list keeps it sorted.
pub proof fn lemma_insert_keeps_sorted(s: Seq<GeneratorView>, x: GeneratorView)
    requires
        is_sorted(s),
    ensures
        is_sorted(insert_sorted(s, x)),
    decreases s.len(),
{
    if s.len() == 0 {
        return;
    }
    let l = s.last();
    let r = insert_sorted(s, x);
    if before(x, l) {
        let t = s.drop_last();
        assert(is_sorted(t));
        lemma_insert_keeps_sorted(t, x);
        lemma_insert_sorted_elements(t, x);
        let u = insert_sorted(t, x);
        assert forall|i: int, j: int| 0 <= i < j < r.len() implies !before(#[trigger] r[j], #[trigger] r[i]) by {
            if j < r.len() - 1 {
                assert(r[i] == u[i] && r[j] == u[j]);
            } else {
                assert(r[j] == l);
                assert(r[i] == u[i]);
                if u[i] == x {
                    lemma_key_lt_asymmetric(x.g_type, x.name, l.g_type, l.name);
                } else {
                    assert(t.contains(u[i]));
                    let k = choose|k: int| 0 <= k < t.len() && t[k] == u[i];
                    assert(s[k] == u[i]);
                    assert(!before(s[s.len() - 1], s[k]));
                }
            }
        }
    } else {
        assert forall|i: int, j: int| 0 <= i < j < r.len() implies !before(#[trigger] r[j], #[trigger] r[i]) by {
            if j < r.len() - 1 {
                assert(r[i] == s[i] && r[j] == s[j]);
            } else {
                assert(r[j] == x);
                assert(r[i] == s[i]);
                if i < s.len() - 1 {
                    assert(!before(s[s.len() - 1], s[i]));
                } else {
                    crate::order::lemma_name_lt_irreflexive(l.name);
                }
                lemma_key_le_transitive(s[i].g_type, s[i].name, l.g_type, l.name, x.g_type, x.name);
            }
        }
    }
}

/// Inserting adds exactly the one generator.
pub proof fn lemma_insert_multiset(s: Seq<GeneratorView>, x: GeneratorView)
    ensures
        insert_sorted(s, x).to_multiset() == s.to_multiset().insert(x),
    decreases s.len(),
{
    broadcast use vstd::seq_lib::group_to_multiset_ensures;

    if s.len() > 0 && before(x, s.last()) {
        lemma_insert_multiset(s.drop_last(), x);
        assert(s.drop_last().push(s.last()) =~= s);
        assert(insert_sorted(s, x).to_multiset() =~= s.to_multiset().insert(x));
    }
}

/// Sorting a registry's generators lists them in order.
pub proof fn lemma_sort_is_sorted(s: Seq<GeneratorView>)
    ensures
        is_sorted(sort_generators(s)),
    decreases s.len(),
{
    if s.len() > 0 {
        lemma_sort_is_sorted(s.drop_last());
        lemma_insert_keeps_sorted(sort_generators(s.drop_last()), s.last());
    }
}

/// Sorting keeps every generator, each as often as it was given.
pub proof fn lemma_sort_is_permutation(s: Seq<GeneratorView>)
    ensures
        sort_generators(s).to_multiset() == s.to_multiset(),
    decreases s.len(),
{
    broadcast use vstd::seq_lib::group_to_multiset_ensures;

    if s.len() > 0 {
        lemma_sort_is_permutation(s.drop_last());
        lemma_insert_multiset(sort_generators(s.drop_last()), s.last());
        assert(s.drop_last().push(s.last()) =~= s);
    }
}

/// The views of a list of generators.
pub open spec fn generator_views(v: Seq<Generator>) -> Seq<GeneratorView> {
    v.map_values(|g: Generator| g@)
}

/// Where `x` goes into `t`, found from the end: `insert_sorted` splits there.
proof fn lemma_insert_at(t: Seq<GeneratorView>, x: GeneratorView, p: int)
    requires
        0 <= p <= t.len(),
        forall|k: int| p <= k < t.len() ==> before(x, #[trigger] t[k]),
        p == 0 || !before(x, t[p - 1]),
    ensures
        insert_sorted(t, x) == t.take(p).push(x) + t.skip(p),
    decreases t.len() - p,
{
    if p < t.len() {
        assert(before(x, t[t.len() - 1]));
        lemma_insert_at(t.drop_last(), x, p);
        assert(t.drop_last().take(p) =~= t.take(p));
        assert(t.drop_last().skip(p).push(t.last()) =~= t.skip(p));
        assert(insert_sorted(t, x) =~= t.take(p).push(x) + t.skip(p));
    } else {
        assert(t.take(p) =~= t);
        assert(t.skip(p) =~= Seq::<GeneratorView>::empty());
        if t.len() > 0 {
            assert(!before(x, t.last()));
        }
        assert(insert_sorted(t, x) =~= t.take(p).push(x) + t.skip(p));
    }
}

/// All generators, listed by category and then by name.
pub struct GeneratorRegistry {
    generators: Vec<Generator>,
}

impl View for GeneratorRegistry {
    type V = Seq<GeneratorView>;

    closed spec fn view(&self) -> Seq<GeneratorView> {
        generator_views(self.generators@)
    }
}

impl Default for GeneratorRegistry {
    /// An empty registry.
    fn default() -> (r: GeneratorRegistry)
        ensures
            r@ == Seq::<GeneratorView>::empty(),
    {
        let r = GeneratorRegistry { generators: Vec::new() };
        assert(r@ =~= Seq::<GeneratorView>::empty());
        r
    }
}

impl GeneratorRegistry {
    /// A registry of `gens`, listed by category and then by name; generators
    /// with the same category and name keep their order.
    pub fn from_generators(gens: Vec<Generator>) -> (r: GeneratorRegistry)
        ensures
            r@ == sort_generators(generator_views(gens@)),
    {
        let ghost input = generator_views(gens@);
        let mut rest = gens;
        let mut out: Vec<Generator> = Vec::new();
        let mut n: usize = 0;
        let total = rest.len();
        assert(input.take(0) =~= Seq::<GeneratorView>::empty());
        while rest.len() > 0
            invariant
                n <= input.len(),
                n + rest@.len() == total,
                total == input.len(),
                generator_views(rest@) == input.skip(n as int),
                generator_views(out@) == sort_generators(input.take(n as int)),
            decreases rest@.len(),
        {
            let g = rest.remove(0);
            assert(generator_views(rest@) =~= input.skip(n + 1)) by {
                assert(input.skip(n as int).drop_first() =~= input.skip(n + 1));
            }
            let ghost x = g@;
            assert(x == input[n as int]) by {
                assert(input.skip(n as int)[0] == input[n as int]);
            }
            let ghost t = generator_views(out@);
            let mut p: usize = out.len();
            while p > 0 && key_less(g.generator_type(), g.name(), out[p - 1].generator_type(), out[p - 1].name())
                invariant
                    p <= out@.len(),
                    t == generator_views(out@),
                    x == g@,
                    forall|k: int| p <= k < t.len() ==> before(x, #[trigger] t[k]),
                decreases p,
            {
                assert(t[p - 1] == out@[p - 1]@);
                p = p - 1;
            }
            proof {
                if p > 0 {
                    assert(t[p - 1] == out@[p - 1]@);
                }
                lemma_insert_at(t, x, p as int);
                assert(input.take(n + 1).drop_last() =~= input.take(n as int));
                assert(input.take(n + 1).last() == x);
            }
            out.insert(p, g);
            assert(generator_views(out@) =~= t.take(p as int).push(x) + t.skip(p as int));
            n = n + 1;
        }
        assert(input.take(n as int) =~= input) by {
            assert(input.skip(n as int).len() == 0);
        }
        GeneratorRegistry { generators: out }
    }
}

/// The supported applications that each category contributes, in the order
/// the category lists them.
pub open spec fn spec_get_all(t: GeneratorType) -> Seq<GeneratorKind> {
    match t {
        GeneratorType::Terminal => seq![GeneratorKind::Alacritty, GeneratorKind::Ghostty],
        GeneratorType::Prompt => seq![GeneratorKind::Starship],
        GeneratorType::Tool => seq![GeneratorKind::Bat, GeneratorKind::Yazi, GeneratorKind::Fzf],
        GeneratorType::System => seq![GeneratorKind::Btop, GeneratorKind::Bottom],
        GeneratorType::Multiplexer => seq![GeneratorKind::Tmux, GeneratorKind::Herdr],
    }
}

/// The applications a category contributes to the registry.
pub fn get_all(t: GeneratorType) -> (r: Vec<GeneratorKind>)
    ensures
        r@ == spec_get_all(t),
{
    match t {
        GeneratorType::Terminal => vec![GeneratorKind::Alacritty, GeneratorKind::Ghostty],
        GeneratorType::Prompt => vec![GeneratorKind::Starship],
        GeneratorType::Tool => vec![GeneratorKind::Bat, GeneratorKind::Yazi, GeneratorKind::Fzf],
        GeneratorType::System => vec![GeneratorKind::Btop, GeneratorKind::Bottom],
        GeneratorType::Multiplexer => vec![GeneratorKind::Tmux, GeneratorKind::Herdr],
    }
}

/// Every registered application, in the order the categories are gathered:
/// terminals, prompts, tools, system, multiplexers.
pub open spec fn spec_registered() -> Seq<GeneratorKind> {
    spec_get_all(GeneratorType::Terminal) + spec_get_all(GeneratorType::Prompt) + spec_get_all(
        GeneratorType::Tool,
    ) + spec_get_all(GeneratorType::System) + spec_get_all(GeneratorType::Multiplexer)
}

/// The registry's view of applications with whether each program was found.
pub open spec fn builtin_views(kinds: Seq<GeneratorKind>, installed: Seq<bool>) -> Seq<GeneratorView> {
    Seq::new(
        kinds.len(),
        |i: int|
            GeneratorView {
                name: kinds[i].spec_name(),
                g_type: kinds[i].spec_type(),
                installed: installed[i],
                kind: Some(kinds[i]),
            },
    )
}

/// Index of the last generator called `name`: the one a lookup by name finds.
pub open spec fn last_named(s: Seq<GeneratorView>, name: Seq<char>) -> Option<int>
    decreases s.len(),
{
    if s.len() == 0 {
        None
    } else if s.last().name == name {
        Some(s.len() - 1)
    } else {
        last_named(s.drop_last(), name)
    }
}

/// What a selection of the registry keeps.
pub enum Selection<'a> {
    /// Generators of one category.
    OfType(GeneratorType),
    /// Generators whose program was found.
    Installed,
    /// Generators the user enabled.
    Enabled(&'a State),
    /// Generators the user enabled whose program was found.
    EnabledAndInstalled(&'a State),
    /// Generators whose program was found that the user did not enable.
    InstalledNotEnabled(&'a State),
}

impl<'a> Selection<'a> {
    pub open spec fn keeps(&self, g: GeneratorView) -> bool {
        match self {
            Selection::OfType(t) => g.g_type == *t,
            Selection::Installed => g.installed,
            Selection::Enabled(st) => st.spec_is_enabled(g.name),
            Selection::EnabledAndInstalled(st) => st.spec_is_enabled(g.name) && g.installed,
            Selection::InstalledNotEnabled(st) => g.installed && !st.spec_is_enabled(g.name),
        }
    }

    fn test(&self, g: &Generator) -> (r: bool)
        ensures
            r == self.keeps(g@),
    {
        match self {
            Selection::OfType(t) => g.generator_type() == *t,
            Selection::Installed => g.is_installed(),
            Selection::Enabled(st) => st.is_enabled(g.name()),
            Selection::EnabledAndInstalled(st) => st.is_enabled(g.name()) && g.is_installed(),
            Selection::InstalledNotEnabled(st) => g.is_installed() && !st.is_enabled(g.name()),
        }
    }
}

/// The generators of `s` a selection keeps, in order.
pub open spec fn selected(s: Seq<GeneratorView>, sel: Selection) -> Seq<GeneratorView>
    decreases s.len(),
{
    if s.len() == 0 {
        Seq::<GeneratorView>::empty()
    } else if sel.keeps(s.last()) {
        selected(s.drop_last(), sel).push(s.last())
    } else {
        selected(s.drop_last(), sel)
    }
}

/// The views of a list of borrowed generators.
pub open spec fn ref_views(v: Seq<&Generator>) -> Seq<GeneratorView> {
    v.map_values(|g: &Generator| g@)
}

/// What a health check reports of a generator: a supported application is
/// checked against the file system; a stand-in is healthy.
pub open spec fn view_health(
    g: GeneratorView,
    paths: IrisPaths,
    env: HostEnv,
    theme: Seq<char>,
    fs: FsSnapshot,
) -> HealthStatus {
    match g.kind {
        Some(k) => k.spec_health(paths, env, theme, fs, g.installed),
        None => HealthStatus::Good,
    }
}

/// The enabled generators of `s` with their health, those that are healthy
/// (`good`) or those that are not.
pub open spec fn checked(
    s: Seq<GeneratorView>,
    state: State,
    paths: IrisPaths,
    env: HostEnv,
    theme: Seq<char>,
    fs: FsSnapshot,
    good: bool,
) -> Seq<(GeneratorView, HealthStatus)>
    decreases s.len(),
{
    if s.len() == 0 {
        Seq::<(GeneratorView, HealthStatus)>::empty()
    } else {
        let rest = checked(s.drop_last(), state, paths, env, theme, fs, good);
        let g = s.last();
        let h = view_health(g, paths, env, theme, fs);
        if state.spec_is_enabled(g.name) && ((h is Good) == good) {
            rest.push((g, h))
        } else {
            rest
        }
    }
}

/// The views of checked generators with their health.
pub open spec fn checked_views(v: Seq<(&Generator, HealthStatus)>) -> Seq<(GeneratorView, HealthStatus)> {
    v.map_values(|p: (&Generator, HealthStatus)| (p.0@, p.1))
}

/// Categories in listing order.
pub open spec fn spec_all_types() -> Seq<GeneratorType> {
    seq![
        GeneratorType::Terminal,
        GeneratorType::Tool,
        GeneratorType::Prompt,
        GeneratorType::Multiplexer,
        GeneratorType::System,
    ]
}

/// Some generator of `s` is of category `t`.
pub open spec fn has_type(s: Seq<GeneratorView>, t: GeneratorType) -> bool {
    exists|i: int| 0 <= i < s.len() && (#[trigger] s[i]).g_type == t
}

/// The categories of `ts` that some generator of `s` has, in order.
pub open spec fn types_present(ts: Seq<GeneratorType>, s: Seq<GeneratorView>) -> Seq<GeneratorType>
    decreases ts.len(),
{
    if ts.len() == 0 {
        Seq::<GeneratorType>::empty()
    } else if has_type(s, ts.last()) {
        types_present(ts.drop_last(), s).push(ts.last())
    } else {
        types_present(ts.drop_last(), s)
    }
}

/// The names in `enabled`, in that order, that some generator in `s` has.
pub open spec fn active_names(s: Seq<GeneratorView>, enabled: Seq<Seq<char>>) -> Seq<Seq<char>>
    decreases enabled.len(),
{
    if enabled.len() == 0 {
        Seq::empty()
    } else {
        let rest = active_names(s, enabled.drop_last());
        if last_named(s, enabled.last()) is Some {
            rest.push(enabled.last())
        } else {
            rest
        }
    }
}

/// Why a lookup in the registry failed.
#[derive(Debug, Clone, PartialEq, Eq)]
pub enum RegistryError {
    /// No generator has the name.
    NotFound(String),
}

impl RegistryError {
    pub open spec fn spec_message(&self) -> Seq<char> {
        match self {
            RegistryError::NotFound(n) => "Generator `"@ + n@ + "` not found in registry!"@,
        }
    }

    pub fn message(&self) -> (r: String)
        ensures
            r@ == self.spec_message(),
    {
        match self {
            RegistryError::NotFound(n) => concat3("Generator `", n.as_str(), "` not found in registry!"),
        }
    }
}

impl Generator {
    /// Runs the generator's health check against the observed file system.
    pub fn health_check(&self, paths: &IrisPaths, env: &HostEnv, theme: &str, fs: &FsSnapshot) -> (r: HealthStatus)
        ensures
            r == view_health(self@, *paths, *env, theme@, *fs),
    {
        match self {
            Generator::Builtin { kind, installed } => kind.health_check(paths, env, theme, fs, *installed),
            Generator::Mock(m) => m.health_check(paths, theme),
        }
    }
}

impl GeneratorRegistry {
    /// Every registered application, with whether its program is on `PATH`.
    ///
    /// Which programs are found depends on the machine; the list, its order
    /// by category and name, and everything but those flags are fixed.
    pub fn new() -> (r: GeneratorRegistry)
        ensures
            exists|installed: Seq<bool>|
                installed.len() == spec_registered().len() && r@ == sort_generators(
                    #[trigger] builtin_views(spec_registered(), installed),
                ),
    {
        let mut kinds: Vec<GeneratorKind> = get_all(GeneratorType::Terminal);
        let mut more = get_all(GeneratorType::Prompt);
        kinds.append(&mut more);
        let mut more = get_all(GeneratorType::Tool);
        kinds.append(&mut more);
        let mut more = get_all(GeneratorType::System);
        kinds.append(&mut more);
        let mut more = get_all(GeneratorType::Multiplexer);
        kinds.append(&mut more);
        assert(kinds@ =~= spec_registered());
        let mut gens: Vec<Generator> = Vec::new();
        let mut flags: Ghost<Seq<bool>> = Ghost(Seq::empty());
        let mut i: usize = 0;
        while i < kinds.len()
            invariant
                i <= kinds@.len(),
                kinds@ == spec_registered(),
                flags@.len() == i,
                generator_views(gens@) == builtin_views(kinds@.take(i as int), flags@),
            decreases kinds@.len() - i,
        {
            let kind = kinds[i];
            let installed = kind.is_installed();
            let ghost old_gens = gens@;
            let ghost old_flags = flags@;
            assert(old_gens.len() == i) by {
                assert(generator_views(old_gens).len() == old_gens.len());
            }
            gens.push(Generator::Builtin { kind, installed });
            assert(gens@ == old_gens.push(Generator::Builtin { kind, installed }));
            proof {
                flags@ = flags@.push(installed);
                assert forall|k: int| 0 <= k < i implies #[trigger] generator_views(gens@)[k] == builtin_views(
                    kinds@.take(i + 1),
                    flags@,
                )[k] by {
                    assert(gens@[k] == old_gens[k]);
                    assert(generator_views(old_gens)[k] == builtin_views(kinds@.take(i as int), old_flags)[k]);
                    assert(flags@[k] == old_flags[k]);
                }
            }
            assert(gens@[i as int]@ == builtin_views(kinds@.take(i + 1), flags@)[i as int]);
            assert(generator_views(gens@) =~= builtin_views(kinds@.take(i + 1), flags@));
            i = i + 1;
        }
        assert(kinds@.take(i as int) =~= kinds@);
        let r = GeneratorRegistry::from_generators(gens);
        assert(r@ == sort_generators(builtin_views(spec_registered(), flags@)));
        r
    }

    /// Every generator, in listing order.
    pub fn all(&self) -> (r: &[Generator])
        ensures
            generator_views(r@) == self@,
    {
        self.generators.as_slice()
    }

    /// The names of every generator, in listing order.
    pub fn names(&self) -> (r: Vec<String>)
        ensures
            r@.len() == self@.len(),
            forall|i: int| 0 <= i < r@.len() ==> #[trigger] r@[i]@ == self@[i].name,
    {
        let mut out: Vec<String> = Vec::new();
        let mut i: usize = 0;
        while i < self.generators.len()
            invariant
                i <= self.generators@.len(),
                out@.len() == i,
                forall|k: int| 0 <= k < i ==> #[trigger] out@[k]@ == self@[k].name,
            decreases self.generators@.len() - i,
        {
            out.push(String::from_str(self.generators[i].name()));
            i = i + 1;
        }
        out
    }

    /// The categories some generator has, each once, in listing order.
    pub fn types(&self) -> (r: Vec<GeneratorType>)
        ensures
            r@ == types_present(spec_all_types(), self@),
    {
        let all = [
            GeneratorType::Terminal,
            GeneratorType::Tool,
            GeneratorType::Prompt,
            GeneratorType::Multiplexer,
            GeneratorType::System,
        ];
        assert(all@ =~= spec_all_types());
        let mut out: Vec<GeneratorType> = Vec::new();
        let mut i: usize = 0;
        while i < 5
            invariant
                i <= 5,
                all@ == spec_all_types(),
                out@ == types_present(all@.take(i as int), self@),
            decreases 5 - i,
        {
            let t = all[i];
            let mut found = false;
            let mut k: usize = 0;
            while k < self.generators.len()
                invariant
                    k <= self.generators@.len(),
                    found == exists|j: int| 0 <= j < k && (#[trigger] self@[j]).g_type == t,
                decreases self.generators@.len() - k,
            {
                assert(self@[k as int] == self.generators@[k as int]@);
                if self.generators[k].generator_type() == t {
                    found = true;
                }
                k = k + 1;
            }
            assert(all@.take(i + 1).drop_last() =~= all@.take(i as int));
            assert(all@.take(i + 1).last() == t);
            if found {
                out.push(t);
            }
            i = i + 1;
        }
        assert(all@.take(5) =~= all@);
        out
    }

    /// The generator called `name`: the last one listed where several are.
    pub fn get(&self, name: &str) -> (r: Option<&Generator>)
        ensures
            match last_named(self@, name@) {
                Some(i) => r matches Some(g) && g@ == self@[i],
                None => r is None,
            },
    {
        let mut i: usize = self.generators.len();
        assert(self@.take(i as int) =~= self@);
        while i > 0
            invariant
                i <= self.generators@.len(),
                last_named(self@, name@) == last_named(self@.take(i as int), name@),
            decreases i,
        {
            assert(self@.take(i as int).last() == self.generators@[i - 1]@);
            assert(self@.take(i as int).drop_last() =~= self@.take(i - 1));
            if str_eq(self.generators[i - 1].name(), name) {
                return Some(&self.generators[i - 1]);
            }
            i = i - 1;
        }
        None
    }

    /// The generator called `name`, or an error naming it.
    pub fn get_required(&self, name: &str) -> (r: Result<&Generator, RegistryError>)
        ensures
            match last_named(self@, name@) {
                Some(i) => r matches Ok(g) && g@ == self@[i],
                None => r matches Err(RegistryError::NotFound(n)) && n@ == name@,
            },
    {
        match self.get(name) {
            Some(g) => Ok(g),
            None => Err(RegistryError::NotFound(String::from_str(name))),
        }
    }

    /// Whether some generator is called `name`.
    pub fn has_generator(&self, name: &str) -> (r: bool)
        ensures
            r == (last_named(self@, name@) is Some),
    {
        self.get(name).is_some()
    }

    /// Whether the program of the generator called `name` was found; `false`
    /// for an unknown name.
    pub fn is_installed(&self, name: &str) -> (r: bool)
        ensures
            r == match last_named(self@, name@) {
                Some(i) => self@[i].installed,
                None => false,
            },
    {
        match self.get(name) {
            Some(g) => g.is_installed(),
            None => false,
        }
    }

    fn select(&self, sel: &Selection) -> (r: Vec<&Generator>)
        ensures
            ref_views(r@) == selected(self@, *sel),
    {
        let mut out: Vec<&Generator> = Vec::new();
        let mut i: usize = 0;
        assert(self@.take(0) =~= Seq::<GeneratorView>::empty());
        assert(ref_views(out@) =~= Seq::<GeneratorView>::empty());
        while i < self.generators.len()
            invariant
                i <= self.generators@.len(),
                ref_views(out@) == selected(self@.take(i as int), *sel),
            decreases self.generators@.len() - i,
        {
            let g = &self.generators[i];
            assert(self@.take(i + 1).drop_last() =~= self@.take(i as int));
            assert(self@.take(i + 1).last() == g@);
            let ghost before = ref_views(out@);
            if sel.test(g) {
                out.push(g);
                assert(ref_views(out@) =~= before.push(g@));
            }
            i = i + 1;
        }
        assert(self@.take(i as int) =~= self@);
        out
    }

    /// The generators of category `g_type`, in listing order.
    pub fn by_type(&self, g_type: GeneratorType) -> (r: Vec<&Generator>)
        ensures
            ref_views(r@) == selected(self@, Selection::OfType(g_type)),
    {
        self.select(&Selection::OfType(g_type))
    }

    /// The generators whose program was found, in listing order.
    pub fn installed(&self) -> (r: Vec<&Generator>)
        ensures
            ref_views(r@) == selected(self@, Selection::Installed),
    {
        self.select(&Selection::Installed)
    }

    /// The generators the user enabled whose program was found.
    pub fn enabled_and_installed(&self, state: &State) -> (r: Vec<&Generator>)
        ensures
            ref_views(r@) == selected(self@, Selection::EnabledAndInstalled(state)),
    {
        self.select(&Selection::EnabledAndInstalled(state))
    }

    /// The generators whose program was found that the user has not enabled.
    pub fn discover_unenabled(&self, state: &State) -> (r: Vec<&Generator>)
        ensures
            ref_views(r@) == selected(self@, Selection::InstalledNotEnabled(state)),
    {
        self.select(&Selection::InstalledNotEnabled(state))
    }

    /// The names of the enabled generators, in the order they were enabled,
    /// each painted cyan and joined by `, `; enabled names that no generator
    /// has are left out.
    pub fn active(&self, state: &State) -> (r: String)
        ensures
            exists|ps: Seq<Seq<char>>|
                {
                    &&& ps.len() == active_names(self@, state.spec_enabled()).len()
                    &&& forall|i: int|
                        0 <= i < ps.len() ==> painted(
                            #[trigger] ps[i],
                            active_names(self@, state.spec_enabled())[i],
                            tinted(Tint::Cyan),
                        )
                    &&& r@ == join(ps, ", "@)
                },
    {
        let names = state.enabled_names();
        let ghost all = state.spec_enabled();
        let mut parts: Vec<Vec<char>> = Vec::new();
        let mut i: usize = 0;
        let ghost mut en: Seq<Seq<char>> = Seq::empty();
        while i < names.len()
            invariant
                i <= names@.len(),
                all == crate::state::string_views(names@),
                en == active_names(self@, all.take(i as int)),
                views(parts@).len() == en.len(),
                forall|k: int| 0 <= k < en.len() ==> painted(#[trigger] views(parts@)[k], en[k], tinted(Tint::Cyan)),
            decreases names@.len() - i,
        {
            let name = names[i].as_str();
            assert(all.take(i + 1).drop_last() =~= all.take(i as int));
            assert(all.take(i + 1).last() == name@);
            if self.has_generator(name) {
                let painted = tint(name, Tint::Cyan);
                let ghost before = views(parts@);
                parts.push(chars_of(painted.as_str()));
                assert(views(parts@) =~= before.push(painted@));
                proof {
                    en = en.push(name@);
                }
            }
            i = i + 1;
        }
        assert(all.take(i as int) =~= all);
        let sep = chars_of(", ");
        let joined = join_lines(&parts, &sep);
        string_of(&joined)
    }

    /// Health checks of the enabled generators: those reported healthy, and
    /// those with a warning or an error, each with its status, in listing order.
    pub fn check_all(&self, state: &State, paths: &IrisPaths, env: &HostEnv, theme: &str, fs: &FsSnapshot) -> (r: (
        Vec<(&Generator, HealthStatus)>,
        Vec<(&Generator, HealthStatus)>,
    ))
        ensures
            checked_views(r.0@) == checked(self@, *state, *paths, *env, theme@, *fs, true),
            checked_views(r.1@) == checked(self@, *state, *paths, *env, theme@, *fs, false),
    {
        let mut healthy: Vec<(&Generator, HealthStatus)> = Vec::new();
        let mut errors: Vec<(&Generator, HealthStatus)> = Vec::new();
        let mut i: usize = 0;
        assert(checked_views(healthy@) =~= Seq::<(GeneratorView, HealthStatus)>::empty());
        assert(checked_views(errors@) =~= Seq::<(GeneratorView, HealthStatus)>::empty());
        while i < self.generators.len()
            invariant
                i <= self.generators@.len(),
                checked_views(healthy@) == checked(self@.take(i as int), *state, *paths, *env, theme@, *fs, true),
                checked_views(errors@) == checked(self@.take(i as int), *state, *paths, *env, theme@, *fs, false),
            decreases self.generators@.len() - i,
        {
            let g = &self.generators[i];
            assert(self@.take(i + 1).drop_last() =~= self@.take(i as int));
            assert(self@.take(i + 1).last() == g@);
            if state.is_enabled(g.name()) {
                let status = g.health_check(paths, env, theme, fs);
                if status.is_ok() {
                    let ghost before = checked_views(healthy@);
                    healthy.push((g, status));
                    assert(checked_views(healthy@) =~= before.push((g@, status)));
                } else {
                    let ghost before = checked_views(errors@);
                    errors.push((g, status));
                    assert(checked_views(errors@) =~= before.push((g@, status)));
                }
            }
            i = i + 1;
        }
        assert(self@.take(i as int) =~= self@);
        (healthy, errors)
    }
}

/// A lookup by name finds a generator of that name, the last listed; it
/// finds none only where no generator has the name.
pub proof fn lemma_lookup_finds_name(s: Seq<GeneratorView>, name: Seq<char>)
    ensures
        match last_named(s, name) {
            Some(i) => 0 <= i < s.len() && s[i].name == name && forall|j: int|
                i < j < s.len() ==> (#[trigger] s[j]).name != name,
            None => forall|j: int| 0 <= j < s.len() ==> (#[trigger] s[j]).name != name,
        },
    decreases s.len(),
{
    if s.len() > 0 {
        lemma_lookup_finds_name(s.drop_last(), name);
        assert forall|j: int| 0 <= j < s.len() - 1 implies s.drop_last()[j] == #[trigger] s[j] by {}
    }
}

/// The installed generators are split by the user's choice into the enabled
/// ones and the ones left to discover.
pub proof fn lemma_installed_split(s: Seq<GeneratorView>, state: &State)
    ensures
        selected(s, Selection::Installed).len() == selected(s, Selection::EnabledAndInstalled(state)).len()
            + selected(s, Selection::InstalledNotEnabled(state)).len(),
    decreases s.len(),
{
    if s.len() > 0 {
        lemma_installed_split(s.drop_last(), state);
    }
}

/// Every enabled generator is reported once by a health check of all: either
/// among the healthy or among those with a problem.
pub proof fn lemma_check_all_covers_enabled(
    s: Seq<GeneratorView>,
    state: State,
    paths: IrisPaths,
    env: HostEnv,
    theme: Seq<char>,
    fs: FsSnapshot,
)
    ensures
        checked(s, state, paths, env, theme, fs, true).len() + checked(s, state, paths, env, theme, fs, false).len()
            == selected(s, Selection::Enabled(&state)).len(),
        forall|i: int|
            0 <= i < checked(s, state, paths, env, theme, fs, true).len() ==> (#[trigger] checked(
                s,
                state,
                paths,
                env,
                theme,
                fs,
                true,
            )[i]).1 is Good,
        forall|i: int|
            0 <= i < checked(s, state, paths, env, theme, fs, false).len() ==> !((#[trigger] checked(
                s,
                state,
                paths,
                env,
                theme,
                fs,
                false,
            )[i]).1 is Good),
    decreases s.len(),
{
    if s.len() > 0 {
        lemma_check_all_covers_enabled(s.drop_last(), state, paths, env, theme, fs);
        let t = checked(s.drop_last(), state, paths, env, theme, fs, true);
        let e = checked(s.drop_last(), state, paths, env, theme, fs, false);
        assert forall|i: int| 0 <= i < t.len() implies checked(s, state, paths, env, theme, fs, true)[i] == #[trigger] t[i] by {}
        assert forall|i: int| 0 <= i < e.len() implies checked(s, state, paths, env, theme, fs, false)[i] == #[trigger] e[i] by {}
    }
}

} // verus!
