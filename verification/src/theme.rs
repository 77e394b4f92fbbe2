//! Which theme is active, whether the tool follows Neovim, and how a theme is
//! obtained: from the cache or from Neovim.

use vstd::prelude::*;
use crate::health::{FsSnapshot, fs_read};
use crate::paint::{Paint, Tint, paint, painted};
use crate::paths::IrisPaths;
use crate::strings::{capitalize, spec_capitalize};
use crate::text::{chars_of, concat, concat3, lowercase, str_eq, str_trim, string_of, to_lowercase, trim};

verus! {

/// Why the active theme is not known.
#[derive(Debug, Clone, Copy, PartialEq, Eq, Structural)]
pub enum ThemeError {
    /// The file naming the active theme cannot be read.
    NoActiveTheme,
    /// The file naming the active theme holds nothing but whitespace.
    EmptyCache,
}

/// The hint printed with `NoActiveTheme`, with its two highlighted words
/// (`h1`, `h2`) as painted.
pub open spec fn no_theme_text(h1: Seq<char>, h2: Seq<char>) -> Seq<char> {
    "No active theme detected.\n"@ + h1
        + ": Make sure to switch theme in Neovim or pass the name manually: `"@ + h2 + "`"@
}

pub open spec fn bold_cyan() -> Paint {
    Paint { fg: Tint::Cyan, bold: true, dimmed: false }
}

impl ThemeError {
    /// The message shown for the error.
    pub fn message(&self) -> (r: String)
        ensures
            match *self {
                ThemeError::NoActiveTheme => exists|h1: Seq<char>, h2: Seq<char>|
                    #![trigger no_theme_text(h1, h2)]
                    painted(h1, "Tip"@, bold_cyan()) && painted(h2, "iris switch <name>"@, bold_cyan())
                        && r@ == no_theme_text(h1, h2),
                ThemeError::EmptyCache => r@ == "Theme cache is empty!"@,
            },
    {
        match self {
            ThemeError::NoActiveTheme => {
                let h1 = paint("Tip", Paint { fg: Tint::Cyan, bold: true, dimmed: false });
                let h2 = paint("iris switch <name>", Paint { fg: Tint::Cyan, bold: true, dimmed: false });
                let mut out = concat("No active theme detected.\n", h1.as_str());
                out.append(": Make sure to switch theme in Neovim or pass the name manually: `");
                out.append(h2.as_str());
                out.append("`");
                assert(out@ == no_theme_text(h1@, h2@));
                out
            },
            ThemeError::EmptyCache => String::from_str("Theme cache is empty!"),
        }
    }
}

/// The active theme named by the content of its file: trimmed and
/// capitalized; an error where the file cannot be read or is blank.
pub open spec fn spec_current(content: Option<Seq<char>>) -> Result<Seq<char>, ThemeError> {
    match content {
        None => Err(ThemeError::NoActiveTheme),
        Some(c) => if trim(c).len() == 0 {
            Err(ThemeError::EmptyCache)
        } else {
            Ok(spec_capitalize(trim(c)))
        },
    }
}

/// `c` with an ASCII capital letter made small.
pub open spec fn ascii_lower(c: char) -> int {
    if 'A' <= c <= 'Z' {
        (c as int) + 32
    } else {
        c as int
    }
}

/// `str::eq_ignore_ascii_case`.
pub open spec fn eq_ignore_ascii_case(a: Seq<char>, b: Seq<char>) -> bool {
    a.len() == b.len() && forall|i: int| 0 <= i < a.len() ==> ascii_lower(#[trigger] a[i]) == ascii_lower(b[i])
}

fn ascii_lower_exec(c: char) -> (r: u32)
    ensures
        r == ascii_lower(c),
{
    if 'A' <= c && c <= 'Z' {
        (c as u32) + 32
    } else {
        c as u32
    }
}

/// `str::eq_ignore_ascii_case`.
pub fn eq_ignore_ascii_case_exec(a: &str, b: &str) -> (r: bool)
    ensures
        r == eq_ignore_ascii_case(a@, b@),
{
    let x = chars_of(a);
    let y = chars_of(b);
    if x.len() != y.len() {
        return false;
    }
    let mut i: usize = 0;
    while i < x.len()
        invariant
            i <= x@.len(),
            x@ == a@,
            y@ == b@,
            x@.len() == y@.len(),
            forall|k: int| 0 <= k < i ==> ascii_lower(#[trigger] x@[k]) == ascii_lower(y@[k]),
        decreases x@.len() - i,
    {
        if ascii_lower_exec(x[i]) != ascii_lower_exec(y[i]) {
            return false;
        }
        i = i + 1;
    }
    true
}

/// What a theme load does.
#[derive(Debug, Clone, Copy, PartialEq, Eq, Structural)]
pub enum LoadPlan {
    /// The cached theme is used.
    UseCache,
    /// Only built-in themes can be fetched; the cached copy of this external
    /// theme is used, with a warning.
    UseCacheExternal,
    /// Only built-in themes can be fetched, and this one is neither built in
    /// nor cached.
    Refuse,
    /// The theme is fetched from Neovim; `bypassed` where the cache was
    /// skipped on request.
    Fetch { bypassed: bool },
}

/// How a theme is obtained: from a usable cache unless forced; with the
/// default plugin manager only built-in themes are fetched, an external
/// theme comes from the cache or not at all.
pub open spec fn spec_load_plan(force: bool, cached: bool, default_manager: bool, builtin: bool) -> LoadPlan {
    if !force && cached {
        LoadPlan::UseCache
    } else if default_manager && !builtin {
        if cached {
            LoadPlan::UseCacheExternal
        } else {
            LoadPlan::Refuse
        }
    } else {
        LoadPlan::Fetch { bypassed: force }
    }
}

/// Whether `name` is in `list`.
pub open spec fn listed(list: Seq<Seq<char>>, name: Seq<char>) -> bool {
    list.contains(name)
}

fn listed_exec(list: &[&str], name: &str) -> (r: bool)
    ensures
        r == listed(list@.map_values(|s: &str| s@), name@),
{
    let ghost vs = list@.map_values(|s: &str| s@);
    let mut i: usize = 0;
    while i < list.len()
        invariant
            i <= list@.len(),
            vs == list@.map_values(|s: &str| s@),
            forall|k: int| 0 <= k < i ==> vs[k] != name@,
        decreases list@.len() - i,
    {
        if str_eq(list[i], name) {
            assert(vs[i as int] == name@);
            return true;
        }
        i = i + 1;
    }
    assert(!vs.contains(name@)) by {
        if vs.contains(name@) {
            let k = choose|k: int| 0 <= k < vs.len() && vs[k] == name@;
            assert(vs[k] != name@);
        }
    }
    false
}

/// Resolves themes for the tool: the active one, the sync with Neovim, and
/// how a theme is loaded.
pub struct ThemeService {
    pub paths: IrisPaths,
}

impl ThemeService {
    pub fn new(paths: IrisPaths) -> (r: ThemeService)
        ensures
            r.paths == paths,
    {
        ThemeService { paths }
    }

    /// The active theme, read from its file in `fs`: trimmed and capitalized.
    pub fn current(&self, fs: &FsSnapshot) -> (r: Result<String, ThemeError>)
        ensures
            match spec_current(fs_read(fs@, self.paths.current_theme@)) {
                Ok(n) => r matches Ok(s) && s@ == n,
                Err(e) => r == Err::<String, ThemeError>(e),
            },
    {
        match fs.read(&self.paths.current_theme) {
            None => Err(ThemeError::NoActiveTheme),
            Some(c) => {
                let t = str_trim(c.as_str());
                if t.as_str().is_empty() {
                    Err(ThemeError::EmptyCache)
                } else {
                    Ok(capitalize(t.as_str()))
                }
            },
        }
    }

    /// The theme to show and whether the tool follows Neovim: in sync where
    /// Neovim's theme equals `state_theme` up to ASCII case (the state's
    /// theme is then shown, capitalized); else Neovim's theme, or `Unknown`
    /// where none is known.
    pub fn sync_status(&self, state_theme: &str, fs: &FsSnapshot) -> (r: (String, bool))
        ensures
            ({
                let nvim = match spec_current(fs_read(fs@, self.paths.current_theme@)) {
                    Ok(n) => n,
                    Err(_) => Seq::<char>::empty(),
                };
                let sync = eq_ignore_ascii_case(nvim, state_theme@);
                &&& r.1 == sync
                &&& r.0@ == (if sync {
                    spec_capitalize(state_theme@)
                } else if nvim.len() == 0 {
                    "Unknown"@
                } else {
                    spec_capitalize(nvim)
                })
            }),
    {
        let nvim = match self.current(fs) {
            Ok(n) => n,
            Err(_) => String::new(),
        };
        let sync = eq_ignore_ascii_case_exec(nvim.as_str(), state_theme);
        let shown = if sync {
            capitalize(state_theme)
        } else if nvim.as_str().is_empty() {
            String::from_str("Unknown")
        } else {
            capitalize(nvim.as_str())
        };
        (shown, sync)
    }

    /// How `theme_name` is obtained, given whether a usable cached copy
    /// exists, whether the default plugin manager is in use, and the built-in
    /// theme names.
    pub fn load_theme(&self, theme_name: &str, force: bool, cached: bool, default_manager: bool, builtins: &[&str]) -> (r: LoadPlan)
        ensures
            r == spec_load_plan(
                force,
                cached,
                default_manager,
                listed(builtins@.map_values(|s: &str| s@), lowercase(theme_name@)),
            ),
    {
        let lower = to_lowercase(theme_name);
        if !force && cached {
            return LoadPlan::UseCache;
        }
        if default_manager && !listed_exec(builtins, lower.as_str()) {
            if cached {
                return LoadPlan::UseCacheExternal;
            }
            return LoadPlan::Refuse;
        }
        LoadPlan::Fetch { bypassed: force }
    }

    /// Whether `theme_name` exists, as far as it can be told without asking
    /// Neovim: never without `nvim`; a cached theme exists; with the default
    /// plugin manager only built-in themes exist. `None` where Neovim must be
    /// asked.
    pub fn theme_exists(&self, theme_name: &str, nvim_found: bool, cached: bool, default_manager: bool, builtins: &[&str]) -> (r: Option<bool>)
        ensures
            r == (if !nvim_found {
                Some(false)
            } else if cached {
                Some(true)
            } else if default_manager {
                Some(listed(builtins@.map_values(|s: &str| s@), lowercase(theme_name@)))
            } else {
                None::<bool>
            }),
    {
        if !nvim_found {
            return Some(false);
        }
        if cached {
            return Some(true);
        }
        if default_manager {
            let lower = to_lowercase(theme_name);
            return Some(listed_exec(builtins, lower.as_str()));
        }
        None
    }

    /// The themes to offer: those Neovim reports, or the built-in ones (with
    /// a warning, the `bool`) where it reports none or cannot be asked.
    pub fn themes(&self, installed: Option<Vec<String>>, builtins: &[&str]) -> (r: (Vec<String>, bool))
        ensures
            match installed {
                Some(v) if v@.len() > 0 => r.0@ == v@ && !r.1,
                _ => r.1 && r.0@.len() == builtins@.len() && forall|i: int|
                    0 <= i < builtins@.len() ==> #[trigger] r.0@[i]@ == builtins@[i]@,
            },
    {
        match installed {
            Some(v) if v.len() > 0 => (v, false),
            _ => {
                let mut out: Vec<String> = Vec::new();
                let mut i: usize = 0;
                while i < builtins.len()
                    invariant
                        i <= builtins@.len(),
                        out@.len() == i,
                        forall|k: int| 0 <= k < i ==> #[trigger] out@[k]@ == builtins@[k]@,
                    decreases builtins@.len() - i,
                {
                    out.push(String::from_str(builtins[i]));
                    i = i + 1;
                }
                (out, true)
            },
        }
    }
}

} // verus!
