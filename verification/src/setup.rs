//! First-time setup: the generators enabled from what is found on the
//! machine, and the shell hook that keeps fzf's colors current.

use vstd::prelude::*;
use crate::health::{FsSnapshot, fs_exists, fs_read};
use crate::paths::{FsPath, PathView, display, join};
use crate::state::string_views;
use crate::text::{concat3, contains, str_contains};

verus! {

/// What the shell integration does.
#[derive(Debug, Clone, PartialEq, Eq)]
pub enum HookPlan {
    /// There is no `~/.zshrc`.
    NoZshrc,
    /// The hook is already in `~/.zshrc`.
    AlreadyPresent,
    /// `text` is appended to `~/.zshrc`.
    Append { zshrc: FsPath, text: String },
}

/// The line that marks the hook.
pub open spec fn hook_id() -> Seq<char> {
    "# --- Iris FZF Sync ---"@
}

/// The hook, sourcing `cache_file` whenever it changed before a prompt.
pub open spec fn hook_text(cache_file: Seq<char>) -> Seq<char> {
    "\n# --- Iris FZF Sync ---\nautoload -Uz add-zsh-hook\n_iris_fzf_sync() {\n    local cache_file=\""@ + cache_file
        + "\"\n    if [[ -f \"$cache_file\" ]]; then\n        local mt=$(stat -f %m \"$cache_file\" 2>/dev/null || stat -c %Y \"$cache_file\" 2>/dev/null)\n        if [[ \"$mt\" != \"$LAST_IRIS_SYNC\" ]]; then\n            source \"$cache_file\"\n            export LAST_IRIS_SYNC=\"$mt\"\n        fi\n    fi\n}\nadd-zsh-hook precmd _iris_fzf_sync\n# ---------------------\n"@
}

/// What is appended to `~/.zshrc`: the hook framed by blank lines.
pub open spec fn hook_append_text(home: PathView) -> Seq<char> {
    "\n"@ + hook_text(display(join(home, ".cache/iris/fzf.sh"@))) + "\n\n"@
}

/// What setting up the shell hook does, decided against `fs`: nothing
/// without a readable `~/.zshrc` or where the hook is there; else the hook,
/// framed by blank lines, is appended.
pub open spec fn spec_hook_plan(home: PathView, es: crate::health::FsView) -> Result<HookPlanView, PathView> {
    let zshrc = join(home, ".zshrc"@);
    if !fs_exists(es, zshrc) {
        Ok(HookPlanView::NoZshrc)
    } else {
        match fs_read(es, zshrc) {
            None => Err(zshrc),
            Some(c) => if contains(c, hook_id()) {
                Ok(HookPlanView::AlreadyPresent)
            } else {
                Ok(HookPlanView::Append(zshrc, hook_append_text(home)))
            },
        }
    }
}

pub enum HookPlanView {
    NoZshrc,
    AlreadyPresent,
    Append(PathView, Seq<char>),
}

impl View for HookPlan {
    type V = HookPlanView;

    open spec fn view(&self) -> HookPlanView {
        match self {
            HookPlan::NoZshrc => HookPlanView::NoZshrc,
            HookPlan::AlreadyPresent => HookPlanView::AlreadyPresent,
            HookPlan::Append { zshrc, text } => HookPlanView::Append(zshrc@, text@),
        }
    }
}

/// The first setup of the tool.
pub struct Setup;

impl Setup {
    /// The shell hook step, decided against `fs` for the home directory
    /// `home`; an error names a `~/.zshrc` that exists but cannot be read.
    pub fn setup_zsh_hook(home: &FsPath, fs: &FsSnapshot) -> (r: Result<HookPlan, FsPath>)
        ensures
            match spec_hook_plan(home@, fs@) {
                Ok(p) => r matches Ok(x) && x@ == p,
                Err(p) => r matches Err(q) && q@ == p,
            },
    {
        let zshrc = home.join(".zshrc");
        if !fs.path_exists(&zshrc) {
            return Ok(HookPlan::NoZshrc);
        }
        let content = match fs.read(&zshrc) {
            Some(c) => c,
            None => return Err(zshrc),
        };
        if str_contains(content.as_str(), "# --- Iris FZF Sync ---") {
            return Ok(HookPlan::AlreadyPresent);
        }
        let cache = home.join(".cache/iris/fzf.sh").display();
        let mut text = concat3(
            "\n\n# --- Iris FZF Sync ---\nautoload -Uz add-zsh-hook\n_iris_fzf_sync() {\n    local cache_file=\"",
            cache.as_str(),
            "\"\n    if [[ -f \"$cache_file\" ]]; then\n        local mt=$(stat -f %m \"$cache_file\" 2>/dev/null || stat -c %Y \"$cache_file\" 2>/dev/null)\n        if [[ \"$mt\" != \"$LAST_IRIS_SYNC\" ]]; then\n            source \"$cache_file\"\n            export LAST_IRIS_SYNC=\"$mt\"\n        fi\n    fi\n}\nadd-zsh-hook precmd _iris_fzf_sync\n# ---------------------\n",
        );
        text.append("\n\n");
        proof {
            reveal_strlit("\n");
            reveal_strlit("\n\n");
            reveal_strlit("\n# --- Iris FZF Sync ---\nautoload -Uz add-zsh-hook\n_iris_fzf_sync() {\n    local cache_file=\"");
            reveal_strlit("\n\n# --- Iris FZF Sync ---\nautoload -Uz add-zsh-hook\n_iris_fzf_sync() {\n    local cache_file=\"");
            assert("\n\n# --- Iris FZF Sync ---\nautoload -Uz add-zsh-hook\n_iris_fzf_sync() {\n    local cache_file=\""@ =~= "\n"@
                + "\n# --- Iris FZF Sync ---\nautoload -Uz add-zsh-hook\n_iris_fzf_sync() {\n    local cache_file=\""@);
        }
        assert(text@ =~= "\n"@ + hook_text(cache@) + "\n\n"@);
        Ok(HookPlan::Append { zshrc, text })
    }

    /// The generators enabled at first setup: ghostty where its
    /// configuration directory exists and its program is found, fzf where
    /// zsh is configured, bat where its program is found.
    pub fn initial_enabled(ghostty_dir: bool, ghostty_found: bool, zsh_configured: bool, bat_found: bool) -> (r: Vec<
        String,
    >)
        ensures
            string_views(r@) == (if ghostty_dir && ghostty_found {
                seq!["ghostty"@]
            } else {
                Seq::<Seq<char>>::empty()
            }) + (if zsh_configured {
                seq!["fzf"@]
            } else {
                Seq::<Seq<char>>::empty()
            }) + (if bat_found {
                seq!["bat"@]
            } else {
                Seq::<Seq<char>>::empty()
            }),
    {
        let mut out: Vec<String> = Vec::new();
        if ghostty_dir && ghostty_found {
            out.push(String::from_str("ghostty"));
        }
        let ghost a = string_views(out@);
        if zsh_configured {
            out.push(String::from_str("fzf"));
        }
        let ghost b = string_views(out@);
        if bat_found {
            out.push(String::from_str("bat"));
        }
        proof {
            let g = if ghostty_dir && ghostty_found {
                seq!["ghostty"@]
            } else {
                Seq::<Seq<char>>::empty()
            };
            let f = if zsh_configured {
                seq!["fzf"@]
            } else {
                Seq::<Seq<char>>::empty()
            };
            let t = if bat_found {
                seq!["bat"@]
            } else {
                Seq::<Seq<char>>::empty()
            };
            assert(a =~= g);
            assert(b =~= g + f);
            assert(string_views(out@) =~= g + f + t);
        }
        out
    }
}

/// The hook is installed once: after its text is appended to `~/.zshrc`,
/// setting up again finds it there and appends nothing.
pub proof fn lemma_hook_installed_once(home: PathView, before: Seq<char>, es: crate::health::FsView)
    requires
        fs_exists(es, join(home, ".zshrc"@)),
        fs_read(es, join(home, ".zshrc"@)) == Some(before + hook_append_text(home)),
    ensures
        spec_hook_plan(home, es) == Ok::<HookPlanView, PathView>(HookPlanView::AlreadyPresent),
{
    let t = hook_append_text(home);
    let c = display(join(home, ".cache/iris/fzf.sh"@));
    let rest = "\nautoload -Uz add-zsh-hook\n_iris_fzf_sync() {\n    local cache_file=\""@ + c
        + "\"\n    if [[ -f \"$cache_file\" ]]; then\n        local mt=$(stat -f %m \"$cache_file\" 2>/dev/null || stat -c %Y \"$cache_file\" 2>/dev/null)\n        if [[ \"$mt\" != \"$LAST_IRIS_SYNC\" ]]; then\n            source \"$cache_file\"\n            export LAST_IRIS_SYNC=\"$mt\"\n        fi\n    fi\n}\nadd-zsh-hook precmd _iris_fzf_sync\n# ---------------------\n"@ + "\n\n"@;
    reveal_strlit("\n");
    reveal_strlit("\n\n");
    reveal_strlit("# --- Iris FZF Sync ---");
    reveal_strlit("\n# --- Iris FZF Sync ---\nautoload -Uz add-zsh-hook\n_iris_fzf_sync() {\n    local cache_file=\"");
    reveal_strlit("\nautoload -Uz add-zsh-hook\n_iris_fzf_sync() {\n    local cache_file=\"");
    assert("\n"@ + "\n# --- Iris FZF Sync ---\nautoload -Uz add-zsh-hook\n_iris_fzf_sync() {\n    local cache_file=\""@
        =~= "\n\n"@ + hook_id() + "\nautoload -Uz add-zsh-hook\n_iris_fzf_sync() {\n    local cache_file=\""@);
    assert(before + t =~= (before + "\n\n"@) + hook_id() + rest);
    crate::strings::lemma_occurs_in_middle(before + "\n\n"@, hook_id(), rest);
    crate::strings::lemma_occurs_contains(before + t, hook_id(), (before + "\n\n"@).len() as int);
}


/// The hook that setting up appends keeps fzf's colors current: it points
/// `cache_file` at `~/.cache/iris/fzf.sh` under the home directory, and
/// where that file's modification time differs from `LAST_IRIS_SYNC` it
/// sources the file before recording the new time; the function runs before
/// every prompt.
pub proof fn lemma_hook_sources_the_cache(home: PathView, es: crate::health::FsView)
    ensures
        spec_hook_plan(home, es) matches Ok(HookPlanView::Append(z, text)) ==> {
            &&& z == join(home, ".zshrc"@)
            &&& contains(text, "local cache_file=\""@ + display(join(home, ".cache/iris/fzf.sh"@)) + "\"\n"@)
            &&& contains(
                text,
                "if [[ \"$mt\" != \"$LAST_IRIS_SYNC\" ]]; then\n            source \"$cache_file\"\n            export LAST_IRIS_SYNC=\"$mt\"\n"@,
            )
            &&& contains(text, "add-zsh-hook precmd _iris_fzf_sync\n"@)
        },
{
    let c = display(join(home, ".cache/iris/fzf.sh"@));
    let a = "\n\n# --- Iris FZF Sync ---\nautoload -Uz add-zsh-hook\n_iris_fzf_sync() {\n    "@;
    let p1 = "local cache_file=\""@ + c + "\"\n"@;
    let b = "    if [[ -f \"$cache_file\" ]]; then\n        local mt=$(stat -f %m \"$cache_file\" 2>/dev/null || stat -c %Y \"$cache_file\" 2>/dev/null)\n        "@;
    let p2 = "if [[ \"$mt\" != \"$LAST_IRIS_SYNC\" ]]; then\n            source \"$cache_file\"\n            export LAST_IRIS_SYNC=\"$mt\"\n"@;
    let d = "        fi\n    fi\n}\n"@;
    let p3 = "add-zsh-hook precmd _iris_fzf_sync\n"@;
    let e = "# ---------------------\n"@ + "\n\n"@;
    reveal_strlit("\n");
    reveal_strlit("\n\n");
    reveal_strlit("\n# --- Iris FZF Sync ---\nautoload -Uz add-zsh-hook\n_iris_fzf_sync() {\n    local cache_file=\"");
    reveal_strlit("\"\n    if [[ -f \"$cache_file\" ]]; then\n        local mt=$(stat -f %m \"$cache_file\" 2>/dev/null || stat -c %Y \"$cache_file\" 2>/dev/null)\n        if [[ \"$mt\" != \"$LAST_IRIS_SYNC\" ]]; then\n            source \"$cache_file\"\n            export LAST_IRIS_SYNC=\"$mt\"\n        fi\n    fi\n}\nadd-zsh-hook precmd _iris_fzf_sync\n# ---------------------\n");
    reveal_strlit("\n\n# --- Iris FZF Sync ---\nautoload -Uz add-zsh-hook\n_iris_fzf_sync() {\n    ");
    reveal_strlit("local cache_file=\"");
    reveal_strlit("\"\n");
    reveal_strlit("    if [[ -f \"$cache_file\" ]]; then\n        local mt=$(stat -f %m \"$cache_file\" 2>/dev/null || stat -c %Y \"$cache_file\" 2>/dev/null)\n        ");
    reveal_strlit("if [[ \"$mt\" != \"$LAST_IRIS_SYNC\" ]]; then\n            source \"$cache_file\"\n            export LAST_IRIS_SYNC=\"$mt\"\n");
    reveal_strlit("        fi\n    fi\n}\n");
    reveal_strlit("add-zsh-hook precmd _iris_fzf_sync\n");
    reveal_strlit("# ---------------------\n");
    let t = hook_append_text(home);
    assert(t =~= a + p1 + b + p2 + d + p3 + e);
    crate::strings::lemma_occurs_in_middle(a, p1, b + p2 + d + p3 + e);
    assert(t =~= a + p1 + (b + p2 + d + p3 + e));
    crate::strings::lemma_occurs_contains(t, p1, a.len() as int);
    crate::strings::lemma_occurs_in_middle(a + p1 + b, p2, d + p3 + e);
    assert(t =~= (a + p1 + b) + p2 + (d + p3 + e));
    crate::strings::lemma_occurs_contains(t, p2, (a + p1 + b).len() as int);
    crate::strings::lemma_occurs_in_middle(a + p1 + b + p2 + d, p3, e);
    assert(t =~= (a + p1 + b + p2 + d) + p3 + e);
    crate::strings::lemma_occurs_contains(t, p3, (a + p1 + b + p2 + d).len() as int);
}
} // verus!
