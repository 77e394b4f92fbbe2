//! What a configuration file should look like for a theme, and whether it
//! differs from what it holds.

use vstd::prelude::*;
use vstd::string::*;
use crate::generators::{GeneratorKind, HostEnv};
use crate::apply::{home_of, pretty_path, spec_pretty_path};
use crate::health::{FsSnapshot, fs_exists, fs_read};
use crate::paint::{Paint, Tint, paint, painted};
use crate::paths::{FsPath, IrisPaths, PathView};
use crate::render::{line_diff_groups, render_diff, renders};
use crate::strings::{replace_block, spec_replace_block};
use crate::toml_doc::{alacritty_diff_target, alacritty_general_editable, general_editable, spec_alacritty_target, toml_parses, toml_parse_ok};
use crate::text::{
    chars_eq, chars_of, char_is_ws, concat, concat3, contains, contains_exec, join, join_lines,
    lines, lowercase, push_all, slice_of, split_lines, starts_with, starts_with_exec, str_contains,
    string_of, to_lowercase, trim, trim_end, trim_end_exec, trim_exec, trim_start, views,
};

verus! {

/// Which lines an injected line replaces when it goes at the top.
#[derive(Debug, Clone, Copy, PartialEq, Eq, Structural)]
pub enum LineFilter {
    /// Lines that source a theme file: they hold `source-file` and `themes/`.
    SourcedTheme,
}

impl LineFilter {
    pub open spec fn spec_matches(self, line: Seq<char>) -> bool {
        match self {
            LineFilter::SourcedTheme => contains(line, "source-file"@) && contains(line, "themes/"@),
        }
    }

    pub fn matches(&self, line: &[char]) -> (r: bool)
        ensures
            r == self.spec_matches(line@),
    {
        match self {
            LineFilter::SourcedTheme => contains_exec(line, &chars_of("source-file"))
                && contains_exec(line, &chars_of("themes/")),
        }
    }
}

/// How the content a theme needs is compared with a configuration file.
#[derive(Debug, Clone)]
pub enum DiffStyle {
    /// The marker block owned by the generator.
    Block,
    /// A key line: `ideal_line` replaces the lines that start with
    /// `key_prefix`, at the top of the file or in place.
    InjectKey { key_prefix: String, ideal_line: String, at_top: bool },
    /// `ideal_line` at the top of the file, replacing the lines `filter` matches.
    InjectTop { ideal_line: String, filter: LineFilter },
    /// A comparison of its own, done outside this module.
    Custom,
}

/// The lines whose text, leading whitespace removed, does not start with `prefix`.
pub open spec fn lines_not_keyed(ls: Seq<Seq<char>>, prefix: Seq<char>) -> Seq<Seq<char>>
    decreases ls.len(),
{
    if ls.len() == 0 {
        seq![]
    } else {
        let rest = lines_not_keyed(ls.drop_first(), prefix);
        if starts_with(trim_start(ls[0]), prefix) {
            rest
        } else {
            seq![ls[0]] + rest
        }
    }
}

/// The lines `filter` does not match.
pub open spec fn lines_not_filtered(ls: Seq<Seq<char>>, filter: LineFilter) -> Seq<Seq<char>>
    decreases ls.len(),
{
    if ls.len() == 0 {
        seq![]
    } else {
        let rest = lines_not_filtered(ls.drop_first(), filter);
        if filter.spec_matches(ls[0]) {
            rest
        } else {
            seq![ls[0]] + rest
        }
    }
}

/// `line`, or `ideal` where `line` is keyed by `prefix`.
pub open spec fn rekey_line(line: Seq<char>, prefix: Seq<char>, ideal: Seq<char>) -> Seq<char> {
    if starts_with(trim_start(line), prefix) {
        ideal
    } else {
        line
    }
}

/// Some line is keyed by `prefix`.
pub open spec fn any_keyed(ls: Seq<Seq<char>>, prefix: Seq<char>) -> bool {
    exists|i: int| 0 <= i < ls.len() && starts_with(trim_start(#[trigger] ls[i]), prefix)
}

/// Changed content is shown only where it differs once both sides are trimmed.
pub open spec fn if_changed(current: Seq<char>, target: Seq<char>) -> Option<Seq<char>> {
    if trim(current) == trim(target) {
        None
    } else {
        Some(target)
    }
}

/// The content the file should hold for a key line.
pub open spec fn spec_key_target(current: Seq<char>, prefix: Seq<char>, ideal: Seq<char>, at_top: bool) -> Option<Seq<char>> {
    let ls = lines(current);
    if at_top {
        let cleaned = lines_not_keyed(ls, prefix);
        Some(if cleaned.len() == 0 {
            ideal
        } else {
            ideal + "\n"@ + join(cleaned, "\n"@)
        })
    } else if contains(current, ideal) {
        None
    } else if any_keyed(ls, prefix) {
        Some(join(ls.map_values(|l: Seq<char>| rekey_line(l, prefix, ideal)), "\n"@))
    } else {
        Some(trim_end(current) + "\n"@ + ideal)
    }
}

/// The changed content for a style, or `None` where the file is as it should
/// be. `block_inner` is what the generator's block should hold.
pub open spec fn spec_diff_target(style: DiffStyle, current: Seq<char>, marker: Seq<char>, block_inner: Seq<char>) -> Option<Seq<char>> {
    match style {
        DiffStyle::Block => if_changed(current, spec_replace_block(current, marker, block_inner)),
        DiffStyle::InjectKey { key_prefix, ideal_line, at_top } => match spec_key_target(
            current,
            key_prefix@,
            ideal_line@,
            at_top,
        ) {
            Some(t) => if_changed(current, t),
            None => None,
        },
        DiffStyle::InjectTop { ideal_line, filter } => if_changed(
            current,
            join(seq![ideal_line@] + lines_not_filtered(lines(current), filter), "\n"@),
        ),
        DiffStyle::Custom => None,
    }
}

fn starts_keyed(line: &[char], prefix: &[char]) -> (r: bool)
    ensures
        r == starts_with(trim_start(line@), prefix@),
{
    let mut k: usize = 0;
    assert(line@.skip(0) =~= line@);
    while k < line.len() && char_is_ws(line[k])
        invariant
            k <= line@.len(),
            trim_start(line@) == trim_start(line@.skip(k as int)),
        decreases line@.len() - k,
    {
        assert(line@.skip(k as int).drop_first() =~= line@.skip(k + 1));
        k = k + 1;
    }
    let rest = slice_of(line, k, line.len());
    assert(rest@ =~= line@.skip(k as int));
    assert(trim_start(rest@) == rest@) by {
        if rest@.len() > 0 {
            assert(rest@[0] == line@[k as int]);
        }
    }
    starts_with_exec(&rest, prefix)
}

fn keep_not_keyed(ls: &Vec<Vec<char>>, prefix: &[char]) -> (r: Vec<Vec<char>>)
    ensures
        views(r@) == lines_not_keyed(views(ls@), prefix@),
{
    let mut kept: Vec<Vec<char>> = Vec::new();
    let mut i: usize = 0;
    let ghost all = views(ls@);
    assert(all.skip(0) =~= all);
    while i < ls.len()
        invariant
            i <= ls@.len(),
            all == views(ls@),
            lines_not_keyed(all, prefix@) == views(kept@) + lines_not_keyed(all.skip(i as int), prefix@),
        decreases ls@.len() - i,
    {
        let hit = starts_keyed(&ls[i], prefix);
        assert(all.skip(i as int).drop_first() =~= all.skip(i + 1));
        assert(all.skip(i as int)[0] == ls@[i as int]@);
        if !hit {
            let ghost before = views(kept@);
            kept.push(ls[i].clone());
            assert(views(kept@) =~= before.push(ls@[i as int]@));
        }
        i = i + 1;
    }
    assert(all.skip(i as int) =~= Seq::<Seq<char>>::empty());
    assert(views(kept@) + Seq::<Seq<char>>::empty() =~= views(kept@));
    kept
}

fn keep_not_filtered(ls: &Vec<Vec<char>>, filter: LineFilter) -> (r: Vec<Vec<char>>)
    ensures
        views(r@) == lines_not_filtered(views(ls@), filter),
{
    let mut kept: Vec<Vec<char>> = Vec::new();
    let mut i: usize = 0;
    let ghost all = views(ls@);
    assert(all.skip(0) =~= all);
    while i < ls.len()
        invariant
            i <= ls@.len(),
            all == views(ls@),
            lines_not_filtered(all, filter) == views(kept@) + lines_not_filtered(all.skip(i as int), filter),
        decreases ls@.len() - i,
    {
        let hit = filter.matches(&ls[i]);
        assert(all.skip(i as int).drop_first() =~= all.skip(i + 1));
        assert(all.skip(i as int)[0] == ls@[i as int]@);
        if !hit {
            let ghost before = views(kept@);
            kept.push(ls[i].clone());
            assert(views(kept@) =~= before.push(ls@[i as int]@));
        }
        i = i + 1;
    }
    assert(all.skip(i as int) =~= Seq::<Seq<char>>::empty());
    assert(views(kept@) + Seq::<Seq<char>>::empty() =~= views(kept@));
    kept
}

fn changed(current: &[char], target: Vec<char>) -> (r: Option<String>)
    ensures
        r matches Some(t) ==> if_changed(current@, target@) == Some(t@),
        r is None ==> if_changed(current@, target@) is None,
{
    let a = trim_exec(current);
    let b = trim_exec(&target);
    if chars_eq(&a, &b) {
        None
    } else {
        Some(string_of(&target))
    }
}

fn key_target(current: &[char], prefix: &[char], ideal: &[char], at_top: bool) -> (r: Option<Vec<char>>)
    ensures
        r matches Some(t) ==> spec_key_target(current@, prefix@, ideal@, at_top) == Some(t@),
        r is None ==> spec_key_target(current@, prefix@, ideal@, at_top) is None,
{
    let ls = split_lines(current);
    let sep = chars_of("\n");
    proof {
        reveal_strlit("\n");
    }
    if at_top {
        let cleaned = keep_not_keyed(&ls, prefix);
        let mut out: Vec<char> = Vec::new();
        push_all(&mut out, ideal);
        if cleaned.len() > 0 {
            out.push('\n');
            let j = join_lines(&cleaned, &sep);
            push_all(&mut out, &j);
        }
        assert(out@ =~= spec_key_target(current@, prefix@, ideal@, at_top).unwrap());
        return Some(out);
    }
    if contains_exec(current, ideal) {
        return None;
    }
    let mut mapped: Vec<Vec<char>> = Vec::new();
    let mut any = false;
    let mut i: usize = 0;
    let ghost all = views(ls@);
    while i < ls.len()
        invariant
            i <= ls@.len(),
            all == views(ls@),
            views(mapped@) == all.take(i as int).map_values(|l: Seq<char>| rekey_line(l, prefix@, ideal@)),
            any == exists|k: int| 0 <= k < i && starts_with(trim_start(#[trigger] all[k]), prefix@),
        decreases ls@.len() - i,
    {
        let hit = starts_keyed(&ls[i], prefix);
        let ghost before = views(mapped@);
        if hit {
            mapped.push(slice_of(ideal, 0, ideal.len()));
            any = true;
        } else {
            mapped.push(ls[i].clone());
        }
        assert(ideal@.subrange(0, ideal@.len() as int) =~= ideal@);
        assert(views(mapped@) =~= before.push(rekey_line(all[i as int], prefix@, ideal@)));
        assert(all.take(i + 1).map_values(|l: Seq<char>| rekey_line(l, prefix@, ideal@))
            =~= all.take(i as int).map_values(|l: Seq<char>| rekey_line(l, prefix@, ideal@)).push(
            rekey_line(all[i as int], prefix@, ideal@),
        ));
        i = i + 1;
    }
    assert(all.take(ls@.len() as int) =~= all);
    if any {
        let out = join_lines(&mapped, &sep);
        return Some(out);
    }
    let mut out = trim_end_exec(current);
    out.push('\n');
    push_all(&mut out, ideal);
    assert(out@ =~= trim_end(current@) + "\n"@ + ideal@);
    Some(out)
}

/// The content the file should hold, where it differs (trimmed) from what it
/// holds; `None` where it is as it should be, or for a `Custom` style.
pub fn diff_target(style: &DiffStyle, current: &str, marker: &str, block_inner: &str) -> (r: Option<String>)
    ensures
        r matches Some(t) ==> spec_diff_target(*style, current@, marker@, block_inner@) == Some(t@),
        r is None ==> spec_diff_target(*style, current@, marker@, block_inner@) is None,
{
    let c = chars_of(current);
    match style {
        DiffStyle::Block => {
            let t = replace_block(current, marker, block_inner);
            changed(&c, chars_of(t.as_str()))
        },
        DiffStyle::InjectKey { key_prefix, ideal_line, at_top } => {
            let p = chars_of(key_prefix.as_str());
            let ideal = chars_of(ideal_line.as_str());
            match key_target(&c, &p, &ideal, *at_top) {
                Some(t) => changed(&c, t),
                None => None,
            }
        },
        DiffStyle::InjectTop { ideal_line, filter } => {
            let ls = split_lines(&c);
            let cleaned = keep_not_filtered(&ls, *filter);
            let mut all: Vec<Vec<char>> = Vec::new();
            all.push(chars_of(ideal_line.as_str()));
            let ghost first = views(all@);
            let mut i: usize = 0;
            while i < cleaned.len()
                invariant
                    i <= cleaned@.len(),
                    first == seq![ideal_line@],
                    views(all@) == first + views(cleaned@).take(i as int),
                decreases cleaned@.len() - i,
            {
                let ghost before = views(all@);
                all.push(cleaned[i].clone());
                assert(views(all@) =~= before.push(cleaned@[i as int]@));
                assert(views(cleaned@).take(i + 1) =~= views(cleaned@).take(i as int).push(cleaned@[i as int]@));
                i = i + 1;
            }
            assert(views(cleaned@).take(cleaned@.len() as int) =~= views(cleaned@));
            let sep = chars_of("\n");
            let t = join_lines(&all, &sep);
            changed(&c, t)
        },
        DiffStyle::Custom => None,
    }
}

/// The line a theme's key line should read, for key-style generators: the
/// theme lowercased, or `default` for no theme.
pub open spec fn theme_or_default(theme: Seq<char>) -> Seq<char> {
    if theme.len() == 0 {
        "default"@
    } else {
        theme
    }
}

impl GeneratorKind {
    /// How the application's configuration is compared, for `theme`. Those
    /// that do not compare a configuration file (`wezterm`, `yazi`) and the
    /// marker-block ones report `Block`; `alacritty` and `bat` compare their
    /// own way and report `Custom`.
    pub open spec fn spec_diff_style_is(self, theme: Seq<char>, r: DiffStyle) -> bool {
        match self {
            GeneratorKind::Btop => r matches DiffStyle::InjectKey { key_prefix, ideal_line, at_top }
                && key_prefix@ == "color_theme"@
                && ideal_line@ == "color_theme = \""@ + lowercase(theme_or_default(theme)) + "\""@
                && at_top,
            GeneratorKind::Ghostty => r matches DiffStyle::InjectKey { key_prefix, ideal_line, at_top }
                && key_prefix@ == "config-file"@
                && ideal_line@ == "config-file = current_theme.conf"@ && at_top,
            GeneratorKind::Kitty => r matches DiffStyle::InjectKey { key_prefix, ideal_line, at_top }
                && key_prefix@ == "include"@
                && ideal_line@ == "include current_theme.conf"@ && at_top,
            GeneratorKind::Tmux => r matches DiffStyle::InjectTop { ideal_line, filter }
                && ideal_line@ == "source-file \"~/.config/tmux/themes/"@ + lowercase(theme_or_default(theme)) + ".conf\""@
                && filter == LineFilter::SourcedTheme,
            GeneratorKind::Alacritty | GeneratorKind::Bat => r is Custom,
            _ => r is Block,
        }
    }

    pub fn diff_style(&self, theme: &str) -> (r: DiffStyle)
        ensures
            self.spec_diff_style_is(theme@, r),
    {
        let name: &str = if theme.is_empty() { "default" } else { theme };
        match self {
            GeneratorKind::Btop => DiffStyle::InjectKey {
                key_prefix: String::from_str("color_theme"),
                ideal_line: concat3("color_theme = \"", to_lowercase(name).as_str(), "\""),
                at_top: true,
            },
            GeneratorKind::Ghostty => DiffStyle::InjectKey {
                key_prefix: String::from_str("config-file"),
                ideal_line: String::from_str("config-file = current_theme.conf"),
                at_top: true,
            },
            GeneratorKind::Kitty => DiffStyle::InjectKey {
                key_prefix: String::from_str("include"),
                ideal_line: String::from_str("include current_theme.conf"),
                at_top: true,
            },
            GeneratorKind::Tmux => DiffStyle::InjectTop {
                ideal_line: concat3("source-file \"~/.config/tmux/themes/", to_lowercase(name).as_str(), ".conf\""),
                filter: LineFilter::SourcedTheme,
            },
            GeneratorKind::Alacritty | GeneratorKind::Bat => DiffStyle::Custom,
            _ => DiffStyle::Block,
        }
    }
}

/// The configuration file a comparison reads.
pub open spec fn spec_diff_config_path(kind: GeneratorKind, paths: IrisPaths, env: HostEnv) -> PathView {
    let dir = kind.spec_config_dir(paths, env);
    match kind {
        GeneratorKind::Alacritty => crate::paths::join(dir, "alacritty.toml"@),
        GeneratorKind::Ghostty => crate::paths::join(dir, "config"@),
        GeneratorKind::Tmux => crate::paths::join(dir, "tmux.conf"@),
        GeneratorKind::Yazi => crate::paths::join(dir, "yazi.toml"@),
        GeneratorKind::Bottom => kind.spec_link_path(paths, env, ""@),
        _ => kind.spec_config_path(paths, env),
    }
}

/// Why a comparison could not be made.
#[derive(Debug, Clone, PartialEq, Eq)]
pub enum DiffError {
    /// A file that exists could not be read.
    Unreadable(FsPath),
    /// Alacritty's configuration is not TOML.
    InvalidToml,
    /// Alacritty's configuration has a `general` item that is not a table, so
    /// it cannot be edited as one.
    NotATable,
}

/// What a comparison error is.
pub enum DiffFail {
    Unreadable(PathView),
    InvalidToml,
    NotATable,
}

/// Which file bat's comparison found to differ.
#[derive(Debug, Clone, Copy, PartialEq, Eq, Structural)]
pub enum BatTarget {
    /// `bat.conf`, the configuration iris generates for bat.
    BatConf,
    /// The shell startup file that points bat at it.
    Zshrc,
}

/// The settings iris writes into `bat.conf` for the theme called `lower`.
pub open spec fn bat_conf_inner(lower: Seq<char>) -> Seq<char> {
    "--theme=\""@ + lower + "\"\n--style=\"numbers,changes\"\n--color=\"always\""@
}

/// What bat's comparison finds, given the theme, what `bat.conf` and the
/// shell startup file hold, and `bat.conf`'s path as shown: nothing for no
/// theme; nothing where writing both blocks (`batconf` into `bat.conf`, `bat`
/// into a non-empty startup file) would change neither file, trimmed; else the
/// first file that writing would change, with its new content.
pub open spec fn spec_bat_diff_target(
    theme: Seq<char>,
    bat_current: Seq<char>,
    zshrc_current: Seq<char>,
    conf_shown: Seq<char>,
) -> Option<(BatTarget, Seq<char>)> {
    if theme.len() == 0 {
        None
    } else {
        let final_bat = spec_replace_block(bat_current, "batconf"@, bat_conf_inner(lowercase(theme)));
        let final_zshrc = spec_replace_block(zshrc_current, "bat"@, "export BAT_CONFIG_PATH="@ + conf_shown);
        let bat_ok = trim(final_bat) == trim(bat_current);
        let zshrc_ok = zshrc_current.len() == 0 || trim(final_zshrc) == trim(zshrc_current);
        if bat_ok && zshrc_ok {
            None
        } else if trim(bat_current) != trim(final_bat) {
            Some((BatTarget::BatConf, final_bat))
        } else if zshrc_current.len() > 0 && !zshrc_ok {
            Some((BatTarget::Zshrc, final_zshrc))
        } else {
            None
        }
    }
}

/// The content of `p` in `es`, or nothing.
pub open spec fn view_read_or_empty(es: crate::health::FsView, p: PathView) -> Seq<char> {
    match fs_read(es, p) {
        Some(c) => c,
        None => Seq::<char>::empty(),
    }
}

/// What a comparison found.
#[derive(Debug, Clone, PartialEq, Eq)]
pub enum DiffDecision {
    /// The configuration file does not exist.
    ConfigNotFound,
    /// Nothing to change.
    Same,
    /// The file at `path` holds `current` and should hold `target`.
    Differs { path: FsPath, current: String, target: String },
}

pub enum DecisionView {
    ConfigNotFound,
    Same,
    Differs(PathView, Seq<char>, Seq<char>),
}

impl View for DiffDecision {
    type V = DecisionView;

    open spec fn view(&self) -> DecisionView {
        match self {
            DiffDecision::ConfigNotFound => DecisionView::ConfigNotFound,
            DiffDecision::Same => DecisionView::Same,
            DiffDecision::Differs { path, current, target } => DecisionView::Differs(path@, current@, target@),
        }
    }
}

/// What a marker-block application's block should hold: the cached block for
/// herdr and bottom (empty where not cached), the line that sources the
/// cached script for fzf (nothing for no theme), nothing for the others.
pub open spec fn spec_block_inner(
    kind: GeneratorKind,
    paths: IrisPaths,
    env: HostEnv,
    theme: Seq<char>,
    es: crate::health::FsView,
) -> Result<Seq<char>, PathView> {
    match kind {
        GeneratorKind::Herdr | GeneratorKind::Bottom => {
            let cache = kind.spec_cache_path(paths, theme);
            if fs_exists(es, cache) {
                match fs_read(es, cache) {
                    Some(c) => Ok(c),
                    None => Err(cache),
                }
            } else {
                Ok(Seq::<char>::empty())
            }
        },
        GeneratorKind::Fzf => if theme.len() == 0 {
            Ok(Seq::<char>::empty())
        } else {
            let shown = spec_pretty_path(kind.spec_cache_path(paths, theme), home_of(env));
            Ok("[ -f "@ + shown + " ] && source "@ + shown)
        },
        _ => Ok(Seq::<char>::empty()),
    }
}

/// The content a configuration file should hold, where it differs (trimmed)
/// from `current`.
pub open spec fn spec_kind_target(kind: GeneratorKind, theme: Seq<char>, current: Seq<char>, inner: Seq<char>) -> Option<
    Seq<char>,
> {
    let name = lowercase(theme_or_default(theme));
    match kind {
        GeneratorKind::Btop => match spec_key_target(
            current,
            "color_theme"@,
            "color_theme = \""@ + name + "\""@,
            true,
        ) {
            Some(t) => if_changed(current, t),
            None => None,
        },
        GeneratorKind::Ghostty => match spec_key_target(
            current,
            "config-file"@,
            "config-file = current_theme.conf"@,
            true,
        ) {
            Some(t) => if_changed(current, t),
            None => None,
        },
        GeneratorKind::Kitty => match spec_key_target(
            current,
            "include"@,
            "include current_theme.conf"@,
            true,
        ) {
            Some(t) => if_changed(current, t),
            None => None,
        },
        GeneratorKind::Tmux => if_changed(
            current,
            join(
                seq!["source-file \"~/.config/tmux/themes/"@ + name + ".conf\""@] + lines_not_filtered(
                    lines(current),
                    LineFilter::SourcedTheme,
                ),
                "\n"@,
            ),
        ),
        _ => if_changed(current, spec_replace_block(current, kind.spec_name(), inner)),
    }
}

/// What comparing an application's configuration with what `theme` needs
/// finds: wezterm, starship and yazi have nothing to compare; the others
/// need their configuration file, then compare by their own rule.
pub open spec fn spec_diff_decision(
    kind: GeneratorKind,
    paths: IrisPaths,
    env: HostEnv,
    theme: Seq<char>,
    es: crate::health::FsView,
) -> Result<DecisionView, DiffFail> {
    match kind {
        GeneratorKind::WezTerm | GeneratorKind::Starship | GeneratorKind::Yazi => Ok(DecisionView::Same),
        _ => {
            let cfg = spec_diff_config_path(kind, paths, env);
            if !fs_exists(es, cfg) {
                Ok(DecisionView::ConfigNotFound)
            } else {
                match fs_read(es, cfg) {
                    None => Err(DiffFail::Unreadable(cfg)),
                    Some(current) => match kind {
                        GeneratorKind::Alacritty => if !toml_parses(current) {
                            Err(DiffFail::InvalidToml)
                        } else if !general_editable(current) {
                            Err(DiffFail::NotATable)
                        } else {
                            match spec_alacritty_target(current) {
                                None => Ok(DecisionView::Same),
                                Some(x) => Ok(DecisionView::Differs(cfg, current, x)),
                            }
                        },
                        GeneratorKind::Bat => {
                            let conf = crate::paths::join(paths.bin@, "bat.conf"@);
                            let zshrc = crate::generators::spec_zshrc_path(paths);
                            let bat_current = view_read_or_empty(es, conf);
                            let zshrc_current = view_read_or_empty(es, zshrc);
                            match spec_bat_diff_target(
                                theme,
                                bat_current,
                                zshrc_current,
                                spec_pretty_path(conf, home_of(env)),
                            ) {
                                None => Ok(DecisionView::Same),
                                Some((BatTarget::BatConf, x)) => Ok(DecisionView::Differs(cfg, bat_current, x)),
                                Some((BatTarget::Zshrc, x)) => Ok(DecisionView::Differs(zshrc, zshrc_current, x)),
                            }
                        },
                        _ => match spec_block_inner(kind, paths, env, theme, es) {
                            Err(p) => Err(DiffFail::Unreadable(p)),
                            Ok(inner) => match spec_kind_target(kind, theme, current, inner) {
                                None => Ok(DecisionView::Same),
                                Some(t) => Ok(DecisionView::Differs(cfg, current, t)),
                            },
                        },
                    },
                }
            }
        },
    }
}

/// The error view of a comparison error.
pub open spec fn diff_error_view(e: DiffError) -> DiffFail {
    match e {
        DiffError::Unreadable(p) => DiffFail::Unreadable(p@),
        DiffError::InvalidToml => DiffFail::InvalidToml,
        DiffError::NotATable => DiffFail::NotATable,
    }
}

/// What bat's comparison finds (see `spec_bat_diff_target`).
pub fn bat_diff_target(theme: &str, bat_current: &str, zshrc_current: &str, conf_shown: &str) -> (r: Option<
    (BatTarget, String),
>)
    ensures
        match spec_bat_diff_target(theme@, bat_current@, zshrc_current@, conf_shown@) {
            None => r is None,
            Some((w, x)) => r matches Some((v, s)) && v == w && s@ == x,
        },
{
    if theme.is_empty() {
        return None;
    }
    let lower = to_lowercase(theme);
    let inner = concat3("--theme=\"", lower.as_str(), "\"\n--style=\"numbers,changes\"\n--color=\"always\"");
    assert(inner@ == bat_conf_inner(lowercase(theme@)));
    let final_bat = replace_block(bat_current, "batconf", inner.as_str());
    let zinner = concat("export BAT_CONFIG_PATH=", conf_shown);
    let final_zshrc = replace_block(zshrc_current, "bat", zinner.as_str());
    let tb = trim_exec(&chars_of(bat_current));
    let tfb = trim_exec(&chars_of(final_bat.as_str()));
    let tz = trim_exec(&chars_of(zshrc_current));
    let tfz = trim_exec(&chars_of(final_zshrc.as_str()));
    let bat_ok = chars_eq(&tfb, &tb);
    let zshrc_ok = zshrc_current.is_empty() || chars_eq(&tfz, &tz);
    if bat_ok && zshrc_ok {
        None
    } else if !chars_eq(&tb, &tfb) {
        Some((BatTarget::BatConf, final_bat))
    } else if !zshrc_current.is_empty() && !zshrc_ok {
        Some((BatTarget::Zshrc, final_zshrc))
    } else {
        None
    }
}

/// The message shown where the configuration file is missing.
pub open spec fn not_found_text() -> Seq<char> {
    "✘ Config file not found"@
}

impl GeneratorKind {
    /// The configuration file a comparison reads.
    pub fn diff_config_path(&self, paths: &IrisPaths, env: &HostEnv) -> (r: FsPath)
        ensures
            r@ == spec_diff_config_path(*self, *paths, *env),
    {
        let dir = self.config_dir(paths, env);
        match self {
            GeneratorKind::Alacritty => dir.join("alacritty.toml"),
            GeneratorKind::Ghostty => dir.join("config"),
            GeneratorKind::Tmux => dir.join("tmux.conf"),
            GeneratorKind::Yazi => dir.join("yazi.toml"),
            GeneratorKind::Bottom => self.link_path(paths, env, ""),
            _ => self.config_path(paths, env),
        }
    }

    /// What the marker block should hold, read against `fs`.
    pub fn block_inner(&self, paths: &IrisPaths, env: &HostEnv, theme: &str, fs: &FsSnapshot) -> (r: Result<
        String,
        DiffError,
    >)
        ensures
            match spec_block_inner(*self, *paths, *env, theme@, fs@) {
                Ok(c) => r matches Ok(s) && s@ == c,
                Err(p) => r matches Err(DiffError::Unreadable(q)) && q@ == p,
            },
    {
        match self {
            GeneratorKind::Herdr | GeneratorKind::Bottom => {
                let cache = self.cache_path(paths, theme);
                if fs.path_exists(&cache) {
                    match fs.read(&cache) {
                        Some(c) => Ok(c),
                        None => Err(DiffError::Unreadable(cache)),
                    }
                } else {
                    Ok(String::new())
                }
            },
            GeneratorKind::Fzf => {
                if theme.is_empty() {
                    Ok(String::new())
                } else {
                    let shown = pretty_path(&self.cache_path(paths, theme), &env.home);
                    let mut out = concat3("[ -f ", shown.as_str(), " ] && source ");
                    out.append(shown.as_str());
                    Ok(out)
                }
            },
            _ => Ok(String::new()),
        }
    }

    /// Compares the application's configuration, observed in `fs`, with what
    /// `theme` needs.
    pub fn diff_decision(&self, paths: &IrisPaths, env: &HostEnv, theme: &str, fs: &FsSnapshot) -> (r: Result<
        DiffDecision,
        DiffError,
    >)
        ensures
            match spec_diff_decision(*self, *paths, *env, theme@, fs@) {
                Ok(d) => r matches Ok(x) && x@ == d,
                Err(e) => r matches Err(x) && diff_error_view(x) == e,
            },
    {
        match self {
            GeneratorKind::WezTerm | GeneratorKind::Starship | GeneratorKind::Yazi => return Ok(DiffDecision::Same),
            _ => {},
        }
        let cfg = self.diff_config_path(paths, env);
        if !fs.path_exists(&cfg) {
            return Ok(DiffDecision::ConfigNotFound);
        }
        let current = match fs.read(&cfg) {
            Some(c) => c,
            None => return Err(DiffError::Unreadable(cfg)),
        };
        match self {
            GeneratorKind::Alacritty => {
                if !alacritty_general_editable(current.as_str()) {
                    return if toml_parse_ok(current.as_str()) {
                        Err(DiffError::NotATable)
                    } else {
                        Err(DiffError::InvalidToml)
                    };
                }
                return match alacritty_diff_target(current.as_str()) {
                    Err(e) => Err(e),
                    Ok(None) => Ok(DiffDecision::Same),
                    Ok(Some(t)) => Ok(DiffDecision::Differs { path: cfg, current, target: t }),
                };
            },
            GeneratorKind::Bat => {
                let conf = paths.bin.join("bat.conf");
                let zshrc = crate::generators::zshrc_path(paths);
                let bat_current = fs.read_or_empty(&conf);
                let zshrc_current = fs.read_or_empty(&zshrc);
                let shown = pretty_path(&conf, &env.home);
                return match bat_diff_target(theme, bat_current.as_str(), zshrc_current.as_str(), shown.as_str()) {
                    None => Ok(DiffDecision::Same),
                    Some((BatTarget::BatConf, t)) => Ok(DiffDecision::Differs { path: cfg, current: bat_current, target: t }),
                    Some((BatTarget::Zshrc, t)) => Ok(DiffDecision::Differs { path: zshrc, current: zshrc_current, target: t }),
                };
            },
            _ => {},
        }
        let inner = match self.block_inner(paths, env, theme, fs) {
            Ok(i) => i,
            Err(e) => return Err(e),
        };
        let style = self.diff_style(theme);
        let target = diff_target(&style, current.as_str(), self.name(), inner.as_str());
        proof {
            reveal_strlit("default");
            assert(spec_kind_target(*self, theme@, current@, inner@) == spec_diff_target(
                style,
                current@,
                self.spec_name(),
                inner@,
            ));
        }
        match target {
            None => Ok(DiffDecision::Same),
            Some(t) => Ok(DiffDecision::Differs { path: cfg, current, target: t }),
        }
    }

    /// The comparison as it is shown: nothing where nothing is to change, the
    /// not-found message in red where the file is missing, else the rendered
    /// line diff.
    pub fn diff(&self, paths: &IrisPaths, env: &HostEnv, theme: &str, fs: &FsSnapshot) -> (r: Result<
        Option<String>,
        DiffError,
    >)
        ensures
            match spec_diff_decision(*self, *paths, *env, theme@, fs@) {
                Ok(DecisionView::Same) => r matches Ok(None),
                Ok(DecisionView::ConfigNotFound) => r matches Ok(Some(s)) && exists|m: Seq<char>|
                    #![trigger painted(m, not_found_text(), Paint { fg: Tint::Red, bold: false, dimmed: false })]
                    painted(m, not_found_text(), Paint { fg: Tint::Red, bold: false, dimmed: false })
                        && s@ == "  "@ + m,
                Ok(DecisionView::Differs(_, current, target)) => r matches Ok(Some(s)) && renders(
                    s@,
                    line_diff_groups(current, target),
                ),
                Err(e) => r matches Err(x) && diff_error_view(x) == e,
            },
    {
        match self.diff_decision(paths, env, theme, fs) {
            Err(e) => Err(e),
            Ok(DiffDecision::Same) => Ok(None),
            Ok(DiffDecision::ConfigNotFound) => {
                let m = paint("✘ Config file not found", Paint { fg: Tint::Red, bold: false, dimmed: false });
                assert(painted(m@, not_found_text(), Paint { fg: Tint::Red, bold: false, dimmed: false }));
                Ok(Some(concat("  ", m.as_str())))
            },
            Ok(DiffDecision::Differs { path: _, current, target }) => Ok(
                Some(render_diff(current.as_str(), target.as_str())),
            ),
        }
    }
}

} // verus!
