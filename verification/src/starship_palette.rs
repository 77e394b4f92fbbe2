//! The starship palette: a `[palettes.<name>]` table and the `palette` key
//! that selects it.

use vstd::prelude::*;
use vstd::string::*;
use crate::apps::StarshipGenerator;
use crate::palette::Palette;
use crate::text::{
    chars_of, contains, find, find_exec, find_from, join, join_lines, lemma_find, lines, occurs_at,
    push_all, slice_of, split_lines, starts_with, starts_with_exec, str_contains, string_of,
    trim_end, trim_end_exec, trim_start, views,
};

verus! {

/// `"<key> = \"<value>\"\n"` with the key padded to the palette's column.
pub open spec fn palette_line(key: Seq<char>, value: Seq<char>) -> Seq<char> {
    key + " = \""@ + value + "\"\n"@
}

/// The palette table of a theme.
pub open spec fn spec_palette_block(p: Palette, name: Seq<char>) -> Seq<char> {
    let a = p.spec_ansi();
    "\n[palettes."@ + name + "]\n"@
        + palette_line("base    "@, p.bg@)
        + palette_line("mantle  "@, a[0])
        + palette_line("text    "@, p.fg@)
        + palette_line("subtext0"@, p.gutter_fg@)
        + palette_line("surface "@, p.sel@)
        + palette_line("overlay "@, p.line_hl@)
        + palette_line("red     "@, a[1])
        + palette_line("green   "@, a[2])
        + palette_line("yellow  "@, a[3])
        + palette_line("blue    "@, a[4])
        + palette_line("mauve   "@, a[5])
        + palette_line("teal    "@, a[6])
        + palette_line("peach   "@, a[9])
        + palette_line("foam    "@, a[14])
        + palette_line("gold    "@, a[11])
}

fn push_str(out: &mut Vec<char>, s: &str)
    ensures
        final(out)@ == old(out)@ + s@,
{
    let c = chars_of(s);
    push_all(out, &c);
}

fn push_line(out: &mut Vec<char>, key: &str, value: &str)
    ensures
        final(out)@ == old(out)@ + palette_line(key@, value@),
{
    let ghost start = out@;
    push_str(out, key);
    push_str(out, " = \"");
    push_str(out, value);
    push_str(out, "\"\n");
    assert(out@ =~= start + palette_line(key@, value@));
}

impl StarshipGenerator {
    /// Build starship theme palette.
    pub fn build_config(&self, p: &Palette, name: &str) -> (r: String)
        requires
            p.ansi@.len() >= 15,
        ensures
            r@ == spec_palette_block(*p, name@),
    {
        let a = &p.ansi;
        let mut out: Vec<char> = Vec::new();
        push_str(&mut out, "\n[palettes.");
        push_str(&mut out, name);
        push_str(&mut out, "]\n");
        push_line(&mut out, "base    ", p.bg.as_str());
        push_line(&mut out, "mantle  ", a[0].as_str());
        push_line(&mut out, "text    ", p.fg.as_str());
        push_line(&mut out, "subtext0", p.gutter_fg.as_str());
        push_line(&mut out, "surface ", p.sel.as_str());
        push_line(&mut out, "overlay ", p.line_hl.as_str());
        push_line(&mut out, "red     ", a[1].as_str());
        push_line(&mut out, "green   ", a[2].as_str());
        push_line(&mut out, "yellow  ", a[3].as_str());
        push_line(&mut out, "blue    ", a[4].as_str());
        push_line(&mut out, "mauve   ", a[5].as_str());
        push_line(&mut out, "teal    ", a[6].as_str());
        push_line(&mut out, "peach   ", a[9].as_str());
        push_line(&mut out, "foam    ", a[14].as_str());
        push_line(&mut out, "gold    ", a[11].as_str());
        assert(out@ =~= spec_palette_block(*p, name@));
        string_of(&out)
    }
}

/// The result of `replace_palette_block`.
pub open spec fn spec_replace_palette_block(content: Seq<char>, header: Seq<char>, new_block: Seq<char>) -> Seq<char> {
    match find(content, header) {
        None => trim_end(content) + "\n"@ + new_block,
        Some(start) => {
            let from = start + header.len();
            let end = match find(content.skip(from), "\n["@) {
                Some(i) => from + i,
                None => content.len() as int,
            };
            content.take(start) + new_block + content.skip(end)
        },
    }
}

/// Replaces the table that starts at `header` (up to the next line that opens
/// a table) with `new_block`; where `header` is missing, appends `new_block`
/// on a new line after the content's trailing whitespace is removed.
pub fn replace_palette_block(content: &str, header: &str, new_block: &str) -> (r: String)
    ensures
        r@ == spec_replace_palette_block(content@, header@, new_block@),
{
    let c = chars_of(content);
    let h = chars_of(header);
    let b = chars_of(new_block);
    let n = c.len();
    let mut out: Vec<char> = Vec::new();
    match find_exec(&c, &h) {
        None => {
            let t = trim_end_exec(&c);
            push_all(&mut out, &t);
            out.push('\n');
            push_all(&mut out, &b);
            proof {
                reveal_strlit("\n");
            }
            assert(out@ =~= spec_replace_palette_block(content@, header@, new_block@));
            string_of(&out)
        },
        Some(start) => {
            proof {
                lemma_find(c@, h@);
                assert(occurs_at(c@, h@, start as int));
            }
            let from = start + h.len();
            let pat = chars_of("\n[");
            let end = match find_from(&c, &pat, from) {
                Some(e) => {
                    proof {
                        lemma_find(c@.skip(from as int), pat@);
                        assert(occurs_at(c@.skip(from as int), pat@, e - from));
                    }
                    e
                },
                None => n,
            };
            let head = slice_of(&c, 0, start);
            let tail = slice_of(&c, end, n);
            push_all(&mut out, &head);
            push_all(&mut out, &b);
            push_all(&mut out, &tail);
            assert(out@ =~= spec_replace_palette_block(content@, header@, new_block@));
            string_of(&out)
        },
    }
}

/// `line`, or `new_line` where `line` assigns the palette key.
pub open spec fn palette_key_line(line: Seq<char>, new_line: Seq<char>) -> Seq<char> {
    if starts_with(trim_start(line), "palette ="@) {
        new_line
    } else {
        line
    }
}

/// The line assigns the palette key: trimmed at its start, it begins with
/// `palette =`.
pub open spec fn assigns_palette(line: Seq<char>) -> bool {
    starts_with(trim_start(line), "palette ="@)
}

/// Some line of `content` assigns the palette key.
pub open spec fn has_palette_line(content: Seq<char>) -> bool {
    exists|i: int| 0 <= i < lines(content).len() && assigns_palette(#[trigger] lines(content)[i])
}

/// The result of `set_palette_key`.
pub open spec fn spec_set_palette_key(content: Seq<char>, name: Seq<char>) -> Seq<char> {
    let new_line = "palette = \""@ + name + "\""@;
    if has_palette_line(content) {
        join(lines(content).map_values(|l: Seq<char>| palette_key_line(l, new_line)), "\n"@)
    } else {
        new_line + "\n"@ + content
    }
}

/// Sets `palette = "<name>"`: every line that assigns the key is replaced
/// (and the text rejoined by line feeds); where no line does, the key is put
/// on a first line of its own.
pub fn set_palette_key(content: &str, name: &str) -> (r: String)
    ensures
        r@ == spec_set_palette_key(content@, name@),
{
    let mut nl: Vec<char> = Vec::new();
    push_str(&mut nl, "palette = \"");
    push_str(&mut nl, name);
    push_str(&mut nl, "\"");
    let ghost new_line = "palette = \""@ + name@ + "\""@;
    assert(nl@ =~= new_line);
    let c = chars_of(content);
    let ls = split_lines(&c);
    let key = chars_of("palette =");
    let mut mapped: Vec<Vec<char>> = Vec::new();
    let mut any = false;
    let mut i: usize = 0;
    while i < ls.len()
        invariant
            i <= ls@.len(),
            key@ == "palette ="@,
            nl@ == new_line,
            views(ls@) == lines(content@),
            views(mapped@) == views(ls@).take(i as int).map_values(|l: Seq<char>| palette_key_line(l, new_line)),
            any <==> exists|j: int| 0 <= j < i && assigns_palette(#[trigger] views(ls@)[j]),
        decreases ls@.len() - i,
    {
        let line = &ls[i];
        let mut k: usize = 0;
        assert(line@.skip(0) =~= line@);
        while k < line.len() && crate::text::char_is_ws(line[k])
            invariant
                k <= line@.len(),
                trim_start(line@) == trim_start(line@.skip(k as int)),
            decreases line@.len() - k,
        {
            assert(line@.skip(k as int).drop_first() =~= line@.skip(k + 1));
            k = k + 1;
        }
        let rest = slice_of(line, k, line.len());
        assert(rest@ =~= line@.skip(k as int));
        assert(trim_start(rest@) == rest@) by {
            if rest@.len() > 0 {
                assert(rest@[0] == line@[k as int]);
            }
        }
        let hit = starts_with_exec(&rest, &key);
        assert(views(ls@)[i as int] == line@);
        assert(hit == assigns_palette(line@));
        let ghost before = views(mapped@);
        if hit {
            mapped.push(nl.clone());
            any = true;
        } else {
            mapped.push(line.clone());
        }
        assert(views(mapped@) =~= before.push(palette_key_line(ls@[i as int]@, new_line)));
        assert(views(ls@).take(i + 1).map_values(|l: Seq<char>| palette_key_line(l, new_line))
            =~= views(ls@).take(i as int).map_values(|l: Seq<char>| palette_key_line(l, new_line)).push(
            palette_key_line(ls@[i as int]@, new_line),
        ));
        i = i + 1;
    }
    assert(views(ls@).take(ls@.len() as int) =~= views(ls@));
    if any {
        let sep = chars_of("\n");
        let out = join_lines(&mapped, &sep);
        proof {
            reveal_strlit("\n");
        }
        assert(sep@ =~= "\n"@);
        string_of(&out)
    } else {
        let mut out = nl;
        out.push('\n');
        push_str(&mut out, content);
        proof {
            reveal_strlit("\n");
        }
        assert(out@ =~= new_line + "\n"@ + content@);
        string_of(&out)
    }
}

/// The starship config after a theme is applied: the existing config, or a
/// bare palette key where there is none, with the palette key set to the theme
/// and the theme's table written in.
pub open spec fn spec_apply_palette(existing: Option<Seq<char>>, p: Palette, theme: Seq<char>) -> Seq<char> {
    let base = match existing {
        Some(c) => c,
        None => "palette = \""@ + theme + "\"\n"@,
    };
    spec_replace_palette_block(
        spec_set_palette_key(base, theme),
        "[palettes."@ + theme + "]"@,
        spec_palette_block(p, theme),
    )
}

pub open spec fn opt_view(o: Option<&str>) -> Option<Seq<char>> {
    match o {
        Some(s) => Some(s@),
        None => None,
    }
}

impl StarshipGenerator {
    /// The new content of the starship config for `theme`, given its current
    /// content (`None` where the file does not exist).
    pub fn palette_config(&self, existing: Option<&str>, p: &Palette, theme: &str) -> (r: String)
        requires
            p.ansi@.len() >= 15,
        ensures
            r@ == spec_apply_palette(opt_view(existing), *p, theme@),
    {
        let base: String = match existing {
            Some(c) => String::from_str(c),
            None => {
                let mut v: Vec<char> = Vec::new();
                push_str(&mut v, "palette = \"");
                push_str(&mut v, theme);
                push_str(&mut v, "\"\n");
                string_of(&v)
            },
        };
        let updated = set_palette_key(base.as_str(), theme);
        let mut hv: Vec<char> = Vec::new();
        push_str(&mut hv, "[palettes.");
        push_str(&mut hv, theme);
        push_str(&mut hv, "]");
        let header = string_of(&hv);
        let block = self.build_config(p, theme);
        replace_palette_block(updated.as_str(), header.as_str(), block.as_str())
    }
}

/// The hint for a missing starship config, with its two painted parts.
pub open spec fn missing_config_hint(path_shown: Seq<char>, line_shown: Seq<char>) -> Seq<char> {
    "No "@ + path_shown + " found. Create it and add:\n     "@ + line_shown
}

/// The hint for a starship config without a `palette` key.
pub open spec fn missing_key_hint(file_shown: Seq<char>, line_shown: Seq<char>) -> Seq<char> {
    "Theme won't load until you add to "@ + file_shown + ":\n     "@ + line_shown
}

impl StarshipGenerator {
    /// What the user is told to do for the palette to load: create
    /// `~/.config/starship/starship.toml`, or add a `palette =` line to it;
    /// nothing where it has one, or where the home directory is unknown.
    pub fn setup_hint(&self, home: Option<&crate::paths::FsPath>, fs: &crate::health::FsSnapshot) -> (r: Option<String>)
        ensures
            match home {
                None => r is None,
                Some(h) => {
                    let cfg = crate::paths::join(h@, ".config/starship/starship.toml"@);
                    let content = match fs.spec_read(cfg) {
                        Some(c) => c,
                        None => Seq::<char>::empty(),
                    };
                    if !fs.spec_exists(cfg) {
                        r matches Some(t) && exists|a: Seq<char>, b: Seq<char>|
                            #![trigger missing_config_hint(a, b)]
                            crate::paint::painted(a, "~/.config/starship/starship.toml"@, crate::paint::tinted(crate::paint::Tint::Cyan))
                                && crate::paint::painted(b, "palette = \"<theme_name>\""@, crate::paint::tinted(crate::paint::Tint::Yellow))
                                && t@ == missing_config_hint(a, b)
                    } else if !contains(content, "palette ="@) {
                        r matches Some(t) && exists|a: Seq<char>, b: Seq<char>|
                            #![trigger missing_key_hint(a, b)]
                            crate::paint::painted(a, "starship.toml"@, crate::paint::tinted(crate::paint::Tint::Cyan))
                                && crate::paint::painted(b, "palette = \"<theme_name>\""@, crate::paint::tinted(crate::paint::Tint::Yellow))
                                && t@ == missing_key_hint(a, b)
                    } else {
                        r is None
                    }
                },
            },
    {
        let h = match home {
            None => return None,
            Some(h) => h,
        };
        let cfg = h.join(".config/starship/starship.toml");
        let line = crate::paint::tint("palette = \"<theme_name>\"", crate::paint::Tint::Yellow);
        if !fs.path_exists(&cfg) {
            let a = crate::paint::tint("~/.config/starship/starship.toml", crate::paint::Tint::Cyan);
            let mut t = String::from_str("No ");
            t.append(a.as_str());
            t.append(" found. Create it and add:\n     ");
            t.append(line.as_str());
            assert(t@ == missing_config_hint(a@, line@));
            return Some(t);
        }
        let content = fs.read_or_empty(&cfg);
        if !str_contains(content.as_str(), "palette =") {
            let a = crate::paint::tint("starship.toml", crate::paint::Tint::Cyan);
            let mut t = String::from_str("Theme won't load until you add to ");
            t.append(a.as_str());
            t.append(":\n     ");
            t.append(line.as_str());
            assert(t@ == missing_key_hint(a@, line@));
            return Some(t);
        }
        None
    }
}


/// The pieces put one after another.
pub open spec fn cat(ls: Seq<Seq<char>>) -> Seq<char>
    decreases ls.len(),
{
    if ls.len() == 0 {
        Seq::empty()
    } else {
        cat(ls.drop_last()) + ls.last()
    }
}

/// What holds `p` still holds it with more after it.
proof fn lemma_contains_prefix(x: Seq<char>, y: Seq<char>, p: Seq<char>)
    requires
        contains(x, p),
    ensures
        contains(x + y, p),
{
    lemma_find(x, p);
    let i = find(x, p)->0;
    assert((x + y).subrange(i, i + p.len()) =~= x.subrange(i, i + p.len()));
    crate::strings::lemma_occurs_contains(x + y, p, i);
}

/// Pieces that each end with a line feed, put after a text that ends with
/// one, end with one.
proof fn lemma_cat_ends(h: Seq<char>, ls: Seq<Seq<char>>)
    requires
        h.len() > 0,
        h[h.len() - 1] == '\n',
        forall|j: int| 0 <= j < ls.len() ==> (#[trigger] ls[j]).len() > 0 && ls[j][ls[j].len() - 1] == '\n',
    ensures
        (h + cat(ls)).len() > 0,
        (h + cat(ls))[(h + cat(ls)).len() - 1] == '\n',
{
    if ls.len() > 0 {
        assert(ls.last() == ls[ls.len() - 1]);
    }
}

/// Each piece, when every piece ends with a line feed and they follow a text
/// that ends with one, is found right after a line feed.
proof fn lemma_cat_line(h: Seq<char>, ls: Seq<Seq<char>>, i: int)
    requires
        h.len() > 0,
        h[h.len() - 1] == '\n',
        forall|j: int| 0 <= j < ls.len() ==> (#[trigger] ls[j]).len() > 0 && ls[j][ls[j].len() - 1] == '\n',
        0 <= i < ls.len(),
    ensures
        contains(h + cat(ls), seq!['\n'] + ls[i]),
    decreases ls.len(),
{
    let front = ls.drop_last();
    assert forall|j: int| 0 <= j < front.len() implies (#[trigger] front[j]).len() > 0 && front[j][front[j].len() - 1]
        == '\n' by {
        assert(front[j] == ls[j]);
    }
    assert(h + cat(ls) =~= (h + cat(front)) + ls.last());
    if i == ls.len() - 1 {
        lemma_cat_ends(h, front);
        lemma_line_after_nl(h + cat(front), ls.last(), Seq::<char>::empty());
        assert((h + cat(front)) + ls.last() + Seq::<char>::empty() =~= (h + cat(front)) + ls.last());
    } else {
        lemma_cat_line(h, front, i);
        assert(front[i] == ls[i]);
        lemma_contains_prefix(h + cat(front), ls.last(), seq!['\n'] + ls[i]);
    }
}

/// The lines of the palette table, in order.
pub open spec fn palette_lines(p: Palette) -> Seq<Seq<char>> {
    let a = p.spec_ansi();
    seq![
        palette_line("base    "@, p.bg@),
        palette_line("mantle  "@, a[0]),
        palette_line("text    "@, p.fg@),
        palette_line("subtext0"@, p.gutter_fg@),
        palette_line("surface "@, p.sel@),
        palette_line("overlay "@, p.line_hl@),
        palette_line("red     "@, a[1]),
        palette_line("green   "@, a[2]),
        palette_line("yellow  "@, a[3]),
        palette_line("blue    "@, a[4]),
        palette_line("mauve   "@, a[5]),
        palette_line("teal    "@, a[6]),
        palette_line("peach   "@, a[9]),
        palette_line("foam    "@, a[14]),
        palette_line("gold    "@, a[11])
    ]
}

proof fn lemma_cat_push(ls: Seq<Seq<char>>, x: Seq<char>)
    ensures
        cat(ls.push(x)) == cat(ls) + x,
{
    assert(ls.push(x).drop_last() =~= ls);
}

proof fn lemma_palette_block_cat(p: Palette, name: Seq<char>)
    ensures
        spec_palette_block(p, name) == "\n[palettes."@ + name + "]\n"@ + cat(palette_lines(p)),
{
    let a = p.spec_ansi();
    let s0 = Seq::<Seq<char>>::empty();
    let l0 = palette_line("base    "@, p.bg@);
    let s1 = s0.push(l0);
    lemma_cat_push(s0, l0);
    let l1 = palette_line("mantle  "@, a[0]);
    let s2 = s1.push(l1);
    lemma_cat_push(s1, l1);
    let l2 = palette_line("text    "@, p.fg@);
    let s3 = s2.push(l2);
    lemma_cat_push(s2, l2);
    let l3 = palette_line("subtext0"@, p.gutter_fg@);
    let s4 = s3.push(l3);
    lemma_cat_push(s3, l3);
    let l4 = palette_line("surface "@, p.sel@);
    let s5 = s4.push(l4);
    lemma_cat_push(s4, l4);
    let l5 = palette_line("overlay "@, p.line_hl@);
    let s6 = s5.push(l5);
    lemma_cat_push(s5, l5);
    let l6 = palette_line("red     "@, a[1]);
    let s7 = s6.push(l6);
    lemma_cat_push(s6, l6);
    let l7 = palette_line("green   "@, a[2]);
    let s8 = s7.push(l7);
    lemma_cat_push(s7, l7);
    let l8 = palette_line("yellow  "@, a[3]);
    let s9 = s8.push(l8);
    lemma_cat_push(s8, l8);
    let l9 = palette_line("blue    "@, a[4]);
    let s10 = s9.push(l9);
    lemma_cat_push(s9, l9);
    let l10 = palette_line("mauve   "@, a[5]);
    let s11 = s10.push(l10);
    lemma_cat_push(s10, l10);
    let l11 = palette_line("teal    "@, a[6]);
    let s12 = s11.push(l11);
    lemma_cat_push(s11, l11);
    let l12 = palette_line("peach   "@, a[9]);
    let s13 = s12.push(l12);
    lemma_cat_push(s12, l12);
    let l13 = palette_line("foam    "@, a[14]);
    let s14 = s13.push(l13);
    lemma_cat_push(s13, l13);
    let l14 = palette_line("gold    "@, a[11]);
    let s15 = s14.push(l14);
    lemma_cat_push(s14, l14);
    assert(palette_lines(p) =~= s15);
    assert(cat(s0) =~= Seq::<char>::empty());
    assert(cat(s15) =~= l0 + l1 + l2 + l3 + l4 + l5 + l6 + l7 + l8 + l9 + l10 + l11 + l12 + l13 + l14);
    assert(spec_palette_block(p, name) =~= "\n[palettes."@ + name + "]\n"@ + (l0 + l1 + l2 + l3 + l4 + l5 + l6 + l7 + l8 + l9 + l10 + l11 + l12 + l13 + l14));
}

proof fn lemma_palette_lines_end(p: Palette)
    ensures
        forall|j: int| 0 <= j < palette_lines(p).len() ==> (#[trigger] palette_lines(p)[j]).len() > 0
            && palette_lines(p)[j][palette_lines(p)[j].len() - 1] == '\n',
{
    reveal_strlit("\"\n");
    assert forall|j: int| 0 <= j < palette_lines(p).len() implies (#[trigger] palette_lines(p)[j]).len() > 0
        && palette_lines(p)[j][palette_lines(p)[j].len() - 1] == '\n' by {
        let l = palette_lines(p)[j];
        assert(l.len() > 0 && l[l.len() - 1] == '\n');
    }
}

proof fn lemma_palette_entries_0(p: Palette, name: Seq<char>)
    ensures
        contains(spec_palette_block(p, name), "\nbase     = \""@ + p.bg@ + "\"\n"@),
        contains(spec_palette_block(p, name), "\nmantle   = \""@ + p.spec_ansi()[0] + "\"\n"@),
        contains(spec_palette_block(p, name), "\ntext     = \""@ + p.fg@ + "\"\n"@),
        contains(spec_palette_block(p, name), "\nsubtext0 = \""@ + p.gutter_fg@ + "\"\n"@),
        contains(spec_palette_block(p, name), "\nsurface  = \""@ + p.sel@ + "\"\n"@),
{
    let h = "\n[palettes."@ + name + "]\n"@;
    let ls = palette_lines(p);
    lemma_palette_block_cat(p, name);
    lemma_palette_lines_end(p);
    reveal_strlit("\n[palettes.");
    reveal_strlit("]\n");
    reveal_strlit(" = \"");
    reveal_strlit("\"\n");
    lemma_cat_line(h, ls, 0);
    reveal_strlit("base    ");
    reveal_strlit("\nbase     = \"");
    assert(seq!['\n'] + ls[0] =~= "\nbase     = \""@ + p.bg@ + "\"\n"@);
    lemma_cat_line(h, ls, 1);
    reveal_strlit("mantle  ");
    reveal_strlit("\nmantle   = \"");
    assert(seq!['\n'] + ls[1] =~= "\nmantle   = \""@ + p.spec_ansi()[0] + "\"\n"@);
    lemma_cat_line(h, ls, 2);
    reveal_strlit("text    ");
    reveal_strlit("\ntext     = \"");
    assert(seq!['\n'] + ls[2] =~= "\ntext     = \""@ + p.fg@ + "\"\n"@);
    lemma_cat_line(h, ls, 3);
    reveal_strlit("subtext0");
    reveal_strlit("\nsubtext0 = \"");
    assert(seq!['\n'] + ls[3] =~= "\nsubtext0 = \""@ + p.gutter_fg@ + "\"\n"@);
    lemma_cat_line(h, ls, 4);
    reveal_strlit("surface ");
    reveal_strlit("\nsurface  = \"");
    assert(seq!['\n'] + ls[4] =~= "\nsurface  = \""@ + p.sel@ + "\"\n"@);
}

proof fn lemma_palette_entries_1(p: Palette, name: Seq<char>)
    ensures
        contains(spec_palette_block(p, name), "\noverlay  = \""@ + p.line_hl@ + "\"\n"@),
        contains(spec_palette_block(p, name), "\nred      = \""@ + p.spec_ansi()[1] + "\"\n"@),
        contains(spec_palette_block(p, name), "\ngreen    = \""@ + p.spec_ansi()[2] + "\"\n"@),
        contains(spec_palette_block(p, name), "\nyellow   = \""@ + p.spec_ansi()[3] + "\"\n"@),
        contains(spec_palette_block(p, name), "\nblue     = \""@ + p.spec_ansi()[4] + "\"\n"@),
{
    let h = "\n[palettes."@ + name + "]\n"@;
    let ls = palette_lines(p);
    lemma_palette_block_cat(p, name);
    lemma_palette_lines_end(p);
    reveal_strlit("\n[palettes.");
    reveal_strlit("]\n");
    reveal_strlit(" = \"");
    reveal_strlit("\"\n");
    lemma_cat_line(h, ls, 5);
    reveal_strlit("overlay ");
    reveal_strlit("\noverlay  = \"");
    assert(seq!['\n'] + ls[5] =~= "\noverlay  = \""@ + p.line_hl@ + "\"\n"@);
    lemma_cat_line(h, ls, 6);
    reveal_strlit("red     ");
    reveal_strlit("\nred      = \"");
    assert(seq!['\n'] + ls[6] =~= "\nred      = \""@ + p.spec_ansi()[1] + "\"\n"@);
    lemma_cat_line(h, ls, 7);
    reveal_strlit("green   ");
    reveal_strlit("\ngreen    = \"");
    assert(seq!['\n'] + ls[7] =~= "\ngreen    = \""@ + p.spec_ansi()[2] + "\"\n"@);
    lemma_cat_line(h, ls, 8);
    reveal_strlit("yellow  ");
    reveal_strlit("\nyellow   = \"");
    assert(seq!['\n'] + ls[8] =~= "\nyellow   = \""@ + p.spec_ansi()[3] + "\"\n"@);
    lemma_cat_line(h, ls, 9);
    reveal_strlit("blue    ");
    reveal_strlit("\nblue     = \"");
    assert(seq!['\n'] + ls[9] =~= "\nblue     = \""@ + p.spec_ansi()[4] + "\"\n"@);
}

proof fn lemma_palette_entries_2(p: Palette, name: Seq<char>)
    ensures
        contains(spec_palette_block(p, name), "\nmauve    = \""@ + p.spec_ansi()[5] + "\"\n"@),
        contains(spec_palette_block(p, name), "\nteal     = \""@ + p.spec_ansi()[6] + "\"\n"@),
        contains(spec_palette_block(p, name), "\npeach    = \""@ + p.spec_ansi()[9] + "\"\n"@),
        contains(spec_palette_block(p, name), "\nfoam     = \""@ + p.spec_ansi()[14] + "\"\n"@),
        contains(spec_palette_block(p, name), "\ngold     = \""@ + p.spec_ansi()[11] + "\"\n"@),
{
    let h = "\n[palettes."@ + name + "]\n"@;
    let ls = palette_lines(p);
    lemma_palette_block_cat(p, name);
    lemma_palette_lines_end(p);
    reveal_strlit("\n[palettes.");
    reveal_strlit("]\n");
    reveal_strlit(" = \"");
    reveal_strlit("\"\n");
    lemma_cat_line(h, ls, 10);
    reveal_strlit("mauve   ");
    reveal_strlit("\nmauve    = \"");
    assert(seq!['\n'] + ls[10] =~= "\nmauve    = \""@ + p.spec_ansi()[5] + "\"\n"@);
    lemma_cat_line(h, ls, 11);
    reveal_strlit("teal    ");
    reveal_strlit("\nteal     = \"");
    assert(seq!['\n'] + ls[11] =~= "\nteal     = \""@ + p.spec_ansi()[6] + "\"\n"@);
    lemma_cat_line(h, ls, 12);
    reveal_strlit("peach   ");
    reveal_strlit("\npeach    = \"");
    assert(seq!['\n'] + ls[12] =~= "\npeach    = \""@ + p.spec_ansi()[9] + "\"\n"@);
    lemma_cat_line(h, ls, 13);
    reveal_strlit("foam    ");
    reveal_strlit("\nfoam     = \"");
    assert(seq!['\n'] + ls[13] =~= "\nfoam     = \""@ + p.spec_ansi()[14] + "\"\n"@);
    lemma_cat_line(h, ls, 14);
    reveal_strlit("gold    ");
    reveal_strlit("\ngold     = \"");
    assert(seq!['\n'] + ls[14] =~= "\ngold     = \""@ + p.spec_ansi()[11] + "\"\n"@);
}

/// The palette table gives each of its names the color it stands for: `base`
/// the background, `text` the foreground, `subtext0` the gutter, `surface`
/// the selection, `overlay` the line highlight, and the others the terminal
/// colors (`mantle` 0, `red` 1, `green` 2, `yellow` 3, `blue` 4, `mauve` 5,
/// `teal` 6, `peach` 9, `gold` 11, `foam` 14), each on a line of its own
/// after the table's header.
pub proof fn lemma_palette_block_names_its_colors(p: Palette, name: Seq<char>)
    ensures
        starts_with(spec_palette_block(p, name), "\n[palettes."@ + name + "]\n"@),
        contains(spec_palette_block(p, name), "\nbase     = \""@ + p.bg@ + "\"\n"@),
        contains(spec_palette_block(p, name), "\nmantle   = \""@ + p.spec_ansi()[0] + "\"\n"@),
        contains(spec_palette_block(p, name), "\ntext     = \""@ + p.fg@ + "\"\n"@),
        contains(spec_palette_block(p, name), "\nsubtext0 = \""@ + p.gutter_fg@ + "\"\n"@),
        contains(spec_palette_block(p, name), "\nsurface  = \""@ + p.sel@ + "\"\n"@),
        contains(spec_palette_block(p, name), "\noverlay  = \""@ + p.line_hl@ + "\"\n"@),
        contains(spec_palette_block(p, name), "\nred      = \""@ + p.spec_ansi()[1] + "\"\n"@),
        contains(spec_palette_block(p, name), "\ngreen    = \""@ + p.spec_ansi()[2] + "\"\n"@),
        contains(spec_palette_block(p, name), "\nyellow   = \""@ + p.spec_ansi()[3] + "\"\n"@),
        contains(spec_palette_block(p, name), "\nblue     = \""@ + p.spec_ansi()[4] + "\"\n"@),
        contains(spec_palette_block(p, name), "\nmauve    = \""@ + p.spec_ansi()[5] + "\"\n"@),
        contains(spec_palette_block(p, name), "\nteal     = \""@ + p.spec_ansi()[6] + "\"\n"@),
        contains(spec_palette_block(p, name), "\npeach    = \""@ + p.spec_ansi()[9] + "\"\n"@),
        contains(spec_palette_block(p, name), "\nfoam     = \""@ + p.spec_ansi()[14] + "\"\n"@),
        contains(spec_palette_block(p, name), "\ngold     = \""@ + p.spec_ansi()[11] + "\"\n"@),
{
    lemma_palette_block_cat(p, name);
    let h = "\n[palettes."@ + name + "]\n"@;
    assert(spec_palette_block(p, name).take(h.len() as int) =~= h);
    lemma_palette_entries_0(p, name);
    lemma_palette_entries_1(p, name);
    lemma_palette_entries_2(p, name);
}

/// A line that follows a line feed is found with that line feed before it.
proof fn lemma_line_after_nl(x: Seq<char>, l: Seq<char>, y: Seq<char>)
    requires
        x.len() > 0,
        x[x.len() - 1] == '\n',
    ensures
        contains(x + l + y, seq!['\n'] + l),
{
    assert(x + l + y =~= x.drop_last() + (seq!['\n'] + l) + y);
    crate::strings::lemma_occurs_in_middle(x.drop_last(), seq!['\n'] + l, y);
    crate::strings::lemma_occurs_contains(x + l + y, seq!['\n'] + l, x.drop_last().len() as int);
}

} // verus!
