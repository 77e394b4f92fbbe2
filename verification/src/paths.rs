//! File system paths as sequences of components, and the directory layout the
//! library works in.

use vstd::prelude::*;
use vstd::string::*;
use crate::text::{chars_of, find, find_from, lemma_find, push_all, slice_of, string_of};

verus! {

/// A path: whether it is absolute, and its components, none of them empty or
/// `"."`. Two paths that name the same components compare equal, as `PathBuf`
/// does.
pub type PathView = (bool, Seq<Seq<char>>);

/// The pieces of `s` between slashes.
pub open spec fn split_slash(s: Seq<char>) -> Seq<Seq<char>>
    decreases s.len(),
{
    match find(s, seq!['/']) {
        None => seq![s],
        Some(i) => {
            proof {
                lemma_find(s, seq!['/']);
            }
            seq![s.take(i)] + split_slash(s.skip(i + 1))
        },
    }
}

/// A piece that names a component.
pub open spec fn is_component(c: Seq<char>) -> bool {
    c.len() > 0 && c != seq!['.']
}

/// The pieces that name components, in order.
pub open spec fn keep_components(ps: Seq<Seq<char>>) -> Seq<Seq<char>>
    decreases ps.len(),
{
    if ps.len() == 0 {
        seq![]
    } else if is_component(ps[0]) {
        seq![ps[0]] + keep_components(ps.drop_first())
    } else {
        keep_components(ps.drop_first())
    }
}

/// The components that a path string names.
pub open spec fn components(s: Seq<char>) -> Seq<Seq<char>> {
    keep_components(split_slash(s))
}

/// The path a string names.
pub open spec fn path_of(s: Seq<char>) -> PathView {
    (s.len() > 0 && s[0] == '/', components(s))
}

/// `Path::join`: an absolute `s` replaces the path, a relative one is added to it.
pub open spec fn join(p: PathView, s: Seq<char>) -> PathView {
    if s.len() > 0 && s[0] == '/' {
        path_of(s)
    } else {
        (p.0, p.1 + components(s))
    }
}

/// `Path::parent`: the path without its last component.
pub open spec fn parent(p: PathView) -> Option<PathView> {
    if p.1.len() == 0 {
        None
    } else {
        Some((p.0, p.1.drop_last()))
    }
}

/// `Path::parent`, or the path itself where it has none.
pub open spec fn parent_or_self(p: PathView) -> PathView {
    match parent(p) {
        Some(q) => q,
        None => p,
    }
}

/// `Path::file_name`: the last component.
pub open spec fn file_name(p: PathView) -> Option<Seq<char>> {
    if p.1.len() == 0 {
        None
    } else {
        Some(p.1.last())
    }
}

/// The components joined by slashes.
pub open spec fn slash_join(cs: Seq<Seq<char>>) -> Seq<char>
    decreases cs.len(),
{
    if cs.len() == 0 {
        seq![]
    } else if cs.len() == 1 {
        cs[0]
    } else {
        slash_join(cs.drop_last()) + seq!['/'] + cs.last()
    }
}

/// `Path::display`: a leading slash for an absolute path, then the components
/// joined by slashes.
pub open spec fn display(p: PathView) -> Seq<char> {
    if p.0 {
        seq!['/'] + slash_join(p.1)
    } else {
        slash_join(p.1)
    }
}

/// A path held as its components.
#[derive(Debug, Clone, PartialEq, Eq)]
pub struct FsPath {
    pub absolute: bool,
    pub parts: Vec<String>,
}

pub open spec fn part_views(v: Seq<String>) -> Seq<Seq<char>> {
    v.map_values(|x: String| x@)
}

impl View for FsPath {
    type V = PathView;

    open spec fn view(&self) -> PathView {
        (self.absolute, part_views(self.parts@))
    }
}

/// The components of `s`, in order.
fn components_of(s: &[char]) -> (r: Vec<String>)
    ensures
        part_views(r@) == components(s@),
{
    let mut out: Vec<String> = Vec::new();
    let mut pos: usize = 0;
    let slash: Vec<char> = vec!['/'];
    assert(s@.skip(0) =~= s@);
    let n = s.len();
    loop
        invariant
            n == s@.len(),
            pos <= s@.len(),
            slash@ == seq!['/'],
            components(s@) == part_views(out@) + components(s@.skip(pos as int)),
        decreases s@.len() - pos,
    {
        let ghost rest = s@.skip(pos as int);
        match find_from(s, &slash, pos) {
            None => {
                let piece = slice_of(s, pos, s.len());
                assert(piece@ =~= rest);
                assert(split_slash(rest) == seq![rest]);
                assert(seq![rest].drop_first() =~= Seq::<Seq<char>>::empty());
                let keep = piece.len() > 0 && !(piece.len() == 1 && piece[0] == '.');
                assert(keep == is_component(rest)) by {
                    if piece@.len() == 1 {
                        assert(piece@ =~= seq!['.'] <==> piece@[0] == '.');
                    }
                }
                if keep {
                    let ghost before = part_views(out@);
                    out.push(string_of(&piece));
                    assert(part_views(out@) =~= before.push(rest));
                }
                assert(seq![rest][0] == rest);
                assert(keep_components(Seq::<Seq<char>>::empty()) == Seq::<Seq<char>>::empty());
                assert(keep_components(seq![rest]) == if is_component(rest) {
                    seq![rest] + keep_components(Seq::<Seq<char>>::empty())
                } else {
                    keep_components(Seq::<Seq<char>>::empty())
                });
                assert(components(rest) =~= if is_component(rest) {
                    seq![rest]
                } else {
                    Seq::<Seq<char>>::empty()
                });
                assert(part_views(out@) =~= components(s@));
                return out;
            },
            Some(j) => {
                proof {
                    lemma_find(rest, seq!['/']);
                    assert(crate::text::occurs_at(rest, seq!['/'], j - pos));
                }
                assert(j < s@.len());
                let piece = slice_of(s, pos, j);
                assert(piece@ =~= rest.take(j - pos));
                assert(rest.skip(j - pos + 1) =~= s@.skip(j + 1));
                assert(split_slash(rest) == seq![rest.take(j - pos)] + split_slash(s@.skip(j + 1)));
                assert((seq![rest.take(j - pos)] + split_slash(s@.skip(j + 1))).drop_first()
                    =~= split_slash(s@.skip(j + 1)));
                let keep = piece.len() > 0 && !(piece.len() == 1 && piece[0] == '.');
                assert(keep == is_component(piece@)) by {
                    if piece@.len() == 1 {
                        assert(piece@ =~= seq!['.'] <==> piece@[0] == '.');
                    }
                }
                if keep {
                    let ghost before = part_views(out@);
                    out.push(string_of(&piece));
                    assert(part_views(out@) =~= before.push(piece@));
                }
                pos = j + 1;
            },
        }
    }
}

impl FsPath {
    /// `PathBuf::from`.
    pub fn new(s: &str) -> (r: FsPath)
        ensures
            r@ == path_of(s@),
    {
        let c = chars_of(s);
        let parts = components_of(&c);
        FsPath { absolute: c.len() > 0 && c[0] == '/', parts }
    }

    /// `Path::join`.
    pub fn join(&self, s: &str) -> (r: FsPath)
        ensures
            r@ == join(self@, s@),
    {
        let c = chars_of(s);
        if c.len() > 0 && c[0] == '/' {
            return FsPath::new(s);
        }
        let more = components_of(&c);
        let mut parts = self.parts.clone();
        let ghost start = part_views(parts@);
        assert(start =~= part_views(self.parts@));
        let mut i: usize = 0;
        while i < more.len()
            invariant
                i <= more@.len(),
                part_views(parts@) == start + part_views(more@).take(i as int),
            decreases more@.len() - i,
        {
            let ghost before = part_views(parts@);
            parts.push(more[i].clone());
            assert(part_views(parts@) =~= before.push(more@[i as int]@));
            assert(part_views(more@).take(i + 1) =~= part_views(more@).take(i as int).push(
                more@[i as int]@,
            ));
            i = i + 1;
        }
        assert(part_views(more@).take(more@.len() as int) =~= part_views(more@));
        FsPath { absolute: self.absolute, parts }
    }

    /// `Path::parent`.
    pub fn parent(&self) -> (r: Option<FsPath>)
        ensures
            r matches Some(q) ==> parent(self@) == Some(q@),
            r is None ==> parent(self@) is None,
    {
        if self.parts.len() == 0 {
            return None;
        }
        let mut parts = self.parts.clone();
        parts.pop();
        assert(part_views(parts@) =~= part_views(self.parts@).drop_last());
        Some(FsPath { absolute: self.absolute, parts })
    }

    /// `Path::parent`, or a copy of the path where it has none.
    pub fn parent_or_self(&self) -> (r: FsPath)
        ensures
            r@ == parent_or_self(self@),
    {
        match self.parent() {
            Some(q) => q,
            None => self.clone_path(),
        }
    }

    /// A copy of the path.
    pub fn clone_path(&self) -> (r: FsPath)
        ensures
            r@ == self@,
    {
        let parts = self.parts.clone();
        assert(part_views(parts@) =~= part_views(self.parts@));
        FsPath { absolute: self.absolute, parts }
    }

    /// `Path::file_name`.
    pub fn file_name(&self) -> (r: Option<String>)
        ensures
            r matches Some(n) ==> file_name(self@) == Some(n@),
            r is None ==> file_name(self@) is None,
    {
        let n = self.parts.len();
        if n == 0 {
            None
        } else {
            Some(self.parts[n - 1].clone())
        }
    }

    /// `Path::display`, as a string.
    pub fn display(&self) -> (r: String)
        ensures
            r@ == display(self@),
    {
        let mut out: Vec<char> = Vec::new();
        if self.absolute {
            out.push('/');
        }
        let ghost lead = out@;
        let mut i: usize = 0;
        while i < self.parts.len()
            invariant
                i <= self.parts@.len(),
                out@ == lead + slash_join(part_views(self.parts@).take(i as int)),
            decreases self.parts@.len() - i,
        {
            if i > 0 {
                out.push('/');
            }
            let piece = chars_of(self.parts[i].as_str());
            push_all(&mut out, &piece);
            let ghost ps = part_views(self.parts@);
            assert(ps.take(i + 1).drop_last() =~= ps.take(i as int));
            assert(ps.take(i + 1).last() == self.parts@[i as int]@);
            if i == 0 {
                assert(slash_join(ps.take(1)) == ps.take(1)[0]);
            }
            i = i + 1;
        }
        assert(part_views(self.parts@).take(self.parts@.len() as int) =~= part_views(
            self.parts@,
        ));
        proof {
            if self.absolute {
                assert(lead =~= seq!['/']);
            } else {
                assert(lead =~= Seq::<char>::empty());
            }
        }
        string_of(&out)
    }

    /// Whether two paths name the same components.
    pub fn same_as(&self, other: &FsPath) -> (r: bool)
        ensures
            r == (self@ == other@),
    {
        if self.absolute != other.absolute || self.parts.len() != other.parts.len() {
            proof {
                if self.parts@.len() != other.parts@.len() {
                    assert(part_views(self.parts@).len() != part_views(other.parts@).len());
                }
            }
            return false;
        }
        let mut i: usize = 0;
        while i < self.parts.len()
            invariant
                i <= self.parts@.len(),
                self.parts@.len() == other.parts@.len(),
                forall|k: int| 0 <= k < i ==> self.parts@[k]@ == other.parts@[k]@,
            decreases self.parts@.len() - i,
        {
            if self.parts[i] != other.parts[i] {
                assert(part_views(self.parts@)[i as int] != part_views(other.parts@)[i as int]);
                return false;
            }
            i = i + 1;
        }
        assert(part_views(self.parts@) =~= part_views(other.parts@));
        true
    }
}

/// The directories and files the library reads and writes.
#[derive(Debug, Clone)]
pub struct IrisPaths {
    /// Configuration directory of the tool (`~/.config/iris`).
    pub config: FsPath,
    /// Cache directory (`~/.cache/iris`).
    pub cache: FsPath,
    /// Core cache files (`~/.cache/iris/core`).
    pub core: FsPath,
    /// Generated files, one directory per generator (`~/.cache/iris/generators`).
    pub generators: FsPath,
    /// Generated standalone configs (`~/.cache/iris/bin`).
    pub bin: FsPath,
    /// Saved state (`~/.config/iris/state.json`).
    pub state_file: FsPath,
    /// Name of the active theme (`~/.cache/iris/core/current_theme`).
    pub current_theme: FsPath,
    /// Cached palettes (`~/.cache/iris/core/themes`).
    pub themes: FsPath,
}

/// The layout of `IrisPaths` under a home directory.
pub open spec fn spec_layout(home: PathView) -> (PathView, PathView, PathView, PathView, PathView, PathView, PathView, PathView) {
    (
        join(home, ".config/iris"@),
        join(home, ".cache/iris"@),
        join(home, ".cache/iris/core"@),
        join(home, ".cache/iris/generators"@),
        join(home, ".cache/iris/bin"@),
        join(home, ".config/iris/state.json"@),
        join(home, ".cache/iris/core/current_theme"@),
        join(home, ".cache/iris/core/themes"@),
    )
}

impl IrisPaths {
    pub open spec fn spec_fields(&self) -> (PathView, PathView, PathView, PathView, PathView, PathView, PathView, PathView) {
        (
            self.config@,
            self.cache@,
            self.core@,
            self.generators@,
            self.bin@,
            self.state_file@,
            self.current_theme@,
            self.themes@,
        )
    }

    /// The layout under `home`.
    pub fn under(home: &FsPath) -> (r: IrisPaths)
        ensures
            r.spec_fields() == spec_layout(home@),
    {
        IrisPaths {
            config: home.join(".config/iris"),
            cache: home.join(".cache/iris"),
            core: home.join(".cache/iris/core"),
            generators: home.join(".cache/iris/generators"),
            bin: home.join(".cache/iris/bin"),
            state_file: home.join(".config/iris/state.json"),
            current_theme: home.join(".cache/iris/core/current_theme"),
            themes: home.join(".cache/iris/core/themes"),
        }
    }
}

/// Joining one component and taking the parent gives the path back.
pub proof fn lemma_parent_of_join(p: PathView, name: Seq<char>)
    requires
        components(name) == seq![name],
        !(name.len() > 0 && name[0] == '/'),
    ensures
        parent(join(p, name)) == Some(p),
        file_name(join(p, name)) == Some(name),
{
    assert((p.1 + seq![name]).drop_last() =~= p.1);
}

} // verus!
