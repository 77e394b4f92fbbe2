//! Health diagnostics: the issues a generator's setup can have, and a model of
//! the part of the file system that a check looks at.

use vstd::prelude::*;
use vstd::string::*;
use crate::paths::{FsPath, PathView, parent_or_self};
use crate::text::{chars_of, contains, contains_exec, lowercase, to_lowercase};

verus! {

/// A problem found in a generator's setup.
#[derive(Debug, Clone, Copy, PartialEq, Eq, Structural)]
pub enum Issue {
    BinaryNotFound,
    ConfigMissing,
    MarkerMissing,
    ImportMissing,
    SymlinkInvalid,
    CacheMismatch,
    CacheMissing,
    EnvMismatch,
    BlockMissing,
}

impl Issue {
    pub open spec fn spec_message(self) -> Seq<char> {
        match self {
            Issue::BinaryNotFound => "Binary not found"@,
            Issue::ConfigMissing => "Configuration file missing"@,
            Issue::MarkerMissing => "Marker missing"@,
            Issue::ImportMissing => "Theme not imported"@,
            Issue::SymlinkInvalid => "Invalid symlink"@,
            Issue::CacheMismatch => "Cache mismatch"@,
            Issue::CacheMissing => "Cache file missing"@,
            Issue::EnvMismatch => "Environment variable mismatch"@,
            Issue::BlockMissing => "Theme block missing"@,
        }
    }

    /// The text shown for the issue.
    pub fn message(&self) -> (r: &'static str)
        ensures
            r@ == self.spec_message(),
    {
        match self {
            Issue::BinaryNotFound => "Binary not found",
            Issue::ConfigMissing => "Configuration file missing",
            Issue::MarkerMissing => "Marker missing",
            Issue::ImportMissing => "Theme not imported",
            Issue::SymlinkInvalid => "Invalid symlink",
            Issue::CacheMismatch => "Cache mismatch",
            Issue::CacheMissing => "Cache file missing",
            Issue::EnvMismatch => "Environment variable mismatch",
            Issue::BlockMissing => "Theme block missing",
        }
    }
}

/// Outcome of a health check.
#[derive(Debug, Clone, Copy, PartialEq, Eq, Structural)]
pub enum HealthStatus {
    Good,
    Warning(Issue),
    Error(Issue),
}

impl HealthStatus {
    pub fn warn(issue: Issue) -> (r: HealthStatus)
        ensures
            r == HealthStatus::Warning(issue),
    {
        HealthStatus::Warning(issue)
    }

    pub fn error(issue: Issue) -> (r: HealthStatus)
        ensures
            r == HealthStatus::Error(issue),
    {
        HealthStatus::Error(issue)
    }

    pub fn is_ok(&self) -> (r: bool)
        ensures
            r == (*self is Good),
    {
        matches!(self, HealthStatus::Good)
    }

    pub fn is_warning(&self) -> (r: bool)
        ensures
            r == (*self is Warning),
    {
        matches!(self, HealthStatus::Warning(_))
    }

    pub fn is_error(&self) -> (r: bool)
        ensures
            r == (*self is Error),
    {
        matches!(self, HealthStatus::Error(_))
    }

    pub open spec fn spec_message(self) -> Seq<char> {
        match self {
            HealthStatus::Good => "OK"@,
            HealthStatus::Warning(i) => i.spec_message(),
            HealthStatus::Error(i) => i.spec_message(),
        }
    }

    /// The text shown for the status.
    pub fn message(&self) -> (r: &'static str)
        ensures
            r@ == self.spec_message(),
    {
        match self {
            HealthStatus::Good => "OK",
            HealthStatus::Warning(i) => i.message(),
            HealthStatus::Error(i) => i.message(),
        }
    }

    /// Whether the status text contains `text`, ignoring case.
    pub fn contains(&self, text: &str) -> (r: bool)
        ensures
            r == contains(lowercase(self.spec_message()), lowercase(text@)),
    {
        let m = to_lowercase(self.message());
        let t = to_lowercase(text);
        contains_exec(&chars_of(m.as_str()), &chars_of(t.as_str()))
    }
}

/// What a path holds.
#[derive(Debug, Clone, PartialEq, Eq)]
pub enum FsNode {
    File(String),
    Dir,
    Symlink(FsPath),
}

/// What a path holds, as values.
pub enum NodeView {
    File(Seq<char>),
    Dir,
    Symlink(PathView),
}

impl View for FsNode {
    type V = NodeView;

    open spec fn view(&self) -> NodeView {
        match self {
            FsNode::File(c) => NodeView::File(c@),
            FsNode::Dir => NodeView::Dir,
            FsNode::Symlink(t) => NodeView::Symlink(t@),
        }
    }
}

/// One observed path.
#[derive(Debug, Clone, PartialEq, Eq)]
pub struct FsEntry {
    pub path: FsPath,
    pub node: FsNode,
}

/// The observed state of the paths that a check looks at. A path that has no
/// entry does not exist; where a path has several entries, the first counts.
#[derive(Debug, Clone)]
pub struct FsSnapshot {
    pub entries: Vec<FsEntry>,
}

/// Observed paths with what each holds.
pub type FsView = Seq<(PathView, NodeView)>;

impl View for FsSnapshot {
    type V = FsView;

    open spec fn view(&self) -> FsView {
        self.entries@.map_values(|e: FsEntry| (e.path@, e.node@))
    }
}

/// The node at `p`: the first entry for it.
pub open spec fn lookup(es: FsView, p: PathView) -> Option<NodeView>
    decreases es.len(),
{
    if es.len() == 0 {
        None
    } else if es[0].0 == p {
        Some(es[0].1)
    } else {
        lookup(es.drop_first(), p)
    }
}

/// Where a link at `link` that holds `target` points: a relative target is
/// taken from the link's directory.
pub open spec fn link_destination(link: PathView, target: PathView) -> PathView {
    if target.0 {
        target
    } else {
        let d = parent_or_self(link);
        (d.0, d.1 + target.1)
    }
}

/// `Path::exists`: the path holds a file or directory, or is a link to one.
pub open spec fn fs_exists(es: FsView, p: PathView) -> bool {
    match lookup(es, p) {
        None => false,
        Some(NodeView::Symlink(t)) => match lookup(es, link_destination(p, t)) {
            Some(NodeView::File(_)) => true,
            Some(NodeView::Dir) => true,
            _ => false,
        },
        Some(_) => true,
    }
}

/// `Path::is_dir`: the path holds a directory, or is a link to one.
pub open spec fn fs_is_dir(es: FsView, p: PathView) -> bool {
    match lookup(es, p) {
        Some(NodeView::Dir) => true,
        Some(NodeView::Symlink(t)) => lookup(es, link_destination(p, t)) matches Some(NodeView::Dir),
        _ => false,
    }
}

/// `Path::is_symlink`.
pub open spec fn fs_is_symlink(es: FsView, p: PathView) -> bool {
    lookup(es, p) matches Some(NodeView::Symlink(_))
}

/// `fs::read_to_string`: the content of the file at the path or behind a link.
pub open spec fn fs_read(es: FsView, p: PathView) -> Option<Seq<char>> {
    match lookup(es, p) {
        Some(NodeView::File(c)) => Some(c),
        Some(NodeView::Symlink(t)) => match lookup(es, link_destination(p, t)) {
            Some(NodeView::File(c)) => Some(c),
            _ => None,
        },
        _ => None,
    }
}

/// `fs::read_link`.
pub open spec fn fs_read_link(es: FsView, p: PathView) -> Option<PathView> {
    match lookup(es, p) {
        Some(NodeView::Symlink(t)) => Some(t),
        _ => None,
    }
}

/// `fs::canonicalize` as far as the snapshot can tell: a link is replaced by
/// where it points; a path that does not exist has no canonical form.
/// Links are followed one level, and the path's directories are taken as
/// written.
pub open spec fn fs_canonical(es: FsView, p: PathView) -> Option<PathView> {
    if !fs_exists(es, p) {
        None
    } else {
        match lookup(es, p) {
            Some(NodeView::Symlink(t)) => Some(link_destination(p, t)),
            _ => Some(p),
        }
    }
}

impl FsSnapshot {
    pub open spec fn node(&self, p: PathView) -> Option<NodeView> {
        lookup(self@, p)
    }

    pub open spec fn spec_exists(&self, p: PathView) -> bool {
        fs_exists(self@, p)
    }

    pub open spec fn spec_is_symlink(&self, p: PathView) -> bool {
        fs_is_symlink(self@, p)
    }

    pub open spec fn spec_read(&self, p: PathView) -> Option<Seq<char>> {
        fs_read(self@, p)
    }

    pub open spec fn spec_read_link(&self, p: PathView) -> Option<PathView> {
        fs_read_link(self@, p)
    }

    /// The node at `p`.
    pub fn node_at(&self, p: &FsPath) -> (r: Option<&FsNode>)
        ensures
            r matches Some(n) ==> self.node(p@) == Some(n@),
            r is None ==> self.node(p@) is None,
    {
        let mut i: usize = 0;
        assert(self@.skip(0) =~= self@);
        while i < self.entries.len()
            invariant
                i <= self.entries@.len(),
                lookup(self@, p@) == lookup(self@.skip(i as int), p@),
            decreases self.entries@.len() - i,
        {
            assert(self@.skip(i as int).drop_first() =~= self@.skip(i + 1));
            assert(self@.skip(i as int)[0] == (self.entries@[i as int].path@, self.entries@[i as int].node@));
            if self.entries[i].path.same_as(p) {
                return Some(&self.entries[i].node);
            }
            i = i + 1;
        }
        None
    }

    /// `Path::exists`.
    pub fn path_exists(&self, p: &FsPath) -> (r: bool)
        ensures
            r == self.spec_exists(p@),
    {
        match self.node_at(p) {
            None => false,
            Some(FsNode::Symlink(t)) => {
                let dest = destination_of(p, t);
                match self.node_at(&dest) {
                    Some(FsNode::File(_)) => true,
                    Some(FsNode::Dir) => true,
                    _ => false,
                }
            },
            Some(_) => true,
        }
    }

    /// `Path::is_dir`.
    pub fn is_dir(&self, p: &FsPath) -> (r: bool)
        ensures
            r == fs_is_dir(self@, p@),
    {
        match self.node_at(p) {
            Some(FsNode::Dir) => true,
            Some(FsNode::Symlink(t)) => {
                let dest = destination_of(p, t);
                match self.node_at(&dest) {
                    Some(FsNode::Dir) => true,
                    _ => false,
                }
            },
            _ => false,
        }
    }

    /// `Path::is_symlink`.
    pub fn is_symlink(&self, p: &FsPath) -> (r: bool)
        ensures
            r == self.spec_is_symlink(p@),
    {
        match self.node_at(p) {
            Some(FsNode::Symlink(_)) => true,
            _ => false,
        }
    }

    /// `fs::read_to_string`, with an empty string where nothing can be read.
    pub fn read_or_empty(&self, p: &FsPath) -> (r: String)
        ensures
            r@ == match self.spec_read(p@) {
                Some(c) => c,
                None => Seq::<char>::empty(),
            },
    {
        match self.read(p) {
            Some(c) => c,
            None => String::new(),
        }
    }

    /// `fs::read_to_string`.
    pub fn read(&self, p: &FsPath) -> (r: Option<String>)
        ensures
            r matches Some(c) ==> self.spec_read(p@) == Some(c@),
            r is None ==> self.spec_read(p@) is None,
    {
        match self.node_at(p) {
            Some(FsNode::File(c)) => Some(String::from_str(c.as_str())),
            Some(FsNode::Symlink(t)) => {
                let dest = destination_of(p, t);
                match self.node_at(&dest) {
                    Some(FsNode::File(c)) => Some(String::from_str(c.as_str())),
                    _ => None,
                }
            },
            _ => None,
        }
    }

    /// `fs::read_link`.
    pub fn read_link(&self, p: &FsPath) -> (r: Option<FsPath>)
        ensures
            r matches Some(t) ==> self.spec_read_link(p@) == Some(t@),
            r is None ==> self.spec_read_link(p@) is None,
    {
        match self.node_at(p) {
            Some(FsNode::Symlink(t)) => Some(t.clone_path()),
            _ => None,
        }
    }

    /// `fs::canonicalize`, as `fs_canonical` models it.
    pub fn canonical(&self, p: &FsPath) -> (r: Option<FsPath>)
        ensures
            r matches Some(c) ==> fs_canonical(self@, p@) == Some(c@),
            r is None ==> fs_canonical(self@, p@) is None,
    {
        if !self.path_exists(p) {
            return None;
        }
        match self.node_at(p) {
            Some(FsNode::Symlink(t)) => Some(destination_of(p, t)),
            _ => Some(p.clone_path()),
        }
    }

    /// A file is expected at `path`.
    pub open spec fn spec_check_file(&self, path: PathView, issue: Issue) -> HealthStatus {
        if self.spec_exists(path) {
            HealthStatus::Good
        } else {
            HealthStatus::Error(issue)
        }
    }

    /// A link to an existing file or directory is expected at `path`.
    pub open spec fn spec_check_symlink(&self, path: PathView, issue: Issue) -> HealthStatus {
        if self.spec_is_symlink(path) && self.spec_exists(path) {
            HealthStatus::Good
        } else {
            HealthStatus::Error(issue)
        }
    }

    /// `Ok` where something exists at `path`, else an error with `issue`.
    pub fn check_file(&self, path: &FsPath, issue: Issue) -> (r: HealthStatus)
        ensures
            r == self.spec_check_file(path@, issue),
    {
        if self.path_exists(path) {
            HealthStatus::Good
        } else {
            HealthStatus::Error(issue)
        }
    }

    /// `Ok` where `path` is a link to something that exists, else an error
    /// with `issue`.
    pub fn check_symlink(&self, path: &FsPath, issue: Issue) -> (r: HealthStatus)
        ensures
            r == self.spec_check_symlink(path@, issue),
    {
        if self.is_symlink(path) && self.path_exists(path) {
            HealthStatus::Good
        } else {
            HealthStatus::Error(issue)
        }
    }
}

/// Where a link at `link` holding `target` points.
pub fn destination_of(link: &FsPath, target: &FsPath) -> (r: FsPath)
    ensures
        r@ == link_destination(link@, target@),
{
    if target.absolute {
        return target.clone_path();
    }
    let d = link.parent_or_self();
    let mut parts = d.parts;
    let ghost start = crate::paths::part_views(parts@);
    let mut i: usize = 0;
    while i < target.parts.len()
        invariant
            i <= target.parts@.len(),
            crate::paths::part_views(parts@) == start + crate::paths::part_views(
                target.parts@,
            ).take(i as int),
        decreases target.parts@.len() - i,
    {
        let ghost before = crate::paths::part_views(parts@);
        parts.push(target.parts[i].clone());
        assert(crate::paths::part_views(parts@) =~= before.push(target.parts@[i as int]@));
        assert(crate::paths::part_views(target.parts@).take(i + 1) =~= crate::paths::part_views(
            target.parts@,
        ).take(i as int).push(target.parts@[i as int]@));
        i = i + 1;
    }
    assert(crate::paths::part_views(target.parts@).take(target.parts@.len() as int)
        =~= crate::paths::part_views(target.parts@));
    FsPath { absolute: d.absolute, parts }
}

} // verus!
