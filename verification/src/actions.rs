//! The file-system and process operations a theme change is made of. The
//! library decides which operations run, in which order and on what; the
//! caller performs them.

use vstd::prelude::*;
use crate::health::{FsEntry, FsNode, FsSnapshot, FsView, NodeView, fs_exists, link_destination, lookup};
use crate::paths::{FsPath, PathView};

verus! {

/// Where a line goes in a configuration file.
#[derive(Debug, Clone, PartialEq, Eq)]
pub enum InjectionPosition {
    Start,
    Before(String),
    After(String),
}

pub enum PositionView {
    Start,
    Before(Seq<char>),
    After(Seq<char>),
}

impl View for InjectionPosition {
    type V = PositionView;

    open spec fn view(&self) -> PositionView {
        match self {
            InjectionPosition::Start => PositionView::Start,
            InjectionPosition::Before(m) => PositionView::Before(m@),
            InjectionPosition::After(m) => PositionView::After(m@),
        }
    }
}

/// One operation.
#[derive(Debug, Clone, PartialEq, Eq)]
pub enum Action {
    /// `fs::create_dir_all`.
    CreateDirAll(FsPath),
    /// `fs::create_dir_all`, a failure ignored.
    TryCreateDirAll(FsPath),
    /// `fs::write`.
    WriteFile { path: FsPath, content: String },
    /// `fs::remove_file`.
    RemoveFile(FsPath),
    /// `fs::remove_dir_all`.
    RemoveDirAll(FsPath),
    /// Drops the lines holding `marker` from the file.
    RemoveMarker { path: FsPath, marker: String },
    /// Drops the `key = ...` lines from the file.
    RemoveKey { path: FsPath, key: String },
    /// Puts `line` into the file at `position`.
    InjectLine { path: FsPath, line: String, position: InjectionPosition },
    /// Points `link` at `target`, replacing what was there.
    Symlink { target: FsPath, link: FsPath },
    /// Replaces `to` with a copy of `from`.
    CopyFile { from: FsPath, to: FsPath },
    /// Puts `content` into the file as the block named `marker`.
    InjectBlock { path: FsPath, marker: String, content: String },
    /// Puts the content of `from` into the file at `path` as the block named `marker`.
    InjectFileBlock { from: FsPath, path: FsPath, marker: String },
    /// Runs `program` with `args`; `silent` drops its output. A failure to
    /// start or a failing status fails the change.
    RunCommand { program: String, args: Vec<String>, silent: bool },
}

pub enum ActionView {
    CreateDirAll(PathView),
    TryCreateDirAll(PathView),
    WriteFile(PathView, Seq<char>),
    RemoveFile(PathView),
    RemoveDirAll(PathView),
    RemoveMarker(PathView, Seq<char>),
    RemoveKey(PathView, Seq<char>),
    InjectLine(PathView, Seq<char>, PositionView),
    Symlink(PathView, PathView),
    CopyFile(PathView, PathView),
    InjectBlock(PathView, Seq<char>, Seq<char>),
    InjectFileBlock(PathView, PathView, Seq<char>),
    RunCommand(Seq<char>, Seq<Seq<char>>, bool),
}

impl View for Action {
    type V = ActionView;

    open spec fn view(&self) -> ActionView {
        match self {
            Action::CreateDirAll(p) => ActionView::CreateDirAll(p@),
            Action::TryCreateDirAll(p) => ActionView::TryCreateDirAll(p@),
            Action::WriteFile { path, content } => ActionView::WriteFile(path@, content@),
            Action::RemoveFile(p) => ActionView::RemoveFile(p@),
            Action::RemoveDirAll(p) => ActionView::RemoveDirAll(p@),
            Action::RemoveMarker { path, marker } => ActionView::RemoveMarker(path@, marker@),
            Action::RemoveKey { path, key } => ActionView::RemoveKey(path@, key@),
            Action::InjectLine { path, line, position } => ActionView::InjectLine(path@, line@, position@),
            Action::Symlink { target, link } => ActionView::Symlink(target@, link@),
            Action::CopyFile { from, to } => ActionView::CopyFile(from@, to@),
            Action::InjectBlock { path, marker, content } => ActionView::InjectBlock(path@, marker@, content@),
            Action::InjectFileBlock { from, path, marker } => ActionView::InjectFileBlock(from@, path@, marker@),
            Action::RunCommand { program, args, silent } => ActionView::RunCommand(
                program@,
                crate::state::string_views(args@),
                *silent,
            ),
        }
    }
}

/// The views of a list of actions.
pub open spec fn action_views(v: Seq<Action>) -> Seq<ActionView> {
    v.map_values(|a: Action| a@)
}

/// `p` is `d` or lies under it.
pub open spec fn is_under(p: PathView, d: PathView) -> bool {
    p.0 == d.0 && d.1.len() <= p.1.len() && p.1.take(d.1.len() as int) == d.1
}

/// The entries not for `p`.
pub open spec fn without_path(es: FsView, p: PathView) -> FsView
    decreases es.len(),
{
    if es.len() == 0 {
        es
    } else if es.last().0 == p {
        without_path(es.drop_last(), p)
    } else {
        without_path(es.drop_last(), p).push(es.last())
    }
}

/// The entries not under `d`.
pub open spec fn without_tree(es: FsView, d: PathView) -> FsView
    decreases es.len(),
{
    if es.len() == 0 {
        es
    } else if is_under(es.last().0, d) {
        without_tree(es.drop_last(), d)
    } else {
        without_tree(es.drop_last(), d).push(es.last())
    }
}

/// Where a write to `p` lands: behind a link, at the link's destination.
pub open spec fn write_target(es: FsView, p: PathView) -> PathView {
    match lookup(es, p) {
        Some(NodeView::Symlink(t)) => link_destination(p, t),
        _ => p,
    }
}

/// The observed paths after an action that removes or writes a file.
pub open spec fn fs_after(es: FsView, a: ActionView) -> FsView {
    match a {
        ActionView::RemoveFile(p) => without_path(es, p),
        ActionView::RemoveDirAll(d) => without_tree(es, d),
        ActionView::WriteFile(p, c) => seq![(write_target(es, p), NodeView::File(c))] + es,
        _ => es,
    }
}

/// The observed paths after a list of actions, in order.
pub open spec fn fs_after_all(es: FsView, acts: Seq<ActionView>) -> FsView
    decreases acts.len(),
{
    if acts.len() == 0 {
        es
    } else {
        fs_after(fs_after_all(es, acts.drop_last()), acts.last())
    }
}

pub proof fn lemma_fs_after_all_push(es: FsView, acts: Seq<ActionView>, a: ActionView)
    ensures
        fs_after_all(es, acts.push(a)) == fs_after(fs_after_all(es, acts), a),
{
    assert(acts.push(a).drop_last() =~= acts);
}

pub proof fn lemma_fs_after_all_append(es: FsView, acts: Seq<ActionView>, more: Seq<ActionView>)
    ensures
        fs_after_all(es, acts + more) == fs_after_all(fs_after_all(es, acts), more),
    decreases more.len(),
{
    if more.len() == 0 {
        assert(acts + more =~= acts);
    } else {
        lemma_fs_after_all_append(es, acts, more.drop_last());
        assert((acts + more).drop_last() =~= acts + more.drop_last());
    }
}

/// `p` no longer exists once removed.
pub proof fn lemma_removed_is_gone(es: FsView, p: PathView)
    ensures
        lookup(without_path(es, p), p) is None,
    decreases es.len(),
{
    if es.len() > 0 {
        lemma_removed_is_gone(es.drop_last(), p);
        if es.last().0 != p {
            lemma_lookup_push_other(without_path(es.drop_last(), p), es.last(), p);
        }
    }
}

/// Nothing under `d` exists once the tree is removed.
pub proof fn lemma_tree_is_gone(es: FsView, d: PathView, p: PathView)
    requires
        is_under(p, d),
    ensures
        lookup(without_tree(es, d), p) is None,
    decreases es.len(),
{
    if es.len() > 0 {
        lemma_tree_is_gone(es.drop_last(), d, p);
        if !is_under(es.last().0, d) {
            lemma_lookup_push_other(without_tree(es.drop_last(), d), es.last(), p);
        }
    }
}

/// Appending an entry for another path does not change a lookup.
pub proof fn lemma_lookup_push_other(es: FsView, e: (PathView, NodeView), p: PathView)
    requires
        e.0 != p || lookup(es, p) is Some,
    ensures
        lookup(es.push(e), p) == lookup(es, p),
    decreases es.len(),
{
    if es.len() > 0 {
        assert(es.push(e).drop_first() =~= es.drop_first().push(e));
        assert(es.push(e)[0] == es[0]);
        if es[0].0 != p {
            lemma_lookup_push_other(es.drop_first(), e, p);
            assert(lookup(es.push(e), p) == lookup(es.push(e).drop_first(), p));
        }
    } else {
        assert(es.push(e).drop_first() =~= Seq::<(PathView, NodeView)>::empty());
        assert(es.push(e)[0] == e);
        assert(lookup(es.push(e).drop_first(), p) is None);
    }
}

/// A lookup in a list with one more entry at its end.
pub proof fn lemma_lookup_push(es: FsView, e: (PathView, NodeView), p: PathView)
    ensures
        lookup(es.push(e), p) == (if lookup(es, p) is Some {
            lookup(es, p)
        } else if e.0 == p {
            Some(e.1)
        } else {
            None
        }),
    decreases es.len(),
{
    assert(es.push(e)[0] == (if es.len() > 0 {
        es[0]
    } else {
        e
    }));
    if es.len() > 0 {
        assert(es.push(e).drop_first() =~= es.drop_first().push(e));
        if es[0].0 != p {
            lemma_lookup_push(es.drop_first(), e, p);
            assert(lookup(es.push(e), p) == lookup(es.push(e).drop_first(), p));
            assert(lookup(es, p) == lookup(es.drop_first(), p));
        }
    } else {
        assert(es.push(e).drop_first() =~= Seq::<(PathView, NodeView)>::empty());
        assert(lookup(es.push(e).drop_first(), p) is None);
    }
}

/// Removing a file leaves every other path as it was.
pub proof fn lemma_without_path_lookup(es: FsView, q: PathView, p: PathView)
    ensures
        lookup(without_path(es, q), p) == (if p == q {
            None
        } else {
            lookup(es, p)
        }),
    decreases es.len(),
{
    if es.len() > 0 {
        let init = es.drop_last();
        lemma_without_path_lookup(init, q, p);
        assert(init.push(es.last()) =~= es);
        lemma_lookup_push(init, es.last(), p);
        if es.last().0 != q {
            lemma_lookup_push(without_path(init, q), es.last(), p);
        }
    }
}

/// Removing a tree leaves every path outside it as it was.
pub proof fn lemma_without_tree_lookup(es: FsView, d: PathView, p: PathView)
    ensures
        lookup(without_tree(es, d), p) == (if is_under(p, d) {
            None
        } else {
            lookup(es, p)
        }),
    decreases es.len(),
{
    if es.len() > 0 {
        let init = es.drop_last();
        lemma_without_tree_lookup(init, d, p);
        assert(init.push(es.last()) =~= es);
        lemma_lookup_push(init, es.last(), p);
        if !is_under(es.last().0, d) {
            lemma_lookup_push(without_tree(init, d), es.last(), p);
        }
    }
}

/// An action that only removes things.
pub open spec fn only_removes(a: ActionView) -> bool {
    !(a is WriteFile)
}

/// A path that does not exist still does not exist after actions that only
/// remove things.
pub proof fn lemma_removals_keep_absent(es: FsView, acts: Seq<ActionView>, p: PathView)
    requires
        !fs_exists(es, p),
        forall|i: int| 0 <= i < acts.len() ==> only_removes(#[trigger] acts[i]),
    ensures
        !fs_exists(fs_after_all(es, acts), p),
    decreases acts.len(),
{
    if acts.len() > 0 {
        let init = acts.drop_last();
        lemma_removals_keep_absent(es, init, p);
        let f = fs_after_all(es, init);
        let a = acts.last();
        assert(only_removes(acts[acts.len() - 1]));
        match a {
            ActionView::RemoveFile(q) => {
                lemma_without_path_lookup(f, q, p);
                match lookup(f, p) {
                    Some(NodeView::Symlink(t)) => {
                        lemma_without_path_lookup(f, q, link_destination(p, t));
                    },
                    _ => {},
                }
            },
            ActionView::RemoveDirAll(d) => {
                lemma_without_tree_lookup(f, d, p);
                match lookup(f, p) {
                    Some(NodeView::Symlink(t)) => {
                        lemma_without_tree_lookup(f, d, link_destination(p, t));
                    },
                    _ => {},
                }
            },
            _ => {},
        }
    }
}

fn clone_node(n: &FsNode) -> (r: FsNode)
    ensures
        r@ == n@,
{
    match n {
        FsNode::File(c) => FsNode::File(String::from_str(c.as_str())),
        FsNode::Dir => FsNode::Dir,
        FsNode::Symlink(t) => FsNode::Symlink(t.clone_path()),
    }
}

fn path_is_under(p: &FsPath, d: &FsPath) -> (r: bool)
    ensures
        r == is_under(p@, d@),
{
    if p.absolute != d.absolute || d.parts.len() > p.parts.len() {
        proof {
            assert(crate::paths::part_views(p.parts@).len() == p.parts@.len());
            assert(crate::paths::part_views(d.parts@).len() == d.parts@.len());
        }
        return false;
    }
    let mut i: usize = 0;
    while i < d.parts.len()
        invariant
            i <= d.parts@.len(),
            d.parts@.len() <= p.parts@.len(),
            forall|k: int| 0 <= k < i ==> p.parts@[k]@ == d.parts@[k]@,
        decreases d.parts@.len() - i,
    {
        if !crate::text::str_eq(p.parts[i].as_str(), d.parts[i].as_str()) {
            assert(p@.1.take(d@.1.len() as int)[i as int] != d@.1[i as int]);
            return false;
        }
        i = i + 1;
    }
    assert(p@.1.take(d@.1.len() as int) =~= d@.1);
    true
}

impl FsSnapshot {
    /// A copy holding the same observations.
    pub fn duplicate(&self) -> (r: FsSnapshot)
        ensures
            r@ == self@,
    {
        let mut entries: Vec<FsEntry> = Vec::new();
        let mut i: usize = 0;
        while i < self.entries.len()
            invariant
                i <= self.entries@.len(),
                entries@.map_values(|e: FsEntry| (e.path@, e.node@)) == self@.take(i as int),
            decreases self.entries@.len() - i,
        {
            let e = &self.entries[i];
            let ghost before = entries@.map_values(|e: FsEntry| (e.path@, e.node@));
            entries.push(FsEntry { path: e.path.clone_path(), node: clone_node(&e.node) });
            assert(entries@.map_values(|e: FsEntry| (e.path@, e.node@)) =~= before.push(self@[i as int]));
            assert(self@.take(i + 1) =~= self@.take(i as int).push(self@[i as int]));
            i = i + 1;
        }
        assert(self@.take(i as int) =~= self@);
        FsSnapshot { entries }
    }

    /// What the snapshot becomes once `a` is performed.
    pub fn perform(&mut self, a: &Action)
        ensures
            final(self)@ == fs_after(old(self)@, a@),
    {
        match a {
            Action::RemoveFile(p) => self.keep_where(p, false),
            Action::RemoveDirAll(d) => self.keep_where(d, true),
            Action::WriteFile { path, content } => {
                let target = match self.node_at(path) {
                    Some(FsNode::Symlink(t)) => crate::health::destination_of(path, t),
                    _ => path.clone_path(),
                };
                let ghost before = self@;
                let mut entries: Vec<FsEntry> = Vec::new();
                entries.push(FsEntry { path: target, node: FsNode::File(String::from_str(content.as_str())) });
                let mut i: usize = 0;
                while i < self.entries.len()
                    invariant
                        i <= self.entries@.len(),
                        before == self@,
                        entries@.map_values(|e: FsEntry| (e.path@, e.node@)) == seq![
                            (write_target(before, path@), NodeView::File(content@)),
                        ] + before.take(i as int),
                    decreases self.entries@.len() - i,
                {
                    let e = &self.entries[i];
                    let ghost prev = entries@.map_values(|e: FsEntry| (e.path@, e.node@));
                    entries.push(FsEntry { path: e.path.clone_path(), node: clone_node(&e.node) });
                    assert(entries@.map_values(|e: FsEntry| (e.path@, e.node@)) =~= prev.push(before[i as int]));
                    assert(before.take(i + 1) =~= before.take(i as int).push(before[i as int]));
                    i = i + 1;
                }
                assert(before.take(i as int) =~= before);
                self.entries = entries;
            },
            _ => {},
        }
    }

    /// Drops the entries for `p` (or, for a tree, under `p`).
    fn keep_where(&mut self, p: &FsPath, tree: bool)
        ensures
            final(self)@ == (if tree {
                without_tree(old(self)@, p@)
            } else {
                without_path(old(self)@, p@)
            }),
    {
        let ghost before = self@;
        let mut entries: Vec<FsEntry> = Vec::new();
        let mut i: usize = 0;
        assert(before.take(0) =~= Seq::<(PathView, NodeView)>::empty());
        while i < self.entries.len()
            invariant
                i <= self.entries@.len(),
                before == self@,
                entries@.map_values(|e: FsEntry| (e.path@, e.node@)) == (if tree {
                    without_tree(before.take(i as int), p@)
                } else {
                    without_path(before.take(i as int), p@)
                }),
            decreases self.entries@.len() - i,
        {
            let e = &self.entries[i];
            assert(before.take(i + 1).drop_last() =~= before.take(i as int));
            assert(before.take(i + 1).last() == before[i as int]);
            let drop = if tree {
                path_is_under(&e.path, p)
            } else {
                e.path.same_as(p)
            };
            if !drop {
                let ghost prev = entries@.map_values(|e: FsEntry| (e.path@, e.node@));
                entries.push(FsEntry { path: e.path.clone_path(), node: clone_node(&e.node) });
                assert(entries@.map_values(|e: FsEntry| (e.path@, e.node@)) =~= prev.push(before[i as int]));
            }
            i = i + 1;
        }
        assert(before.take(i as int) =~= before);
        self.entries = entries;
    }
}

} // verus!
