//! Showing how a configuration file would change: a line diff in groups of
//! changes with three lines of context, numbered and colored.

use vstd::prelude::*;
use crate::paint::{Paint, Tint, paint, painted};
use crate::text::{chars_of, push_all};
use similar::{ChangeTag, TextDiff};

verus! {

/// What happens to a line.
#[derive(Debug, Clone, Copy, PartialEq, Eq, Structural)]
pub enum ChangeKind {
    Delete,
    Insert,
    Equal,
}

/// One line of a diff: its text (with its line ending) and where it stands
/// in the old and the new text.
#[derive(Debug, Clone)]
pub struct LineChange {
    pub kind: ChangeKind,
    pub old_index: Option<usize>,
    pub new_index: Option<usize>,
    pub value: String,
}

pub struct ChangeView {
    pub kind: ChangeKind,
    pub old_index: Option<usize>,
    pub new_index: Option<usize>,
    pub value: Seq<char>,
}

impl View for LineChange {
    type V = ChangeView;

    open spec fn view(&self) -> ChangeView {
        ChangeView { kind: self.kind, old_index: self.old_index, new_index: self.new_index, value: self.value@ }
    }
}

pub open spec fn group_views(g: Seq<Vec<LineChange>>) -> Seq<Seq<ChangeView>> {
    g.map_values(|v: Vec<LineChange>| v@.map_values(|c: LineChange| c@))
}

/// A name for what `similar` reports of a line diff of `old` against `new`
/// (Myers' algorithm, no deadline): the changes of each group of
/// `grouped_ops(3)`, in order.
pub uninterp spec fn line_diff_groups(old: Seq<char>, new: Seq<char>) -> Seq<Seq<ChangeView>>;

/// Calls `similar::TextDiff::from_lines`, `grouped_ops(3)` and `iter_changes`,
/// and takes each change's tag, indices and text. The result is given the
/// name `line_diff_groups`.
#[verifier::external_body]
fn grouped_line_changes(old: &str, new: &str) -> (r: Vec<Vec<LineChange>>)
    ensures
        group_views(r@) == line_diff_groups(old@, new@),
{
    let diff = TextDiff::from_lines(old, new);
    let groups = diff.grouped_ops(3);
    groups.iter().map(|group| group.iter().flat_map(|op| diff.iter_changes(op)).map(|c| LineChange {
        kind: match c.tag() {
            ChangeTag::Delete => ChangeKind::Delete,
            ChangeTag::Insert => ChangeKind::Insert,
            ChangeTag::Equal => ChangeKind::Equal,
        },
        old_index: c.old_index(),
        new_index: c.new_index(),
        value: c.value().to_string(),
    }).collect()).collect()
}

/// The decimal digits of `n`.
pub open spec fn decimal(n: nat) -> Seq<char>
    decreases n,
{
    if n < 10 {
        seq![digit_char(n)]
    } else {
        decimal(n / 10).push(digit_char(n % 10))
    }
}

pub open spec fn digit_char(d: nat) -> char {
    if d == 0 { '0' } else if d == 1 { '1' } else if d == 2 { '2' } else if d == 3 { '3' }
    else if d == 4 { '4' } else if d == 5 { '5' } else if d == 6 { '6' } else if d == 7 { '7' }
    else if d == 8 { '8' } else { '9' }
}

fn digit_of(d: u128) -> (r: char)
    requires
        d < 10,
    ensures
        r == digit_char(d as nat),
{
    if d == 0 { '0' } else if d == 1 { '1' } else if d == 2 { '2' } else if d == 3 { '3' }
    else if d == 4 { '4' } else if d == 5 { '5' } else if d == 6 { '6' } else if d == 7 { '7' }
    else if d == 8 { '8' } else { '9' }
}

/// The decimal digits of `n`.
pub fn decimal_of(n: u128) -> (r: Vec<char>)
    ensures
        r@ == decimal(n as nat),
    decreases n,
{
    if n < 10 {
        let mut v = Vec::new();
        v.push(digit_of(n));
        v
    } else {
        let mut v = decimal_of(n / 10);
        v.push(digit_of(n % 10));
        v
    }
}

/// `s` right-aligned in a field of `w` columns, as `{:w}` pads a number.
pub open spec fn pad_left(s: Seq<char>, w: nat) -> Seq<char> {
    if s.len() >= w {
        s
    } else {
        Seq::new((w - s.len()) as nat, |i: int| ' ') + s
    }
}

fn pad_left_exec(s: &Vec<char>, w: usize) -> (r: Vec<char>)
    ensures
        r@ == pad_left(s@, w as nat),
{
    if s.len() >= w {
        return s.clone();
    }
    let mut out: Vec<char> = Vec::new();
    let n = w - s.len();
    let mut i: usize = 0;
    while i < n
        invariant
            i <= n,
            out@ == Seq::new(i as nat, |k: int| ' '),
        decreases n - i,
    {
        out.push(' ');
        assert(out@ =~= Seq::new((i + 1) as nat, |k: int| ' '));
        i = i + 1;
    }
    push_all(&mut out, s);
    out
}

/// A line number as the diff shows it: one-based, right-aligned in four
/// columns; four spaces where the line is not on that side.
pub open spec fn number_text(n: Option<usize>) -> Seq<char> {
    match n {
        Some(k) => pad_left(decimal((k + 1) as nat), 4),
        None => "    "@,
    }
}

fn number_of(n: Option<usize>) -> (r: Vec<char>)
    ensures
        r@ == number_text(n),
{
    match n {
        Some(k) => {
            let d = decimal_of(k as u128 + 1);
            pad_left_exec(&d, 4)
        },
        None => chars_of("    "),
    }
}

/// The mark of a line.
pub open spec fn sign_text(k: ChangeKind) -> Seq<char> {
    match k {
        ChangeKind::Delete => "-"@,
        ChangeKind::Insert => "+"@,
        ChangeKind::Equal => " "@,
    }
}

/// The paint of a line's mark and text: red for a removed line, green for an
/// added one; a kept line's mark is plain and its text bright black.
pub open spec fn sign_paint(k: ChangeKind) -> Paint {
    match k {
        ChangeKind::Delete => Paint { fg: Tint::Red, bold: false, dimmed: false },
        ChangeKind::Insert => Paint { fg: Tint::Green, bold: false, dimmed: false },
        ChangeKind::Equal => Paint { fg: Tint::Plain, bold: false, dimmed: false },
    }
}

pub open spec fn text_paint(k: ChangeKind) -> Paint {
    match k {
        ChangeKind::Delete => Paint { fg: Tint::Red, bold: false, dimmed: false },
        ChangeKind::Insert => Paint { fg: Tint::Green, bold: false, dimmed: false },
        ChangeKind::Equal => Paint { fg: Tint::BrightBlack, bold: false, dimmed: false },
    }
}

pub open spec fn dim() -> Paint {
    Paint { fg: Tint::Plain, bold: false, dimmed: true }
}

/// The views of a list of changes.
pub open spec fn change_views(v: Seq<LineChange>) -> Seq<ChangeView> {
    v.map_values(|c: LineChange| c@)
}

/// Changes as pieces of the rendered diff.
pub open spec fn line_items(cs: Seq<ChangeView>) -> Seq<DiffItem> {
    cs.map_values(|c: ChangeView| DiffItem::Line(c))
}

/// A piece of the rendered diff: the break between two groups, or a line.
pub enum DiffItem {
    Break,
    Line(ChangeView),
}

/// The pieces of the rendered diff, group after group.
pub open spec fn diff_items(groups: Seq<Seq<ChangeView>>) -> Seq<DiffItem>
    decreases groups.len(),
{
    if groups.len() == 0 {
        Seq::<DiffItem>::empty()
    } else {
        let before = diff_items(groups.drop_last());
        let brk = if groups.len() > 1 {
            seq![DiffItem::Break]
        } else {
            Seq::<DiffItem>::empty()
        };
        before + brk + line_items(groups.last())
    }
}

/// The painted parts of a line: its two numbers, its mark and its text.
pub type LineParts = (Seq<char>, Seq<char>, Seq<char>, Seq<char>);

/// `p` holds the parts of the line `c`, each painted as the diff paints it.
pub open spec fn parts_fit(p: LineParts, c: ChangeView) -> bool {
    &&& painted(p.0, number_text(c.old_index), dim())
    &&& painted(p.1, number_text(c.new_index), dim())
    &&& painted(p.2, sign_text(c.kind), sign_paint(c.kind))
    &&& painted(p.3, c.value, text_paint(c.kind))
}

/// The text of the pieces: a line feed for a break, and for a line
/// `<old> <new> │ <mark><text>`.
pub open spec fn assemble(items: Seq<DiffItem>, parts: Seq<LineParts>) -> Seq<char>
    decreases items.len(),
{
    if items.len() == 0 {
        Seq::<char>::empty()
    } else {
        let k = items.len() - 1;
        let piece = match items[k] {
            DiffItem::Break => "\n"@,
            DiffItem::Line(_) => parts[k].0 + " "@ + parts[k].1 + " │ "@ + parts[k].2 + parts[k].3,
        };
        assemble(items.drop_last(), parts.take(k)) + piece
    }
}

/// `r` is the rendered diff of `groups`.
pub open spec fn renders(r: Seq<char>, groups: Seq<Seq<ChangeView>>) -> bool {
    exists|parts: Seq<LineParts>|
        #![trigger assemble(diff_items(groups), parts)]
        {
            &&& parts.len() == diff_items(groups).len()
            &&& forall|k: int|
                0 <= k < parts.len() ==> (#[trigger] diff_items(groups)[k] matches DiffItem::Line(c) ==> parts_fit(
                    parts[k],
                    c,
                ))
            &&& r == assemble(diff_items(groups), parts)
        }
}

proof fn lemma_assemble_push(items: Seq<DiffItem>, parts: Seq<LineParts>, it: DiffItem, p: LineParts)
    requires
        parts.len() == items.len(),
    ensures
        assemble(items.push(it), parts.push(p)) == assemble(items, parts) + match it {
            DiffItem::Break => "\n"@,
            DiffItem::Line(_) => p.0 + " "@ + p.1 + " │ "@ + p.2 + p.3,
        },
{
    assert(items.push(it).drop_last() =~= items);
    assert(parts.push(p).take(items.len() as int) =~= parts);
}

/// The lines of `changes`, colored and numbered, appended to `out`.
fn render_group(
    out: &mut Vec<char>,
    changes: &Vec<LineChange>,
    Ghost(items): Ghost<Seq<DiffItem>>,
    Ghost(parts): Ghost<Seq<LineParts>>,
) -> (r: Ghost<Seq<LineParts>>)
    requires
        parts.len() == items.len(),
        old(out)@ == assemble(items, parts),
        forall|k: int| 0 <= k < parts.len() ==> (#[trigger] items[k] matches DiffItem::Line(c) ==> parts_fit(parts[k], c)),
    ensures
        ({
            let all = items + line_items(change_views(changes@));
            &&& r@.len() == all.len()
            &&& r@.take(parts.len() as int) == parts
            &&& final(out)@ == assemble(all, r@)
            &&& forall|k: int| 0 <= k < r@.len() ==> (#[trigger] all[k] matches DiffItem::Line(c) ==> parts_fit(r@[k], c))
        }),
{
    let ghost mut ps = parts;
    let mut i: usize = 0;
    while i < changes.len()
        invariant
            i <= changes@.len(),
            parts.len() == items.len(),
            ps.len() == items.len() + i,
            ps.take(parts.len() as int) == parts,
            out@ == assemble(items + line_items(change_views(changes@.take(i as int))), ps),
            forall|k: int|
                0 <= k < ps.len() ==> (#[trigger] (items + line_items(change_views(changes@.take(i as int))))[k] matches DiffItem::Line(c)
                    ==> parts_fit(ps[k], c)),
        decreases changes@.len() - i,
    {
        let c = &changes[i];
        let old_no = number_of(c.old_index);
        let new_no = number_of(c.new_index);
        let a = paint(crate::text::string_of(&old_no).as_str(), Paint { fg: Tint::Plain, bold: false, dimmed: true });
        let b = paint(crate::text::string_of(&new_no).as_str(), Paint { fg: Tint::Plain, bold: false, dimmed: true });
        let (sign, sp, tp) = match c.kind {
            ChangeKind::Delete => ("-", Paint { fg: Tint::Red, bold: false, dimmed: false }, Paint {
                fg: Tint::Red,
                bold: false,
                dimmed: false,
            }),
            ChangeKind::Insert => ("+", Paint { fg: Tint::Green, bold: false, dimmed: false }, Paint {
                fg: Tint::Green,
                bold: false,
                dimmed: false,
            }),
            ChangeKind::Equal => (" ", Paint { fg: Tint::Plain, bold: false, dimmed: false }, Paint {
                fg: Tint::BrightBlack,
                bold: false,
                dimmed: false,
            }),
        };
        proof {
            reveal_strlit("-");
            reveal_strlit("+");
            reveal_strlit(" ");
        }
        let s = paint(sign, sp);
        let t = paint(c.value.as_str(), tp);
        let ghost before = out@;
        push_all(out, &chars_of(a.as_str()));
        push_all(out, &chars_of(" "));
        push_all(out, &chars_of(b.as_str()));
        push_all(out, &chars_of(" │ "));
        push_all(out, &chars_of(s.as_str()));
        push_all(out, &chars_of(t.as_str()));
        let ghost p: LineParts = (a@, b@, s@, t@);
        let ghost prev_items = items + line_items(change_views(changes@.take(i as int)));
        proof {
            assert(out@ =~= before + (p.0 + " "@ + p.1 + " │ "@ + p.2 + p.3));
            lemma_assemble_push(prev_items, ps, DiffItem::Line(c@), p);
            assert(items + line_items(change_views(changes@.take(i + 1))) =~= prev_items.push(DiffItem::Line(c@)));
            let old_ps = ps;
            ps = ps.push(p);
            assert(ps.take(parts.len() as int) =~= old_ps.take(parts.len() as int));
            assert forall|k: int| 0 <= k < ps.len() implies (#[trigger] prev_items.push(DiffItem::Line(c@))[k] matches DiffItem::Line(cc) ==> parts_fit(ps[k], cc)) by {
                if k < old_ps.len() {
                    assert(prev_items.push(DiffItem::Line(c@))[k] == prev_items[k]);
                    assert(ps[k] == old_ps[k]);
                }
            }
        }
        i = i + 1;
    }
    assert(changes@.take(i as int) =~= changes@);
    Ghost(ps)
}

/// The diff of `current` against `target` as it is shown: the groups of
/// changes with three lines of context, a line feed between two groups, each
/// line `<old number> <new number> │ <mark><text>` with the numbers dimmed,
/// removed lines red, added lines green and kept lines bright black.
pub fn render_diff(current: &str, target: &str) -> (r: String)
    ensures
        renders(r@, line_diff_groups(current@, target@)),
{
    let groups = grouped_line_changes(current, target);
    render_groups(&groups)
}

/// The rendered diff of the given groups of line changes: a line feed
/// between two groups, each line `<old number> <new number> │ <mark><text>`
/// with the numbers dimmed, removed lines red, added lines green and kept
/// lines bright black.
pub fn render_groups(groups: &Vec<Vec<LineChange>>) -> (r: String)
    ensures
        renders(r@, group_views(groups@)),
{
    let ghost gs = group_views(groups@);
    let mut out: Vec<char> = Vec::new();
    let ghost mut parts: Seq<LineParts> = Seq::empty();
    let mut gi: usize = 0;
    while gi < groups.len()
        invariant
            gi <= groups@.len(),
            gs == group_views(groups@),
            parts.len() == diff_items(gs.take(gi as int)).len(),
            out@ == assemble(diff_items(gs.take(gi as int)), parts),
            forall|k: int|
                0 <= k < parts.len() ==> (#[trigger] diff_items(gs.take(gi as int))[k] matches DiffItem::Line(c)
                    ==> parts_fit(parts[k], c)),
        decreases groups@.len() - gi,
    {
        let ghost items = diff_items(gs.take(gi as int));
        let ghost items_b = if gi > 0 {
            items.push(DiffItem::Break)
        } else {
            items
        };
        if gi > 0 {
            out.push('\n');
            proof {
                reveal_strlit("\n");
                let p: LineParts = (Seq::empty(), Seq::empty(), Seq::empty(), Seq::empty());
                lemma_assemble_push(items, parts, DiffItem::Break, p);
                assert(out@ =~= assemble(items, parts) + "\n"@);
                let old_parts = parts;
                parts = parts.push(p);
                assert forall|k: int| 0 <= k < parts.len() implies (#[trigger] items_b[k] matches DiffItem::Line(c)
                    ==> parts_fit(parts[k], c)) by {
                    if k < old_parts.len() {
                        assert(items_b[k] == items[k]);
                    }
                }
            }
        }
        let Ghost(np) = render_group(&mut out, &groups[gi as usize], Ghost(items_b), Ghost(parts));
        proof {
            assert(gs.take(gi + 1).drop_last() =~= gs.take(gi as int));
            assert(gs.take(gi + 1).last() =~= change_views(groups@[gi as int]@));
            if gi > 0 {
                assert(seq![DiffItem::Break] =~= Seq::<DiffItem>::empty().push(DiffItem::Break));
                assert(items + seq![DiffItem::Break] =~= items_b);
            } else {
                assert(items + Seq::<DiffItem>::empty() =~= items_b);
            }
            parts = np;
        }
        gi = gi + 1;
    }
    assert(gs.take(gi as int) =~= gs);
    crate::text::string_of(&out)
}

} // verus!
