//! Applying a theme to the active generators one after another: which
//! target comes next, what each step reports, and where the run stops.

use vstd::prelude::*;
use crate::kinds::{ColorName, GeneratorType};
use crate::paint::{Paint, Tint, paint, painted};
use crate::registry::{GeneratorRegistry, GeneratorView, Selection, ref_views, selected};
use crate::render::{decimal, decimal_of};
use crate::state::State;
use crate::text::{concat, concat3, string_of};

verus! {

/// A run over the targets: the targets in order, with their categories, how
/// many were updated, and whether the run stopped on a failure.
pub struct ApplyRun {
    targets: Vec<(String, GeneratorType)>,
    done: usize,
    failed: bool,
}

/// What a run is: its targets, how many were updated, whether it stopped.
pub struct RunView {
    pub targets: Seq<(Seq<char>, GeneratorType)>,
    pub done: nat,
    pub failed: bool,
}

pub open spec fn target_views(v: Seq<(String, GeneratorType)>) -> Seq<(Seq<char>, GeneratorType)> {
    v.map_values(|t: (String, GeneratorType)| (t.0@, t.1))
}

impl View for ApplyRun {
    type V = RunView;

    closed spec fn view(&self) -> RunView {
        RunView { targets: target_views(self.targets@), done: self.done as nat, failed: self.failed }
    }
}

/// The targets of a run: each generator kept by the selection, by name and
/// category, in registry order.
pub open spec fn run_targets(gens: Seq<GeneratorView>) -> Seq<(Seq<char>, GeneratorType)> {
    gens.map_values(|g: GeneratorView| (g.name, g.g_type))
}

/// What a run does next.
#[derive(Debug, Clone, Copy, PartialEq, Eq, Structural)]
pub enum RunStep {
    /// No generator is both enabled and installed: warn and stop.
    NothingToDo,
    /// Apply the theme to the target at `index`; `last` marks the final one.
    Apply { index: usize, last: bool },
    /// The target at `index` failed and the run stopped there.
    Stopped { index: usize },
    /// Every target was updated.
    Finished,
}

/// The step after a run in state `v`.
pub open spec fn spec_next(v: RunView) -> RunStep {
    let n = v.targets.len();
    if n == 0 {
        RunStep::NothingToDo
    } else if v.failed {
        RunStep::Stopped { index: v.done as usize }
    } else if v.done < n {
        RunStep::Apply { index: v.done as usize, last: v.done + 1 == n }
    } else {
        RunStep::Finished
    }
}

/// The color a category is shown in.
pub open spec fn tint_of(c: ColorName) -> Tint {
    match c {
        ColorName::Blue => Tint::Blue,
        ColorName::Magenta => Tint::Magenta,
        ColorName::Cyan => Tint::Cyan,
        ColorName::Green => Tint::Green,
        ColorName::Yellow => Tint::Yellow,
    }
}

fn tint_of_exec(c: ColorName) -> (r: Tint)
    ensures
        r == tint_of(c),
{
    match c {
        ColorName::Blue => Tint::Blue,
        ColorName::Magenta => Tint::Magenta,
        ColorName::Cyan => Tint::Cyan,
        ColorName::Green => Tint::Green,
        ColorName::Yellow => Tint::Yellow,
    }
}

pub open spec fn bold(t: Tint) -> Paint {
    Paint { fg: t, bold: true, dimmed: false }
}

pub open spec fn flat(t: Tint) -> Paint {
    Paint { fg: t, bold: false, dimmed: false }
}

/// `"Updating <n> targets ..."`, `n` being the painted count.
pub open spec fn header_text(n: Seq<char>) -> Seq<char> {
    "Updating "@ + n + " targets ..."@
}

/// `"<name> updated!"`, `name` painted.
pub open spec fn updated_text(name: Seq<char>) -> Seq<char> {
    name + " updated!"@
}

/// ``"Failed to apply theme to `<name>`"``, `name` painted.
pub open spec fn failure_text(name: Seq<char>) -> Seq<char> {
    "Failed to apply theme to `"@ + name + "`"@
}

/// `"All <n> targets were updated!"`, `n` painted.
pub open spec fn summary_text(n: Seq<char>) -> Seq<char> {
    "All "@ + n + " targets were updated!"@
}

/// The opening line of a parallel run: the painted icon, then
/// `" Updating <n> targets in parallel ...\n"`.
pub open spec fn parallel_header_text(icon: Seq<char>, n: Seq<char>) -> Seq<char> {
    icon + " Updating "@ + n + " targets in parallel ...\n"@
}

/// A line of a parallel run: ``"  ✓ [<current>/<total>] Target `<name>` updated!"``
/// with the mark, the current count and the name painted.
pub open spec fn progress_text(mark: Seq<char>, current: Seq<char>, total: Seq<char>, name: Seq<char>) -> Seq<
    char,
> {
    "  "@ + mark + " ["@ + current + "/"@ + total + "] Target `"@ + name + "` updated!"@
}

/// The closing text of a parallel run.
pub open spec fn parallel_done() -> Seq<char> {
    "\u{2713} All targets were updated successfully in parallel!"@
}

impl ApplyRun {
    /// Counts and positions stay within the targets; a stopped run stopped
    /// at a target.
    pub open spec fn wf(&self) -> bool {
        &&& self@.done <= self@.targets.len()
        &&& self@.failed ==> self@.done < self@.targets.len()
    }

    /// A run over the generators that are enabled and installed, in registry
    /// order; nothing is updated yet.
    pub fn new(registry: &GeneratorRegistry, state: &State) -> (r: ApplyRun)
        ensures
            r.wf(),
            r@.targets == run_targets(selected(registry@, Selection::EnabledAndInstalled(state))),
            r@.done == 0,
            !r@.failed,
    {
        let gens = registry.enabled_and_installed(state);
        let ghost kept = selected(registry@, Selection::EnabledAndInstalled(state));
        let mut targets: Vec<(String, GeneratorType)> = Vec::new();
        let mut i: usize = 0;
        while i < gens.len()
            invariant
                i <= gens@.len(),
                ref_views(gens@) == kept,
                target_views(targets@) == run_targets(kept.take(i as int)),
            decreases gens@.len() - i,
        {
            let g = gens[i];
            let ghost before = target_views(targets@);
            targets.push((String::from_str(g.name()), g.generator_type()));
            proof {
                assert(kept[i as int] == ref_views(gens@)[i as int]);
                assert(kept.take(i + 1) =~= kept.take(i as int).push(kept[i as int]));
                assert(target_views(targets@) =~= before.push((g@.name, g@.g_type)));
                assert(run_targets(kept.take(i + 1)) =~= run_targets(kept.take(i as int)).push(
                    (kept[i as int].name, kept[i as int].g_type),
                ));
            }
            i = i + 1;
        }
        proof {
            assert(kept.take(i as int) =~= kept);
        }
        ApplyRun { targets, done: 0, failed: false }
    }

    /// How many targets the run has.
    pub fn total(&self) -> (r: usize)
        ensures
            r == self@.targets.len(),
    {
        self.targets.len()
    }

    /// The name of the target at `index`.
    pub fn name(&self, index: usize) -> (r: &str)
        requires
            index < self@.targets.len(),
        ensures
            r@ == self@.targets[index as int].0,
    {
        self.targets[index].0.as_str()
    }

    /// The category of the target at `index`.
    pub fn generator_type(&self, index: usize) -> (r: GeneratorType)
        requires
            index < self@.targets.len(),
        ensures
            r == self@.targets[index as int].1,
    {
        self.targets[index].1
    }

    /// What the run does next.
    pub fn next(&self) -> (r: RunStep)
        requires
            self.wf(),
        ensures
            r == spec_next(self@),
    {
        let n = self.targets.len();
        if n == 0 {
            RunStep::NothingToDo
        } else if self.failed {
            RunStep::Stopped { index: self.done }
        } else if self.done < n {
            RunStep::Apply { index: self.done, last: self.done + 1 == n }
        } else {
            RunStep::Finished
        }
    }

    /// Records how applying to the current target went: on success the run
    /// moves to the next target, on failure it stops there.
    pub fn record(&mut self, applied: bool)
        requires
            old(self).wf(),
            spec_next(old(self)@) is Apply,
        ensures
            final(self).wf(),
            final(self)@.targets == old(self)@.targets,
            applied ==> final(self)@.done == old(self)@.done + 1 && !final(self)@.failed,
            !applied ==> final(self)@.done == old(self)@.done && final(self)@.failed,
    {
        let n = self.targets.len();
        assert(self.done < n);
        if applied {
            self.done = self.done + 1;
        } else {
            self.failed = true;
        }
    }

    /// The warning given when there is nothing to apply to.
    pub fn nothing_to_do_message() -> (r: &'static str)
        ensures
            r@ == "No targets enabled or installed!"@,
    {
        "No targets enabled or installed!"
    }

    /// The count of targets as text, painted.
    fn painted_total(&self, p: Paint) -> (r: String)
        ensures
            painted(r@, decimal(self@.targets.len()), p),
    {
        let digits = decimal_of(self.targets.len() as u128);
        paint(string_of(&digits).as_str(), p)
    }

    /// The opening line of a run, with the count in bold blue.
    pub fn header(&self) -> (r: String)
        ensures
            exists|n: Seq<char>|
                #![trigger header_text(n)]
                painted(n, decimal(self@.targets.len()), bold(Tint::Blue)) && r@ == header_text(n),
    {
        let n = self.painted_total(Paint { fg: Tint::Blue, bold: true, dimmed: false });
        let r = concat3("Updating ", n.as_str(), " targets ...");
        assert(r@ == header_text(n@));
        r
    }

    /// The label of the step for the target at `index`: the category's icon
    /// and the target's name, both bold in the category's color.
    pub fn step_label(&self, index: usize) -> (r: (String, String))
        requires
            index < self@.targets.len(),
        ensures
            painted(r.0@, self@.targets[index as int].1.spec_icon(), bold(tint_of(self@.targets[index as int].1.spec_color()))),
            painted(r.1@, self@.targets[index as int].0, bold(tint_of(self@.targets[index as int].1.spec_color()))),
    {
        let t = self.targets[index].1;
        let p = Paint { fg: tint_of_exec(t.color()), bold: true, dimmed: false };
        (paint(t.icon(), p), paint(self.targets[index].0.as_str(), p))
    }

    /// The line reported when the target at `index` was updated, its name in
    /// cyan.
    pub fn updated_message(&self, index: usize) -> (r: String)
        requires
            index < self@.targets.len(),
        ensures
            exists|m: Seq<char>|
                #![trigger updated_text(m)]
                painted(m, self@.targets[index as int].0, flat(Tint::Cyan)) && r@ == updated_text(m),
    {
        let m = paint(self.targets[index].0.as_str(), Paint { fg: Tint::Cyan, bold: false, dimmed: false });
        let r = concat(m.as_str(), " updated!");
        assert(r@ == updated_text(m@));
        r
    }

    /// What a failure at `index` is reported as, the name bold in green.
    pub fn failure_message(&self, index: usize) -> (r: String)
        requires
            index < self@.targets.len(),
        ensures
            exists|m: Seq<char>|
                #![trigger failure_text(m)]
                painted(m, self@.targets[index as int].0, bold(Tint::Green)) && r@ == failure_text(m),
    {
        let m = paint(self.targets[index].0.as_str(), Paint { fg: Tint::Green, bold: true, dimmed: false });
        let r = concat3("Failed to apply theme to `", m.as_str(), "`");
        assert(r@ == failure_text(m@));
        r
    }

    /// The closing line of a run, the count in blue.
    pub fn summary(&self) -> (r: String)
        ensures
            exists|n: Seq<char>|
                #![trigger summary_text(n)]
                painted(n, decimal(self@.targets.len()), flat(Tint::Blue)) && r@ == summary_text(n),
    {
        let n = self.painted_total(Paint { fg: Tint::Blue, bold: false, dimmed: false });
        let r = concat3("All ", n.as_str(), " targets were updated!");
        assert(r@ == summary_text(n@));
        r
    }

    /// The opening line of a parallel run: the icon and the count, both bold
    /// in blue.
    pub fn parallel_header(&self) -> (r: String)
        ensures
            exists|icon: Seq<char>, n: Seq<char>|
                #![trigger parallel_header_text(icon, n)]
                painted(icon, "\u{f06d3}"@, bold(Tint::Blue)) && painted(
                    n,
                    decimal(self@.targets.len()),
                    bold(Tint::Blue),
                ) && r@ == parallel_header_text(icon, n),
    {
        let icon = paint("\u{f06d3}", Paint { fg: Tint::Blue, bold: true, dimmed: false });
        let n = self.painted_total(Paint { fg: Tint::Blue, bold: true, dimmed: false });
        let mut r = concat3(icon.as_str(), " Updating ", n.as_str());
        r.append(" targets in parallel ...\n");
        assert(r@ == parallel_header_text(icon@, n@));
        r
    }

    /// The line of a parallel run for the target at `index`, reported as the
    /// `current`-th one updated: a bold green check, the count in yellow and
    /// the name in cyan.
    pub fn progress_line(&self, index: usize, current: usize) -> (r: String)
        requires
            index < self@.targets.len(),
        ensures
            exists|mark: Seq<char>, c: Seq<char>, m: Seq<char>|
                #![trigger progress_text(mark, c, decimal(self@.targets.len()), m)]
                painted(mark, "\u{2713}"@, bold(Tint::Green)) && painted(c, decimal(current as nat), flat(Tint::Yellow))
                    && painted(m, self@.targets[index as int].0, flat(Tint::Cyan)) && r@ == progress_text(
                    mark,
                    c,
                    decimal(self@.targets.len()),
                    m,
                ),
    {
        let mark = paint("\u{2713}", Paint { fg: Tint::Green, bold: true, dimmed: false });
        let cur_digits = decimal_of(current as u128);
        let c = paint(string_of(&cur_digits).as_str(), Paint { fg: Tint::Yellow, bold: false, dimmed: false });
        let total_digits = decimal_of(self.targets.len() as u128);
        let total = string_of(&total_digits);
        let m = paint(self.targets[index].0.as_str(), Paint { fg: Tint::Cyan, bold: false, dimmed: false });
        let mut r = concat3("  ", mark.as_str(), " [");
        r.append(c.as_str());
        r.append("/");
        r.append(total.as_str());
        r.append("] Target `");
        r.append(m.as_str());
        r.append("` updated!");
        assert(r@ =~= progress_text(mark@, c@, total@, m@));
        r
    }

    /// The closing text of a parallel run, bold in green.
    pub fn parallel_summary() -> (r: String)
        ensures
            painted(r@, parallel_done(), bold(Tint::Green)),
    {
        paint("\u{2713} All targets were updated successfully in parallel!", Paint {
            fg: Tint::Green,
            bold: true,
            dimmed: false,
        })
    }
}

} // verus!
