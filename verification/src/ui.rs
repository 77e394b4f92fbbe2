//! The text of progress and status lines: a tree of steps, each line
//! indented by its level.

use vstd::prelude::*;
use crate::paint::{Paint, Tint, paint, painted};
use crate::text::{concat, concat3};

verus! {

pub open spec fn blue_bold() -> Paint {
    Paint { fg: Tint::Blue, bold: true, dimmed: false }
}

pub open spec fn plain_tint(t: Tint) -> Paint {
    Paint { fg: t, bold: false, dimmed: false }
}

pub open spec fn bold_tint(t: Tint) -> Paint {
    Paint { fg: t, bold: true, dimmed: false }
}

pub open spec fn dimmed() -> Paint {
    Paint { fg: Tint::Plain, bold: false, dimmed: true }
}

/// `s` repeated `n` times.
pub open spec fn repeat(s: Seq<char>, n: nat) -> Seq<char>
    decreases n,
{
    if n == 0 {
        Seq::<char>::empty()
    } else {
        repeat(s, (n - 1) as nat) + s
    }
}

/// Two spaces per level.
pub open spec fn indent(level: u8) -> Seq<char> {
    repeat("  "@, level as nat)
}

fn indent_exec(level: u8) -> (r: String)
    ensures
        r@ == indent(level),
{
    let mut out = String::new();
    let mut i: u8 = 0;
    while i < level
        invariant
            i <= level,
            out@ == repeat("  "@, i as nat),
        decreases level - i,
    {
        out.append("  ");
        i = i + 1;
    }
    out
}

/// The prefix of a line at `level`, `mark` being the painted mark: the
/// indent and the mark for an active step; for another line, the indent and,
/// below the top level, the branch and a space.
pub open spec fn prefix_text(level: u8, active: bool, mark: Seq<char>) -> Seq<char> {
    if active || level == 0 {
        indent(level) + mark
    } else {
        indent(level) + mark + " "@
    }
}

/// `r` is the prefix of a line at `level`.
pub open spec fn is_prefix(r: Seq<char>, level: u8, active: bool) -> bool {
    if active {
        exists|m: Seq<char>| #[trigger] prefix_text(level, active, m) == r && painted(m, "❯"@, blue_bold())
    } else if level == 0 {
        r == indent(level)
    } else {
        exists|m: Seq<char>| #[trigger] prefix_text(level, active, m) == r && painted(m, "├─"@, plain_tint(Tint::Blue))
    }
}

/// Creates the step lines of a run; `quiet` keeps them compact.
#[derive(Debug, Clone, Copy, PartialEq, Eq, Structural)]
pub struct Logger {
    pub quiet: bool,
}

/// The line of a step: compact (`   ❯ <message>... `) when quiet, else the
/// active prefix, the message and a line feed.
pub open spec fn step_text(quiet: bool, level: u8, p: Seq<char>, m: Seq<char>) -> Seq<char> {
    if quiet {
        "   "@ + p + " "@ + m + "... "@
    } else {
        p + " "@ + m + "\n"@
    }
}

/// An informative line: the prefix, the painted message and a line feed.
pub open spec fn info_text(p: Seq<char>, m: Seq<char>) -> Seq<char> {
    p + " "@ + m + "\n"@
}

/// A line with a prefix, a painted icon and a painted message.
pub open spec fn marked_text(prefix: Seq<char>, icon: Seq<char>, m: Seq<char>) -> Seq<char> {
    prefix + icon + " "@ + m + "\n"@
}

impl Logger {
    pub fn new() -> (r: Logger)
        ensures
            !r.quiet,
    {
        Logger { quiet: false }
    }

    pub fn quiet() -> (r: Logger)
        ensures
            r.quiet,
    {
        Logger { quiet: true }
    }

    /// The prefix of a line at `level`: `❯` for an active step, `├─` for a
    /// line below the top level.
    pub fn get_prefix(&self, level: u8, active: bool) -> (r: String)
        ensures
            is_prefix(r@, level, active),
    {
        let ind = indent_exec(level);
        if active {
            let m = paint("❯", Paint { fg: Tint::Blue, bold: true, dimmed: false });
            let r = concat(ind.as_str(), m.as_str());
            assert(prefix_text(level, active, m@) == r@);
            r
        } else if level == 0 {
            ind
        } else {
            let m = paint("├─", Paint { fg: Tint::Blue, bold: false, dimmed: false });
            let r = concat3(ind.as_str(), m.as_str(), " ");
            assert(prefix_text(level, active, m@) == r@);
            r
        }
    }

    /// The line that announces a step.
    pub fn build_step_output(&self, message: &str, level: u8) -> (r: String)
        ensures
            self.quiet ==> exists|p: Seq<char>, m: Seq<char>|
                #![trigger step_text(true, level, p, m)]
                painted(p, "❯"@, blue_bold()) && painted(m, message@, bold_tint(Tint::White)) && r@
                    == step_text(true, level, p, m),
            !self.quiet ==> exists|p: Seq<char>, m: Seq<char>|
                #![trigger step_text(false, level, p, m)]
                is_prefix(p, level, true) && painted(m, message@, plain_tint(Tint::White)) && r@
                    == step_text(false, level, p, m),
    {
        if self.quiet {
            let p = paint("❯", Paint { fg: Tint::Blue, bold: true, dimmed: false });
            let m = paint(message, Paint { fg: Tint::White, bold: true, dimmed: false });
            let mut r = concat3("   ", p.as_str(), " ");
            r.append(m.as_str());
            r.append("... ");
            assert(r@ == step_text(true, level, p@, m@));
            r
        } else {
            let p = self.get_prefix(level, true);
            let m = paint(message, Paint { fg: Tint::White, bold: false, dimmed: false });
            let mut r = concat3(p.as_str(), " ", m.as_str());
            r.append("\n");
            assert(r@ == step_text(false, level, p@, m@));
            r
        }
    }

    /// An informative line, dimmed, at the second level.
    pub fn build_info_output(&self, message: &str) -> (r: String)
        ensures
            exists|p: Seq<char>, m: Seq<char>|
                #![trigger info_text(p, m)]
                is_prefix(p, 2, false) && painted(m, message@, dimmed()) && r@ == info_text(p, m),
    {
        let p = self.get_prefix(2, false);
        let m = paint(message, Paint { fg: Tint::Plain, bold: false, dimmed: true });
        let mut r = concat3(p.as_str(), " ", m.as_str());
        r.append("\n");
        assert(r@ =~= info_text(p@, m@));
        r
    }

    /// A success line: `✔` in green at the top level, else the branch.
    pub fn build_success_output(&self, message: &str, level: u8) -> (r: String)
        ensures
            exists|icon: Seq<char>|
                #![trigger marked_text(indent(level) + " "@, icon, message@)]
                (if level == 0 {
                    painted(icon, "✔"@, bold_tint(Tint::Green))
                } else {
                    painted(icon, "├─"@, plain_tint(Tint::Blue))
                }) && r@ == marked_text(indent(level) + " "@, icon, message@),
    {
        let icon = if level == 0 {
            paint("✔", Paint { fg: Tint::Green, bold: true, dimmed: false })
        } else {
            paint("├─", Paint { fg: Tint::Blue, bold: false, dimmed: false })
        };
        let ind = indent_exec(level);
        let mut r = concat3(ind.as_str(), " ", icon.as_str());
        r.append(" ");
        r.append(message);
        r.append("\n");
        assert(r@ =~= marked_text(indent(level) + " "@, icon@, message@));
        r
    }

    /// A warning line: a yellow `!` and the message in yellow.
    pub fn build_warning_output(&self, message: &str, level: u8) -> (r: String)
        ensures
            exists|p: Seq<char>, icon: Seq<char>, m: Seq<char>|
                #![trigger marked_text(p, icon, m)]
                is_prefix(p, level, false) && painted(icon, "!"@, bold_tint(Tint::Yellow)) && painted(
                    m,
                    message@,
                    plain_tint(Tint::Yellow),
                ) && r@ == marked_text(p, icon, m),
    {
        self.marked(message, level, "!", Paint { fg: Tint::Yellow, bold: true, dimmed: false }, Paint {
            fg: Tint::Yellow,
            bold: false,
            dimmed: false,
        })
    }

    /// An error line: a red `✘` and the message in red.
    pub fn build_error_output(&self, message: &str, level: u8) -> (r: String)
        ensures
            exists|p: Seq<char>, icon: Seq<char>, m: Seq<char>|
                #![trigger marked_text(p, icon, m)]
                is_prefix(p, level, false) && painted(icon, "✘"@, bold_tint(Tint::Red)) && painted(
                    m,
                    message@,
                    plain_tint(Tint::Red),
                ) && r@ == marked_text(p, icon, m),
    {
        self.marked(message, level, "✘", Paint { fg: Tint::Red, bold: true, dimmed: false }, Paint {
            fg: Tint::Red,
            bold: false,
            dimmed: false,
        })
    }

    fn marked(&self, message: &str, level: u8, mark: &str, icon_paint: Paint, text_paint: Paint) -> (r: String)
        ensures
            exists|p: Seq<char>, icon: Seq<char>, m: Seq<char>|
                #![trigger marked_text(p, icon, m)]
                is_prefix(p, level, false) && painted(icon, mark@, icon_paint) && painted(m, message@, text_paint)
                    && r@ == marked_text(p, icon, m),
    {
        let p = self.get_prefix(level, false);
        let icon = paint(mark, icon_paint);
        let m = paint(message, text_paint);
        let mut r = concat3(p.as_str(), icon.as_str(), " ");
        r.append(m.as_str());
        r.append("\n");
        assert(r@ =~= marked_text(p@, icon@, m@));
        r
    }
}

/// A step in progress, finished at most once.
#[derive(Debug, Clone, PartialEq, Eq)]
pub struct Task {
    pub message: String,
    pub level: u8,
    pub quiet: bool,
    pub finished: bool,
}

/// The line of a finished step: the branch (`❯` at the top level, `└─` for
/// the last step, else `├─`), the dimmed message and dots, `done` in green
/// and the duration text.
pub open spec fn done_text(level: u8, branch: Seq<char>, m: Seq<char>, dots: Seq<char>, d: Seq<char>, duration: Seq<char>) -> Seq<char> {
    indent(level) + branch + " "@ + m + " "@ + dots + " "@ + d + duration + "\n"@
}

impl Task {
    pub fn new(message: String, level: u8, quiet: bool) -> (r: Task)
        ensures
            r.message@ == message@,
            r.level == level,
            r.quiet == quiet,
            !r.finished,
    {
        Task { message, level, quiet, finished: false }
    }

    /// The line printed when the step finishes.
    pub fn build_done_output(&self, is_last: bool, duration: &str) -> (r: String)
        ensures
            exists|branch: Seq<char>, m: Seq<char>, dots: Seq<char>, d: Seq<char>|
                #![trigger done_text(self.level, branch, m, dots, d, duration@)]
                (if self.level == 0 {
                    painted(branch, "❯"@, blue_bold())
                } else if is_last {
                    painted(branch, "└─"@, plain_tint(Tint::Blue))
                } else {
                    painted(branch, "├─"@, plain_tint(Tint::Blue))
                }) && painted(m, self.message@, dimmed()) && painted(dots, "..."@, dimmed()) && painted(
                    d,
                    "done"@,
                    plain_tint(Tint::Green),
                ) && r@ == done_text(self.level, branch, m, dots, d, duration@),
    {
        let branch = if self.level == 0 {
            paint("❯", Paint { fg: Tint::Blue, bold: true, dimmed: false })
        } else if is_last {
            paint("└─", Paint { fg: Tint::Blue, bold: false, dimmed: false })
        } else {
            paint("├─", Paint { fg: Tint::Blue, bold: false, dimmed: false })
        };
        let m = paint(self.message.as_str(), Paint { fg: Tint::Plain, bold: false, dimmed: true });
        let dots = paint("...", Paint { fg: Tint::Plain, bold: false, dimmed: true });
        let d = paint("done", Paint { fg: Tint::Green, bold: false, dimmed: false });
        let ind = indent_exec(self.level);
        let mut r = concat3(ind.as_str(), branch.as_str(), " ");
        r.append(m.as_str());
        r.append(" ");
        r.append(dots.as_str());
        r.append(" ");
        r.append(d.as_str());
        r.append(duration);
        r.append("\n");
        assert(r@ =~= done_text(self.level, branch@, m@, dots@, d@, duration@));
        r
    }

    /// An informative sub-line of the step, dimmed as a whole.
    pub fn build_info_output(&self, message: &str) -> (r: String)
        ensures
            painted(r@, indent(self.level) + "  └─  • "@ + message@ + "\n"@, dimmed()),
    {
        let ind = indent_exec(self.level);
        let mut line = concat3(ind.as_str(), "  └─  • ", message);
        line.append("\n");
        paint(line.as_str(), Paint { fg: Tint::Plain, bold: false, dimmed: true })
    }

    /// The line printed for a step left unfinished: `failed` in red where the
    /// thread is panicking, else `skipped`.
    pub fn build_drop_output(&self, panicking: bool) -> (r: String)
        ensures
            exists|w: Seq<char>, m: Seq<char>, l: Seq<char>|
                #![trigger marked_text("  "@ + w + " "@, m, l)]
                painted(w, "⚠"@, plain_tint(Tint::Yellow)) && painted(m, self.message@, dimmed()) && (if panicking {
                    painted(l, "failed"@, bold_tint(Tint::Red))
                } else {
                    painted(l, "skipped"@, dimmed())
                }) && r@ == marked_text("  "@ + w + " "@, m, l),
    {
        let w = paint("⚠", Paint { fg: Tint::Yellow, bold: false, dimmed: false });
        let m = paint(self.message.as_str(), Paint { fg: Tint::Plain, bold: false, dimmed: true });
        let l = if panicking {
            paint("failed", Paint { fg: Tint::Red, bold: true, dimmed: false })
        } else {
            paint("skipped", Paint { fg: Tint::Plain, bold: false, dimmed: true })
        };
        let mut r = concat3("  ", w.as_str(), " ");
        r.append(m.as_str());
        r.append(" ");
        r.append(l.as_str());
        r.append("\n");
        assert(r@ =~= marked_text("  "@ + w@ + " "@, m@, l@));
        r
    }

    /// Finishes the step: the line to print (none where it is finished
    /// already), `done` in green and the duration when quiet.
    pub fn done(&mut self, is_last: bool, duration: &str) -> (r: Option<String>)
        ensures
            final(self).finished,
            final(self).message@ == old(self).message@,
            final(self).level == old(self).level,
            final(self).quiet == old(self).quiet,
            old(self).finished ==> r is None,
            !old(self).finished && old(self).quiet ==> (r matches Some(s) && exists|d: Seq<char>|
                #![trigger painted(d, "done"@, plain_tint(Tint::Green))]
                painted(d, "done"@, plain_tint(Tint::Green)) && s@ == d + duration@ + "\n"@),
            !old(self).finished && !old(self).quiet ==> (r matches Some(s) && exists|
                branch: Seq<char>,
                m: Seq<char>,
                dots: Seq<char>,
                d: Seq<char>,
            |
                #![trigger done_text(old(self).level, branch, m, dots, d, duration@)]
                s@ == "\r\u{1b}[K"@ + done_text(old(self).level, branch, m, dots, d, duration@)),
    {
        if self.finished {
            return None;
        }
        let out = if !self.quiet {
            let line = self.build_done_output(is_last, duration);
            concat("\r\u{1b}[K", line.as_str())
        } else {
            let d = paint("done", Paint { fg: Tint::Green, bold: false, dimmed: false });
            let mut s = concat(d.as_str(), duration);
            s.append("\n");
            assert(painted(d@, "done"@, plain_tint(Tint::Green)));
            s
        };
        self.finished = true;
        Some(out)
    }
}

} // verus!
