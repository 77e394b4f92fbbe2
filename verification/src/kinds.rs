//! Generator categories and the filters used when listing generators.

use vstd::prelude::*;

verus! {

/// Category of a generator, in the order generators are listed.
#[derive(Debug, Clone, Copy, PartialEq, Eq, Structural)]
pub enum GeneratorType {
    Terminal,
    Tool,
    Prompt,
    Multiplexer,
    System,
}

/// A terminal color that a category is shown in.
#[derive(Debug, Clone, Copy, PartialEq, Eq, Structural)]
pub enum ColorName {
    Blue,
    Magenta,
    Cyan,
    Green,
    Yellow,
}

impl GeneratorType {
    /// Position of the category in listings: the declaration order.
    pub open spec fn spec_rank(self) -> int {
        match self {
            GeneratorType::Terminal => 0,
            GeneratorType::Tool => 1,
            GeneratorType::Prompt => 2,
            GeneratorType::Multiplexer => 3,
            GeneratorType::System => 4,
        }
    }

    pub fn rank(&self) -> (r: u8)
        ensures
            r == self.spec_rank(),
    {
        match self {
            GeneratorType::Terminal => 0,
            GeneratorType::Tool => 1,
            GeneratorType::Prompt => 2,
            GeneratorType::Multiplexer => 3,
            GeneratorType::System => 4,
        }
    }

    /// Nerd Font glyph of the category.
    pub open spec fn spec_icon(self) -> Seq<char> {
        match self {
            GeneratorType::Terminal => "\u{f07b7}"@,
            GeneratorType::Tool => "\u{f018d}"@,
            GeneratorType::Prompt => "\u{f1183}"@,
            GeneratorType::Multiplexer => "\u{f10ac}"@,
            GeneratorType::System => "\u{f08ae}"@,
        }
    }

    /// Directory-style label, used in template identifiers.
    pub open spec fn spec_label(self) -> Seq<char> {
        match self {
            GeneratorType::Terminal => "terminals"@,
            GeneratorType::Tool => "tools"@,
            GeneratorType::Prompt => "prompts"@,
            GeneratorType::Multiplexer => "multiplexer"@,
            GeneratorType::System => "system"@,
        }
    }

    pub open spec fn spec_color(self) -> ColorName {
        match self {
            GeneratorType::Terminal => ColorName::Blue,
            GeneratorType::Tool => ColorName::Magenta,
            GeneratorType::Prompt => ColorName::Cyan,
            GeneratorType::Multiplexer => ColorName::Green,
            GeneratorType::System => ColorName::Yellow,
        }
    }

    /// Icon, color and label of the category.
    fn data(&self) -> (r: (&'static str, ColorName, &'static str))
        ensures
            r.0@ == self.spec_icon(),
            r.1 == self.spec_color(),
            r.2@ == self.spec_label(),
    {
        match self {
            GeneratorType::Terminal => ("\u{f07b7}", ColorName::Blue, "terminals"),
            GeneratorType::Tool => ("\u{f018d}", ColorName::Magenta, "tools"),
            GeneratorType::Prompt => ("\u{f1183}", ColorName::Cyan, "prompts"),
            GeneratorType::Multiplexer => ("\u{f10ac}", ColorName::Green, "multiplexer"),
            GeneratorType::System => ("\u{f08ae}", ColorName::Yellow, "system"),
        }
    }

    pub fn icon(&self) -> (r: &'static str)
        ensures
            r@ == self.spec_icon(),
    {
        self.data().0
    }

    pub fn color(&self) -> (r: ColorName)
        ensures
            r == self.spec_color(),
    {
        self.data().1
    }

    pub fn label(&self) -> (r: &'static str)
        ensures
            r@ == self.spec_label(),
    {
        self.data().2
    }
}

/// Which generators a listing shows, by whether they are enabled and installed.
#[derive(Debug, Clone, Copy, PartialEq, Eq, Structural)]
pub enum GeneratorFilter {
    /// Enabled and installed
    Active,
    /// Installed but disabled
    Ready,
    /// Enabled but program not found in system
    Broken,
    /// Disabled and not found
    Missing,
}

impl GeneratorFilter {
    pub open spec fn spec_matches(self, is_enabled: bool, is_installed: bool) -> bool {
        match self {
            GeneratorFilter::Active => is_enabled && is_installed,
            GeneratorFilter::Ready => !is_enabled && is_installed,
            GeneratorFilter::Broken => is_enabled && !is_installed,
            GeneratorFilter::Missing => !is_enabled && !is_installed,
        }
    }

    /// Whether a generator with these flags belongs to this filter.
    pub fn matches(&self, is_enabled: bool, is_installed: bool) -> (r: bool)
        ensures
            r == self.spec_matches(is_enabled, is_installed),
    {
        match self {
            GeneratorFilter::Active => is_enabled && is_installed,
            GeneratorFilter::Ready => !is_enabled && is_installed,
            GeneratorFilter::Broken => is_enabled && !is_installed,
            GeneratorFilter::Missing => !is_enabled && !is_installed,
        }
    }
}

/// Each generator falls under exactly one filter.
pub proof fn lemma_filters_partition(is_enabled: bool, is_installed: bool)
    ensures
        GeneratorFilter::Active.spec_matches(is_enabled, is_installed)
            || GeneratorFilter::Ready.spec_matches(is_enabled, is_installed)
            || GeneratorFilter::Broken.spec_matches(is_enabled, is_installed)
            || GeneratorFilter::Missing.spec_matches(is_enabled, is_installed),
        forall|a: GeneratorFilter, b: GeneratorFilter|
            a.spec_matches(is_enabled, is_installed) && b.spec_matches(is_enabled, is_installed)
                ==> a == b,
{
}

/// The filter of the listing command: the same four states.
#[derive(Debug, Clone, Copy, PartialEq, Eq, Structural)]
pub enum StateFilter {
    /// Enabled and installed
    Active,
    /// Installed but disabled
    Ready,
    /// Enabled but program not found in system
    Broken,
    /// Disabled and not found
    Missing,
}

impl StateFilter {
    pub open spec fn spec_matches(self, is_enabled: bool, is_installed: bool) -> bool {
        match self {
            StateFilter::Active => is_enabled && is_installed,
            StateFilter::Ready => !is_enabled && is_installed,
            StateFilter::Broken => is_enabled && !is_installed,
            StateFilter::Missing => !is_enabled && !is_installed,
        }
    }

    /// Whether a generator with these flags belongs to this filter.
    pub fn matches(&self, is_enabled: bool, is_installed: bool) -> (r: bool)
        ensures
            r == self.spec_matches(is_enabled, is_installed),
    {
        match self {
            StateFilter::Active => is_enabled && is_installed,
            StateFilter::Ready => !is_enabled && is_installed,
            StateFilter::Broken => is_enabled && !is_installed,
            StateFilter::Missing => !is_enabled && !is_installed,
        }
    }
}

} // verus!
