//! A theme's colors, the semantic roles that map to them, and reading them
//! from the output of the Neovim bridge.

use vstd::prelude::*;
use vstd::string::*;
use crate::text::{chars_of, slice_of, str_eq, string_of};
use serde_json::Value;

verus! {

/// Colors of a theme, as hex strings.
#[derive(Debug, Clone)]
pub struct Palette {
    pub name: String,
    pub bg: String,
    pub fg: String,
    pub caret: String,
    pub line_hl: String,
    pub sel: String,
    pub gutter_fg: String,
    pub comment: String,
    pub variable: String,
    pub constant: String,
    pub number: String,
    pub string: String,
    pub keyword: String,
    pub operator: String,
    pub func: String,
    pub type_color: String,
    pub tag: String,
    pub attribute: String,
    pub white: String,
    pub added: String,
    pub changed: String,
    pub deleted: String,
    pub ansi: Vec<String>,
}

/// Semantic color role a TextMate rule maps to.
#[derive(Debug, Clone, Copy, PartialEq, Eq, Structural)]
pub enum ColorKey {
    Fg,
    Comment,
    String,
    Number,
    Keyword,
    Operator,
    Func,
    TypeName,
    Attribute,
    Variable,
    Constant,
    Tag,
    Added,
    Deleted,
    Changed,
}

impl ColorKey {
    /// The palette color of this role.
    pub open spec fn spec_resolve(self, p: Palette) -> Seq<char> {
        match self {
            ColorKey::Fg => p.fg@,
            ColorKey::Comment => p.comment@,
            ColorKey::String => p.string@,
            ColorKey::Number => p.number@,
            ColorKey::Keyword => p.keyword@,
            ColorKey::Operator => p.operator@,
            ColorKey::Func => p.func@,
            ColorKey::TypeName => p.type_color@,
            ColorKey::Attribute => p.attribute@,
            ColorKey::Variable => p.variable@,
            ColorKey::Constant => p.constant@,
            ColorKey::Tag => p.tag@,
            ColorKey::Added => p.added@,
            ColorKey::Deleted => p.deleted@,
            ColorKey::Changed => p.changed@,
        }
    }

    /// Resolve this color role to the actual hex string for a given palette.
    pub fn resolve<'a>(&self, colors: &'a Palette) -> (r: &'a str)
        ensures
            r@ == self.spec_resolve(*colors),
    {
        match self {
            ColorKey::Fg => colors.fg.as_str(),
            ColorKey::Comment => colors.comment.as_str(),
            ColorKey::String => colors.string.as_str(),
            ColorKey::Number => colors.number.as_str(),
            ColorKey::Keyword => colors.keyword.as_str(),
            ColorKey::Operator => colors.operator.as_str(),
            ColorKey::Func => colors.func.as_str(),
            ColorKey::TypeName => colors.type_color.as_str(),
            ColorKey::Attribute => colors.attribute.as_str(),
            ColorKey::Variable => colors.variable.as_str(),
            ColorKey::Constant => colors.constant.as_str(),
            ColorKey::Tag => colors.tag.as_str(),
            ColorKey::Added => colors.added.as_str(),
            ColorKey::Deleted => colors.deleted.as_str(),
            ColorKey::Changed => colors.changed.as_str(),
        }
    }
}

/// The names of the palette's single-color members, in declaration order.
pub open spec fn spec_color_keys() -> Seq<Seq<char>> {
    seq![
        "bg"@, "fg"@, "caret"@, "line_hl"@, "sel"@, "gutter_fg"@, "comment"@, "variable"@,
        "constant"@, "number"@, "string"@, "keyword"@, "operator"@, "func"@, "type\u{5f}name"@,
        "tag"@, "attribute"@, "white"@, "added"@, "changed"@, "deleted"@,
    ]
}

impl Palette {
    /// The single-color members, in the order of `spec_color_keys`.
    pub open spec fn spec_colors(self) -> Seq<Seq<char>> {
        seq![
            self.bg@, self.fg@, self.caret@, self.line_hl@, self.sel@, self.gutter_fg@,
            self.comment@, self.variable@, self.constant@, self.number@, self.string@,
            self.keyword@, self.operator@, self.func@, self.type_color@, self.tag@,
            self.attribute@, self.white@, self.added@, self.changed@, self.deleted@,
        ]
    }

    pub open spec fn spec_ansi(self) -> Seq<Seq<char>> {
        self.ansi@.map_values(|s: String| s@)
    }

    /// A fixed palette for tests and examples.
    pub fn mock() -> (r: Palette)
        ensures
            r.name@ == "test-theme"@,
            r.spec_colors() == seq![
                "#1a1b26"@, "#c0caf5"@, "#c0caf5"@, "#292e42"@, "#334455"@, "#3b4261"@,
                "#565f89"@, "#bb9af7"@, "#ff9e64"@, "#ff9e64"@, "#9ece6a"@, "#7aa2f7"@,
                "#89ddff"@, "#7ad6ff"@, "#2ac3de"@, "#f7768e"@, "#e0af68"@, "#ffffff"@,
                "#9ece6a"@, "#e0af68"@, "#f7768e"@,
            ],
            r.spec_ansi() == seq![
                "#15161e"@, "#f7768e"@, "#9ece6a"@, "#e0af68"@, "#7aa2f7"@, "#bb9af7"@,
                "#7dcfff"@, "#a9b1d6"@, "#414868"@, "#f7768e"@, "#9ece6a"@, "#e0af68"@,
                "#7aa2f7"@, "#bb9af7"@, "#7dcfff"@, "#c0caf5"@,
            ],
    {
        let ansi = vec![
            String::from_str("#15161e"),
            String::from_str("#f7768e"),
            String::from_str("#9ece6a"),
            String::from_str("#e0af68"),
            String::from_str("#7aa2f7"),
            String::from_str("#bb9af7"),
            String::from_str("#7dcfff"),
            String::from_str("#a9b1d6"),
            String::from_str("#414868"),
            String::from_str("#f7768e"),
            String::from_str("#9ece6a"),
            String::from_str("#e0af68"),
            String::from_str("#7aa2f7"),
            String::from_str("#bb9af7"),
            String::from_str("#7dcfff"),
            String::from_str("#c0caf5"),
        ];
        let r = Palette {
            name: String::from_str("test-theme"),
            bg: String::from_str("#1a1b26"),
            fg: String::from_str("#c0caf5"),
            caret: String::from_str("#c0caf5"),
            line_hl: String::from_str("#292e42"),
            sel: String::from_str("#334455"),
            gutter_fg: String::from_str("#3b4261"),
            comment: String::from_str("#565f89"),
            variable: String::from_str("#bb9af7"),
            constant: String::from_str("#ff9e64"),
            number: String::from_str("#ff9e64"),
            string: String::from_str("#9ece6a"),
            keyword: String::from_str("#7aa2f7"),
            operator: String::from_str("#89ddff"),
            func: String::from_str("#7ad6ff"),
            type_color: String::from_str("#2ac3de"),
            tag: String::from_str("#f7768e"),
            attribute: String::from_str("#e0af68"),
            white: String::from_str("#ffffff"),
            added: String::from_str("#9ece6a"),
            changed: String::from_str("#e0af68"),
            deleted: String::from_str("#f7768e"),
            ansi,
        };
        assert(r.spec_ansi() =~= seq![
            "#15161e"@, "#f7768e"@, "#9ece6a"@, "#e0af68"@, "#7aa2f7"@, "#bb9af7"@,
            "#7dcfff"@, "#a9b1d6"@, "#414868"@, "#f7768e"@, "#9ece6a"@, "#e0af68"@,
            "#7aa2f7"@, "#bb9af7"@, "#7dcfff"@, "#c0caf5"@,
        ]);
        r
    }
}

/// A member value of a JSON object, as the palette reader sees it: a string, a
/// list whose items are strings or something else, or anything else.
#[derive(Debug, Clone)]
pub enum JsonField {
    Str(String),
    List(Vec<Option<String>>),
    Other,
}

/// The view of a `JsonField`.
pub enum FieldView {
    Str(Seq<char>),
    List(Seq<Option<Seq<char>>>),
    Other,
}

pub open spec fn item_views(v: Seq<Option<String>>) -> Seq<Option<Seq<char>>> {
    v.map_values(|o: Option<String>| match o {
        Some(s) => Some(s@),
        None => None,
    })
}

impl View for JsonField {
    type V = FieldView;

    open spec fn view(&self) -> FieldView {
        match self {
            JsonField::Str(s) => FieldView::Str(s@),
            JsonField::List(v) => FieldView::List(item_views(v@)),
            JsonField::Other => FieldView::Other,
        }
    }
}

pub open spec fn member_views(v: Seq<(String, JsonField)>) -> Seq<(Seq<char>, FieldView)> {
    v.map_values(|m: (String, JsonField)| (m.0@, m.1@))
}

/// A name for what `serde_json::from_str::<serde_json::Value>` gives for a
/// JSON object: its members, each value seen as a `FieldView`. `None` when
/// the text is not valid JSON or not an object.
pub uninterp spec fn json_object_members(text: Seq<char>) -> Option<Seq<(Seq<char>, FieldView)>>;

/// Parses `text` with `serde_json::from_str` into a `serde_json::Value` and,
/// where it is an object, hands back its members: strings as `Str`, arrays as
/// `List` with each string item kept and any other item as `None`, every other
/// value as `Other`. The result is given the name `json_object_members`.
#[verifier::external_body]
fn parse_json_object(text: &str) -> (r: Option<Vec<(String, JsonField)>>)
    ensures
        r matches Some(v) ==> json_object_members(text@) == Some(member_views(v@)),
        r is None ==> json_object_members(text@) is None,
{
    match serde_json::from_str::<Value>(text) {
        Ok(Value::Object(map)) => Some(map.into_iter().map(|(k, v)| (k, match v {
            Value::String(s) => JsonField::Str(s),
            Value::Array(items) => JsonField::List(items.into_iter().map(|i| match i {
                Value::String(s) => Some(s),
                _ => None,
            }).collect()),
            _ => JsonField::Other,
        })).collect()),
        _ => None,
    }
}

/// Why the bridge output could not be read as a palette.
#[derive(Debug, Clone, PartialEq, Eq)]
pub enum PaletteError {
    /// No `{ ... }` in the output.
    NoJsonObject,
    /// The text between the first `{` and the last `}` is not a JSON object.
    InvalidJson,
    /// A member is missing or does not hold what the palette needs.
    MissingField(String),
}

/// The first position of `c`.
pub open spec fn first_index(s: Seq<char>, c: char) -> Option<int>
    decreases s.len(),
{
    if s.len() == 0 {
        None
    } else if s[0] == c {
        Some(0)
    } else {
        match first_index(s.drop_first(), c) {
            Some(i) => Some(i + 1),
            None => None,
        }
    }
}

/// The last position of `c`.
pub open spec fn last_index(s: Seq<char>, c: char) -> Option<int>
    decreases s.len(),
{
    if s.len() == 0 {
        None
    } else if s.last() == c {
        Some(s.len() - 1)
    } else {
        last_index(s.drop_last(), c)
    }
}

proof fn lemma_first_index(s: Seq<char>, c: char)
    ensures
        first_index(s, c) matches Some(i) ==> 0 <= i < s.len() && s[i] == c && forall|j: int| 0 <= j < i ==> s[j] != c,
        first_index(s, c) is None ==> forall|j: int| 0 <= j < s.len() ==> s[j] != c,
    decreases s.len(),
{
    if s.len() > 0 && s[0] != c {
        lemma_first_index(s.drop_first(), c);
        assert forall|j: int| 1 <= j < s.len() implies s[j] == s.drop_first()[j - 1] by {}
    }
}

proof fn lemma_last_index(s: Seq<char>, c: char)
    ensures
        last_index(s, c) matches Some(i) ==> 0 <= i < s.len() && s[i] == c && forall|j: int| i < j < s.len() ==> s[j] != c,
        last_index(s, c) is None ==> forall|j: int| 0 <= j < s.len() ==> s[j] != c,
    decreases s.len(),
{
    if s.len() > 0 && s.last() != c {
        lemma_last_index(s.drop_last(), c);
        assert forall|j: int| 0 <= j < s.len() - 1 implies s[j] == s.drop_last()[j] by {}
        assert(s[s.len() - 1] == s.last());
    }
}

fn first_index_exec(s: &[char], c: char) -> (r: Option<usize>)
    ensures
        r matches Some(i) ==> first_index(s@, c) == Some(i as int),
        r is None ==> first_index(s@, c) is None,
{
    let mut i: usize = 0;
    assert(s@.skip(0) =~= s@);
    while i < s.len()
        invariant
            i <= s@.len(),
            first_index(s@, c) == match first_index(s@.skip(i as int), c) {
                Some(j) => Some(j + i),
                None => None::<int>,
            },
        decreases s@.len() - i,
    {
        assert(s@.skip(i as int).drop_first() =~= s@.skip(i + 1));
        if s[i] == c {
            return Some(i);
        }
        i = i + 1;
    }
    None
}

fn last_index_exec(s: &[char], c: char) -> (r: Option<usize>)
    ensures
        r matches Some(i) ==> last_index(s@, c) == Some(i as int),
        r is None ==> last_index(s@, c) is None,
{
    let mut i: usize = s.len();
    assert(s@.take(s@.len() as int) =~= s@);
    while i > 0
        invariant
            i <= s@.len(),
            last_index(s@, c) == last_index(s@.take(i as int), c),
        decreases i,
    {
        assert(s@.take(i as int).drop_last() =~= s@.take(i - 1));
        if s[i - 1] == c {
            return Some(i - 1);
        }
        i = i - 1;
    }
    None
}

/// The text from the first `{` through the last `}`, where both occur in that
/// order.
pub open spec fn json_span(raw: Seq<char>) -> Option<Seq<char>> {
    match (first_index(raw, '{'), last_index(raw, '}')) {
        (Some(a), Some(b)) => if a <= b {
            Some(raw.subrange(a, b + 1))
        } else {
            None
        },
        _ => None,
    }
}

/// The string held by the first member named `key`.
pub open spec fn member_str(ms: Seq<(Seq<char>, FieldView)>, key: Seq<char>) -> Option<Seq<char>>
    decreases ms.len(),
{
    if ms.len() == 0 {
        None
    } else if ms[0].0 == key {
        match ms[0].1 {
            FieldView::Str(s) => Some(s),
            _ => None,
        }
    } else {
        member_str(ms.drop_first(), key)
    }
}

/// The strings held by the first member named `key`, where it is a list of strings.
pub open spec fn member_str_list(ms: Seq<(Seq<char>, FieldView)>, key: Seq<char>) -> Option<Seq<Seq<char>>>
    decreases ms.len(),
{
    if ms.len() == 0 {
        None
    } else if ms[0].0 == key {
        match ms[0].1 {
            FieldView::List(items) => if forall|i: int| 0 <= i < items.len() ==> items[i] is Some {
                Some(items.map_values(|o: Option<Seq<char>>| o->0))
            } else {
                None
            },
            _ => None,
        }
    } else {
        member_str_list(ms.drop_first(), key)
    }
}

/// The members hold every color of the palette and a list of terminal colors.
pub open spec fn members_complete(ms: Seq<(Seq<char>, FieldView)>) -> bool {
    &&& forall|i: int| 0 <= i < spec_color_keys().len() ==> member_str(ms, #[trigger] spec_color_keys()[i]) is Some
    &&& member_str_list(ms, "ansi"@) is Some
}

/// The first key, from the color key at `i` on and then `ansi`, that the
/// members do not give in the form the palette needs.
pub open spec fn first_missing(ms: Seq<(Seq<char>, FieldView)>, i: nat) -> Seq<char>
    decreases 21 - i,
{
    if i >= 21 {
        "ansi"@
    } else if member_str(ms, spec_color_keys()[i as int]) is None {
        spec_color_keys()[i as int]
    } else {
        first_missing(ms, i + 1)
    }
}

/// `p` holds exactly the colors the members give, and no name.
pub open spec fn palette_from_members(p: Palette, ms: Seq<(Seq<char>, FieldView)>) -> bool {
    &&& p.name@.len() == 0
    &&& forall|i: int| 0 <= i < spec_color_keys().len() ==> member_str(ms, #[trigger] spec_color_keys()[i]) == Some(p.spec_colors()[i])
    &&& member_str_list(ms, "ansi"@) == Some(p.spec_ansi())
}

fn find_member_str(ms: &Vec<(String, JsonField)>, key: &str) -> (r: Option<String>)
    ensures
        r matches Some(v) ==> member_str(member_views(ms@), key@) == Some(v@),
        r is None ==> member_str(member_views(ms@), key@) is None,
{
    let ghost all = member_views(ms@);
    let mut i: usize = 0;
    assert(all.skip(0) =~= all);
    while i < ms.len()
        invariant
            i <= ms@.len(),
            all == member_views(ms@),
            member_str(all, key@) == member_str(all.skip(i as int), key@),
        decreases ms@.len() - i,
    {
        assert(all.skip(i as int).drop_first() =~= all.skip(i + 1));
        assert(all.skip(i as int)[0] == (ms@[i as int].0@, ms@[i as int].1@));
        if str_eq(ms[i].0.as_str(), key) {
            return match &ms[i].1 {
                JsonField::Str(v) => Some(v.clone()),
                _ => None,
            };
        }
        i = i + 1;
    }
    None
}

/// The items, where every one is a string.
fn all_strings(items: &Vec<Option<String>>) -> (r: Option<Vec<String>>)
    ensures
        r matches Some(v) ==> (forall|i: int| 0 <= i < items@.len() ==> item_views(items@)[i] is Some)
            && v@.map_values(|s: String| s@) == item_views(items@).map_values(|o: Option<Seq<char>>| o->0),
        r is None ==> !(forall|i: int| 0 <= i < items@.len() ==> item_views(items@)[i] is Some),
{
    let ghost iv = item_views(items@);
    let mut out: Vec<String> = Vec::new();
    let mut k: usize = 0;
    while k < items.len()
        invariant
            k <= items@.len(),
            iv == item_views(items@),
            forall|m: int| 0 <= m < k ==> iv[m] is Some,
            out@.map_values(|s: String| s@) == iv.take(k as int).map_values(|o: Option<Seq<char>>| o->0),
        decreases items@.len() - k,
    {
        match &items[k] {
            Some(s) => {
                let ghost before = out@.map_values(|s: String| s@);
                out.push(s.clone());
                assert(out@.map_values(|s: String| s@) =~= before.push(s@));
                assert(iv.take(k + 1).map_values(|o: Option<Seq<char>>| o->0) =~= iv.take(
                    k as int,
                ).map_values(|o: Option<Seq<char>>| o->0).push(s@));
            },
            None => {
                assert(iv[k as int] is None);
                return None;
            },
        }
        k = k + 1;
    }
    assert(iv.take(items@.len() as int) =~= iv);
    Some(out)
}

fn find_member_list(ms: &Vec<(String, JsonField)>, key: &str) -> (r: Option<Vec<String>>)
    ensures
        r matches Some(v) ==> member_str_list(member_views(ms@), key@) == Some(v@.map_values(|s: String| s@)),
        r is None ==> member_str_list(member_views(ms@), key@) is None,
{
    let ghost all = member_views(ms@);
    let mut i: usize = 0;
    assert(all.skip(0) =~= all);
    while i < ms.len()
        invariant
            i <= ms@.len(),
            all == member_views(ms@),
            member_str_list(all, key@) == member_str_list(all.skip(i as int), key@),
        decreases ms@.len() - i,
    {
        assert(all.skip(i as int).drop_first() =~= all.skip(i + 1));
        assert(all.skip(i as int)[0] == (ms@[i as int].0@, ms@[i as int].1@));
        if str_eq(ms[i].0.as_str(), key) {
            return match &ms[i].1 {
                JsonField::List(items) => {
                    let r = all_strings(items);
                    assert(all.skip(i as int)[0].1 == FieldView::List(item_views(items@)));
                    r
                },
                _ => None,
            };
        }
        i = i + 1;
    }
    None
}

impl Palette {
    /// Reads the palette out of the Neovim bridge's output: the JSON object
    /// between the first `{` and the last `}`, ignoring whatever surrounds it.
    pub fn parse_from_nvim(raw: &str) -> (r: Result<Palette, PaletteError>)
        ensures
            match json_span(raw@) {
                None => r matches Err(PaletteError::NoJsonObject),
                Some(t) => match json_object_members(t) {
                    None => r matches Err(PaletteError::InvalidJson),
                    Some(ms) => if members_complete(ms) {
                        r matches Ok(p) && palette_from_members(p, ms)
                    } else {
                        r matches Err(PaletteError::MissingField(k)) && k@ == first_missing(ms, 0)
                    },
                },
            },
    {
        let c = chars_of(raw);
        let n = c.len();
        let a = first_index_exec(&c, '{');
        let b = last_index_exec(&c, '}');
        let (a, b) = match (a, b) {
            (Some(a), Some(b)) => (a, b),
            _ => {
                return Err(PaletteError::NoJsonObject);
            },
        };
        if a > b {
            return Err(PaletteError::NoJsonObject);
        }
        proof {
            lemma_last_index(c@, '}');
        }
        let span = slice_of(&c, a, b + 1);
        let text = string_of(&span);
        assert(json_span(raw@) == Some(text@));
        let ms = match parse_json_object(text.as_str()) {
            Some(ms) => ms,
            None => {
                return Err(PaletteError::InvalidJson);
            },
        };
        Palette::from_members(&ms)
    }

    /// The palette the members of a parsed JSON object give: each color key
    /// must hold a string and `ansi` a list of strings; where one does not,
    /// the error names the first such key, color keys in their order, then
    /// `ansi`.
    pub fn from_members(ms: &Vec<(String, JsonField)>) -> (r: Result<Palette, PaletteError>)
        ensures
            if members_complete(member_views(ms@)) {
                r matches Ok(p) && palette_from_members(p, member_views(ms@))
            } else {
                r matches Err(PaletteError::MissingField(k)) && k@ == first_missing(member_views(ms@), 0)
            },
    {
        let ghost mv = member_views(ms@);
        let keys: [&str; 21] = [
            "bg", "fg", "caret", "line_hl", "sel", "gutter_fg", "comment", "variable",
            "constant", "number", "string", "keyword", "operator", "func", "type\u{5f}name",
            "tag", "attribute", "white", "added", "changed", "deleted",
        ];
        assert(keys@.map_values(|k: &str| k@) =~= spec_color_keys());
        let mut vals: Vec<String> = Vec::new();
        let mut i: usize = 0;
        while i < 21
            invariant
                i <= 21,
                mv == member_views(ms@),
                first_missing(mv, 0) == first_missing(mv, i as nat),
                keys@.map_values(|k: &str| k@) == spec_color_keys(),
                vals@.len() == i,
                forall|m: int| 0 <= m < i ==> member_str(mv, #[trigger] spec_color_keys()[m]) == Some(vals@[m]@),
            decreases 21 - i,
        {
            assert(keys@[i as int]@ == spec_color_keys()[i as int]);
            match find_member_str(&ms, keys[i]) {
                Some(v) => {
                    vals.push(v);
                },
                None => {
                    assert(member_str(mv, spec_color_keys()[i as int]) is None);
                    assert(!members_complete(mv));
                    return Err(PaletteError::MissingField(String::from_str(keys[i])));
                },
            }
            i = i + 1;
        }
        let ansi = match find_member_list(&ms, "ansi") {
            Some(v) => v,
            None => {
                assert(first_missing(mv, 21) == "ansi"@);
                return Err(PaletteError::MissingField(String::from_str("ansi")));
            },
        };
        let p = Palette {
            name: String::new(),
            bg: vals[0].clone(),
            fg: vals[1].clone(),
            caret: vals[2].clone(),
            line_hl: vals[3].clone(),
            sel: vals[4].clone(),
            gutter_fg: vals[5].clone(),
            comment: vals[6].clone(),
            variable: vals[7].clone(),
            constant: vals[8].clone(),
            number: vals[9].clone(),
            string: vals[10].clone(),
            keyword: vals[11].clone(),
            operator: vals[12].clone(),
            func: vals[13].clone(),
            type_color: vals[14].clone(),
            tag: vals[15].clone(),
            attribute: vals[16].clone(),
            white: vals[17].clone(),
            added: vals[18].clone(),
            changed: vals[19].clone(),
            deleted: vals[20].clone(),
            ansi,
        };
        assert(p.spec_colors() =~= vals@.map_values(|s: String| s@));
        Ok(p)
    }
}

} // verus!
