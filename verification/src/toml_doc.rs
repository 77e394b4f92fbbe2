//! Editing alacritty's TOML configuration through `toml_edit`: the import of
//! the active theme is put first under `[general]` and dropped elsewhere.
//!
//! A `toml_edit::DocumentMut` made here is known by how it came about: the
//! text it was parsed from and the edits made to it since, in order. Its
//! whole state (tables, implicit ones included, their order and positions)
//! follows from that history, so each lookup and the printed form are named
//! as functions of it.

use vstd::prelude::*;
use crate::diff::DiffError;
use crate::state::string_views;
use crate::text::{chars_eq, string_of, trim, trim_exec, chars_of};

verus! {

#[verifier::external_type_specification]
#[verifier::external_body]
pub struct ExDocumentMut(toml_edit::DocumentMut);

/// What a key of a table holds, as far as the edit needs to know.
#[derive(Debug, Clone, Copy, PartialEq, Eq, Structural)]
pub enum TomlSlot {
    /// No item under the key.
    Missing,
    /// A table (`[key]` section, implicit table, or dotted keys).
    Table,
    /// Any other item: a value, an inline table, an array of tables.
    Other,
}

/// One step in the making of a document.
pub enum TomlEdit {
    /// Parsed from the text.
    Parse(Seq<char>),
    /// `doc[key] = toml_edit::table()`.
    PutTable(Seq<char>),
    /// The key `key` of the table `table` set to an array holding `item`.
    SetList(Seq<char>, Seq<char>, Seq<char>),
    /// The key `key` removed from the table `table`, where that is a table.
    Remove(Seq<char>, Seq<char>),
}

/// How the document came about: the parse, then each edit, in order.
pub uninterp spec fn toml_history(d: toml_edit::DocumentMut) -> Seq<TomlEdit>;

/// Whether `str::parse::<DocumentMut>` accepts `text`.
pub uninterp spec fn toml_parses(text: Seq<char>) -> bool;

/// What `Table::get(key)` finds at the top level of the document made by `h`.
pub uninterp spec fn toml_slot(h: Seq<TomlEdit>, key: Seq<char>) -> TomlSlot;

/// The first element of the array under `key` in the table `table` of the
/// document made by `h`, where all of these are there and it is a string.
pub uninterp spec fn toml_first_string(h: Seq<TomlEdit>, table: Seq<char>, key: Seq<char>) -> Option<Seq<char>>;

/// The keys `Table::iter` gives at the top level of the document made by `h`.
pub uninterp spec fn toml_keys(h: Seq<TomlEdit>) -> Seq<Seq<char>>;

/// The printed form (`Display`) of the document made by `h`.
pub uninterp spec fn toml_print(h: Seq<TomlEdit>) -> Seq<char>;

/// Calls `str::parse::<toml_edit::DocumentMut>`.
#[verifier::external_body]
fn parse_document(text: &str) -> (r: Option<toml_edit::DocumentMut>)
    ensures
        (r is Some) == toml_parses(text@),
        r matches Some(d) ==> toml_history(d) == seq![TomlEdit::Parse(text@)],
{
    text.parse::<toml_edit::DocumentMut>().ok()
}

/// Calls `DocumentMut`'s `to_string`.
#[verifier::external_body]
fn document_text(d: &toml_edit::DocumentMut) -> (r: String)
    ensures
        r@ == toml_print(toml_history(*d)),
{
    d.to_string()
}

/// Calls `Table::get` on the document and tells the item's kind apart.
#[verifier::external_body]
fn slot_of(d: &toml_edit::DocumentMut, key: &str) -> (r: TomlSlot)
    ensures
        r == toml_slot(toml_history(*d), key@),
{
    match d.get(key) {
        None => TomlSlot::Missing,
        Some(toml_edit::Item::Table(_)) => TomlSlot::Table,
        Some(_) => TomlSlot::Other,
    }
}

/// Calls `doc[key] = toml_edit::table()`.
#[verifier::external_body]
fn put_table(d: &mut toml_edit::DocumentMut, key: &str)
    ensures
        toml_history(*final(d)) == toml_history(*old(d)).push(TomlEdit::PutTable(key@)),
{
    d[key] = toml_edit::table();
}

/// Calls `get(table)`, `as_table`, `get(key)`, `as_array`, `get(0)` and
/// `as_str`.
#[verifier::external_body]
fn first_string(d: &toml_edit::DocumentMut, table: &str, key: &str) -> (r: Option<String>)
    ensures
        r matches Some(s) ==> toml_first_string(toml_history(*d), table@, key@) == Some(s@),
        r is None ==> toml_first_string(toml_history(*d), table@, key@) is None,
{
    d.get(table).and_then(|t| t.as_table()).and_then(|t| t.get(key)).and_then(|v| v.as_array()).and_then(
        |a| a.get(0),
    ).and_then(|v| v.as_str()).map(|s| s.to_string())
}

/// Calls `Array::new`, `Array::push`, `as_table_mut` on `table` and
/// `Table::insert(key, toml_edit::value(array))`.
#[verifier::external_body]
fn set_list(d: &mut toml_edit::DocumentMut, table: &str, key: &str, item: &str)
    ensures
        toml_history(*final(d)) == toml_history(*old(d)).push(TomlEdit::SetList(table@, key@, item@)),
{
    let mut a = toml_edit::Array::new();
    a.push(item);
    if let Some(t) = d.get_mut(table).and_then(|i| i.as_table_mut()) {
        t.insert(key, toml_edit::value(a));
    }
}

/// Calls `Table::iter` on the document and takes each key.
#[verifier::external_body]
fn keys_of(d: &toml_edit::DocumentMut) -> (r: Vec<String>)
    ensures
        string_views(r@) == toml_keys(toml_history(*d)),
{
    d.iter().map(|(k, _)| k.to_string()).collect()
}

/// Calls `get_mut(table)`, `as_table_mut` and `Table::remove(key)`.
#[verifier::external_body]
fn remove_in(d: &mut toml_edit::DocumentMut, table: &str, key: &str)
    ensures
        toml_history(*final(d)) == toml_history(*old(d)).push(TomlEdit::Remove(table@, key@)),
{
    if let Some(t) = d.get_mut(table).and_then(|i| i.as_table_mut()) {
        t.remove(key);
    }
}

/// The theme file alacritty imports.
pub open spec fn alacritty_import() -> Seq<char> {
    "~/.config/alacritty/current_theme.toml"@
}

/// The edits that remove `"import"` from each of the tables `keys` other
/// than `general`, in order.
pub open spec fn import_removals(keys: Seq<Seq<char>>) -> Seq<TomlEdit>
    decreases keys.len(),
{
    if keys.len() == 0 {
        Seq::empty()
    } else {
        let before = import_removals(keys.drop_last());
        if keys.last() == "general"@ {
            before
        } else {
            before.push(TomlEdit::Remove(keys.last(), "import"@))
        }
    }
}

/// The document parsed from `text` has no `general` item, or a table there.
pub open spec fn general_editable(text: Seq<char>) -> bool {
    toml_slot(seq![TomlEdit::Parse(text)], "general"@) != TomlSlot::Other
}

/// What alacritty's configuration, holding `current`, should hold: nothing
/// to change where, once `[general]` is made where missing, its first import
/// is already the theme file, or where the edited document prints as
/// `current` once both are trimmed; else the document with the import under
/// `[general]` set to the theme file alone and every other table's import
/// dropped, as printed.
pub open spec fn spec_alacritty_target(current: Seq<char>) -> Option<Seq<char>> {
    let h0 = seq![TomlEdit::Parse(current)];
    let g = if toml_slot(h0, "general"@) == TomlSlot::Missing {
        h0.push(TomlEdit::PutTable("general"@))
    } else {
        h0
    };
    if toml_first_string(g, "general"@, "import"@) == Some(alacritty_import()) {
        None
    } else {
        let set = g.push(TomlEdit::SetList("general"@, "import"@, alacritty_import()));
        let target = toml_print(set + import_removals(toml_keys(set)));
        if trim(current) == trim(target) {
            None
        } else {
            Some(target)
        }
    }
}

/// Whether `text` parses as TOML.
pub fn toml_parse_ok(text: &str) -> (r: bool)
    ensures
        r == toml_parses(text@),
{
    parse_document(text).is_some()
}

/// Whether `current` parses as TOML with no `general` item, or a table there.
pub fn alacritty_general_editable(current: &str) -> (r: bool)
    ensures
        r == (toml_parses(current@) && general_editable(current@)),
{
    match parse_document(current) {
        None => false,
        Some(d) => !(slot_of(&d, "general") == TomlSlot::Other),
    }
}

/// The content alacritty's configuration should hold, given what it holds:
/// `Err(DiffError::InvalidToml)` where it is not TOML, `Ok(None)` where
/// nothing is to change, else `Ok(Some(edited text))`. A `general` item that
/// is not a table is left out: it cannot be edited as a table.
pub fn alacritty_diff_target(current: &str) -> (r: Result<Option<String>, DiffError>)
    requires
        toml_parses(current@) ==> general_editable(current@),
    ensures
        !toml_parses(current@) ==> r matches Err(DiffError::InvalidToml),
        toml_parses(current@) ==> match spec_alacritty_target(current@) {
            None => r matches Ok(None),
            Some(x) => r matches Ok(Some(s)) && s@ == x,
        },
{
    let mut d = match parse_document(current) {
        None => return Err(DiffError::InvalidToml),
        Some(d) => d,
    };
    if slot_of(&d, "general") == TomlSlot::Missing {
        put_table(&mut d, "general");
    }
    let expected = "~/.config/alacritty/current_theme.toml";
    match first_string(&d, "general", "import") {
        Some(s) => {
            if crate::text::str_eq(s.as_str(), expected) {
                return Ok(None);
            }
        },
        None => {},
    }
    set_list(&mut d, "general", "import", expected);
    let ghost set = toml_history(d);
    let keys = keys_of(&d);
    let mut i: usize = 0;
    while i < keys.len()
        invariant
            i <= keys@.len(),
            string_views(keys@) == toml_keys(set),
            toml_history(d) == set + import_removals(toml_keys(set).take(i as int)),
        decreases keys@.len() - i,
    {
        let k = keys[i].as_str();
        assert(toml_keys(set).take(i + 1).drop_last() =~= toml_keys(set).take(i as int));
        assert(toml_keys(set).take(i + 1).last() == k@);
        if !crate::text::str_eq(k, "general") {
            remove_in(&mut d, k, "import");
            assert(set + import_removals(toml_keys(set).take(i + 1)) =~= (set + import_removals(
                toml_keys(set).take(i as int),
            )).push(TomlEdit::Remove(k@, "import"@)));
        }
        i = i + 1;
    }
    assert(toml_keys(set).take(i as int) =~= toml_keys(set));
    let target = document_text(&d);
    let a = trim_exec(&chars_of(current));
    let b = trim_exec(&chars_of(target.as_str()));
    if chars_eq(&a, &b) {
        Ok(None)
    } else {
        Ok(Some(target))
    }
}

} // verus!
