//! The TextMate theme that bat reads, built from a palette.

use vstd::prelude::*;
use vstd::string::*;
use crate::apps::BatGenerator;
use crate::palette::{ColorKey, Palette};
use crate::text::{chars_of, push_all, replace, replace_exec, string_of};

verus! {

/// A highlighting rule: its name, its scope selector, the color role of its
/// foreground, and its font style.
pub type BatRule = (&'static str, &'static str, ColorKey, &'static str);

/// The view of a rule.
pub type RuleView = (Seq<char>, Seq<char>, ColorKey, Seq<char>);

pub open spec fn rule_views(rs: Seq<BatRule>) -> Seq<RuleView> {
    rs.map_values(|r: BatRule| (r.0@, r.1@, r.2, r.3@))
}

/// The rules of the theme, in the order they are written.
pub open spec fn spec_bat_rules() -> Seq<RuleView> {
    seq![
        ("Basic text & variable names (incl. leading punctuation)"@, "text, source, variable.other.readwrite, punctuation.definition.variable"@, ColorKey::Fg, ""@),
        ("Parentheses, Brackets, Braces"@, "punctuation"@, ColorKey::Comment, ""@),
        ("Comments"@, "comment, punctuation.definition.comment"@, ColorKey::Comment, "italic"@),
        (""@, "string, punctuation.definition.string"@, ColorKey::String, ""@),
        (""@, "constant.character.escape"@, ColorKey::Fg, ""@),
        ("Booleans, constants, numbers"@, "constant.numeric, variable.other.constant, entity.name.constant, constant.language.boolean, constant.language.false, constant.language.true, keyword.other.unit.user-defined, keyword.other.unit.suffix.floating-point"@, ColorKey::Number, ""@),
        (""@, "keyword, keyword.operator.word, keyword.operator.new, variable.language.super, support.type.primitive, storage.type, storage.modifier, punctuation.definition.keyword"@, ColorKey::Keyword, ""@),
        (""@, "entity.name.tag.documentation"@, ColorKey::Keyword, ""@),
        ("Punctuation"@, "keyword.operator, punctuation.accessor, punctuation.definition.generic, meta.function.closure punctuation.section.parameters, punctuation.definition.tag, punctuation.separator.key-value"@, ColorKey::Operator, ""@),
        (""@, "entity.name.function, meta.function-call.method, support.function, support.function.misc, variable.function"@, ColorKey::Func, "italic"@),
        ("Classes"@, "entity.name.class, entity.other.inherited-class, support.class, meta.function-call.constructor, entity.name.struct"@, ColorKey::TypeName, "italic"@),
        ("Enum"@, "entity.name.enum"@, ColorKey::TypeName, "italic"@),
        ("Enum member"@, "meta.enum variable.other.readwrite, variable.other.enummember"@, ColorKey::Operator, ""@),
        ("Object properties"@, "meta.property.object"@, ColorKey::Operator, ""@),
        ("Types"@, "meta.type, meta.type-alias, support.type, entity.name.type"@, ColorKey::TypeName, "italic"@),
        ("Decorators"@, "meta.annotation variable.function, meta.annotation variable.annotation.function, meta.annotation punctuation.definition.annotation, meta.decorator, punctuation.decorator"@, ColorKey::Number, ""@),
        (""@, "variable.parameter, meta.function.parameters"@, ColorKey::Attribute, "italic"@),
        ("Built-ins"@, "constant.language, support.function.builtin"@, ColorKey::Keyword, ""@),
        (""@, "entity.other.attribute-name.documentation"@, ColorKey::Keyword, ""@),
        ("Preprocessor directives"@, "keyword.control.directive, punctuation.definition.directive"@, ColorKey::TypeName, ""@),
        ("Type parameters"@, "punctuation.definition.typeparameters"@, ColorKey::Func, ""@),
        ("Namespaces"@, "entity.name.namespace"@, ColorKey::TypeName, ""@),
        ("Property names (left hand assignments in json/yaml/css)"@, "support.type.property-name.css"@, ColorKey::Func, ""@),
        ("This/Self keyword"@, "variable.language.this, variable.language.this punctuation.definition.variable"@, ColorKey::Keyword, ""@),
        ("Object properties"@, "variable.object.property"@, ColorKey::Fg, ""@),
        ("String template interpolation"@, "string.template variable, string variable"@, ColorKey::Fg, ""@),
        ("C++ extern keyword"@, "storage.modifier.specifier.extern.cpp"@, ColorKey::Keyword, ""@),
        ("C++ scope resolution"@, "entity.name.scope-resolution.template.call.cpp, entity.name.scope-resolution.parameter.cpp, entity.name.scope-resolution.cpp, entity.name.scope-resolution.function.definition.cpp"@, ColorKey::TypeName, ""@),
        ("C++ operators"@, "storage.modifier.reference.cpp"@, ColorKey::Operator, ""@),
        ("C# Interpolated Strings"@, "meta.interpolation.cs"@, ColorKey::Fg, ""@),
        ("C# xml-style docs"@, "comment.block.documentation.cs"@, ColorKey::Fg, ""@),
        ("Classes, reflecting the className color in JSX"@, "source.css entity.other.attribute-name.class.css, entity.other.attribute-name.parent-selector.css punctuation.definition.entity.css"@, ColorKey::TypeName, ""@),
        ("Operators"@, "punctuation.separator.operator.css"@, ColorKey::Operator, ""@),
        ("Pseudo classes"@, "source.css entity.other.attribute-name.pseudo-class"@, ColorKey::Operator, ""@),
        (""@, "source.css constant.other.unicode-range"@, ColorKey::Number, ""@),
        (""@, "source.css variable.parameter.url"@, ColorKey::String, ""@),
        ("CSS vendored property names"@, "support.type.vendored.property-name"@, ColorKey::Func, ""@),
        ("Less/SCSS right-hand variables (@/$-prefixed)"@, "source.css meta.property-value variable, source.css meta.property-value variable.other.less, source.css meta.property-value variable.other.less punctuation.definition.variable.less, meta.definition.variable.scss"@, ColorKey::Attribute, ""@),
        ("CSS variables (--prefixed)"@, "source.css meta.property-list variable, meta.property-list variable.other.less, meta.property-list variable.other.less punctuation.definition.variable.less"@, ColorKey::Func, ""@),
        ("CSS Percentage values, styled the same as numbers"@, "keyword.other.unit.percentage.css"@, ColorKey::Number, ""@),
        ("CSS Attribute selectors, styled the same as strings"@, "source.css meta.attribute-selector"@, ColorKey::String, ""@),
        ("JSON/YAML keys, other left-hand assignments"@, "keyword.other.definition.ini, punctuation.support.type.property-name.json, support.type.property-name.json, punctuation.support.type.property-name.toml, support.type.property-name.toml, entity.name.tag.yaml, punctuation.support.type.property-name.yaml, support.type.property-name.yaml"@, ColorKey::Func, ""@),
        ("JSON/YAML constants"@, "constant.language.json, constant.language.yaml"@, ColorKey::Number, ""@),
        ("YAML anchors"@, "entity.name.type.anchor.yaml, variable.other.alias.yaml"@, ColorKey::TypeName, ""@),
        ("TOML tables / ini groups"@, "support.type.property-name.table, entity.name.section.group-title.ini"@, ColorKey::TypeName, ""@),
        ("TOML dates"@, "constant.other.time.datetime.offset.toml"@, ColorKey::Fg, ""@),
        ("YAML anchor puctuation"@, "punctuation.definition.anchor.yaml, punctuation.definition.alias.yaml"@, ColorKey::Fg, ""@),
        ("YAML triple dashes"@, "entity.other.document.begin.yaml"@, ColorKey::Fg, ""@),
        ("Markup Diff"@, "markup.changed.diff"@, ColorKey::Number, ""@),
        ("Diff"@, "meta.diff.header.from-file, meta.diff.header.to-file, punctuation.definition.from-file.diff, punctuation.definition.to-file.diff"@, ColorKey::Func, ""@),
        ("Diff Inserted"@, "markup.inserted.diff"@, ColorKey::String, ""@),
        ("Diff Deleted"@, "markup.deleted.diff"@, ColorKey::Keyword, ""@),
        ("dotenv left-hand side assignments"@, "variable.other.env"@, ColorKey::Func, ""@),
        ("dotenv reference to existing env variable"@, "string.quoted variable.other.env"@, ColorKey::Fg, ""@),
        ("GDScript functions"@, "support.function.builtin.gdscript"@, ColorKey::Func, ""@),
        ("GDScript constants"@, "constant.language.gdscript"@, ColorKey::Number, ""@),
        ("Comment keywords"@, "comment meta.annotation.go"@, ColorKey::Attribute, ""@),
        ("go:embed, go:build, etc."@, "comment meta.annotation.parameters.go"@, ColorKey::Number, ""@),
        ("Go constants (nil, true, false)"@, "constant.language.go"@, ColorKey::Number, ""@),
        ("GraphQL variables"@, "variable.graphql"@, ColorKey::Fg, ""@),
        ("GraphQL aliases"@, "string.unquoted.alias.graphql"@, ColorKey::Attribute, ""@),
        ("GraphQL enum members"@, "constant.character.enum.graphql"@, ColorKey::Operator, ""@),
        ("GraphQL field in types"@, "meta.objectvalues.graphql constant.object.key.graphql string.unquoted.graphql"@, ColorKey::Attribute, ""@),
        ("HTML/XML DOCTYPE as keyword"@, "keyword.other.doctype, meta.tag.sgml.doctype punctuation.definition.tag, meta.tag.metadata.doctype entity.name.tag, meta.tag.metadata.doctype punctuation.definition.tag"@, ColorKey::Keyword, ""@),
        ("HTML/XML-like <tags/>"@, "entity.name.tag"@, ColorKey::Func, ""@),
        ("Special characters like &amp;"@, "text.html constant.character.entity, text.html constant.character.entity punctuation, constant.character.entity.xml, constant.character.entity.xml punctuation, constant.character.entity.js.jsx, constant.charactger.entity.js.jsx punctuation, constant.character.entity.tsx, constant.character.entity.tsx punctuation"@, ColorKey::Keyword, ""@),
        ("HTML/XML tag attribute values"@, "entity.other.attribute-name"@, ColorKey::TypeName, ""@),
        ("Components"@, "support.class.component, support.class.component.jsx, support.class.component.tsx, support.class.component.vue"@, ColorKey::Fg, ""@),
        ("Annotations"@, "punctuation.definition.annotation, storage.type.annotation"@, ColorKey::Number, ""@),
        ("Java enums"@, "constant.other.enum.java"@, ColorKey::Operator, ""@),
        ("Java imports"@, "storage.modifier.import.java"@, ColorKey::Fg, ""@),
        ("Exported Variable"@, "meta.export variable.other.readwrite.js"@, ColorKey::Attribute, ""@),
        ("JS/TS constants & properties"@, "variable.other.constant.js, variable.other.constant.ts, variable.other.property.js, variable.other.property.ts"@, ColorKey::Fg, ""@),
        ("JSDoc; these are mainly params, so styled as such"@, "variable.other.jsdoc, comment.block.documentation variable.other"@, ColorKey::Attribute, ""@),
        (""@, "support.type.object.console.js"@, ColorKey::Fg, ""@),
        ("Node constants as keywords (module, etc.)"@, "support.constant.node, support.type.object.module.js"@, ColorKey::Keyword, ""@),
        ("implements as keyword"@, "storage.modifier.implements"@, ColorKey::Keyword, ""@),
        ("Builtin types"@, "constant.language.null.js, constant.language.null.ts, constant.language.undefined.js, constant.language.undefined.ts, support.type.builtin.ts"@, ColorKey::Keyword, ""@),
        (""@, "variable.parameter.generic"@, ColorKey::TypeName, ""@),
        ("Arrow functions"@, "keyword.declaration.function.arrow.js, storage.type.function.arrow.ts"@, ColorKey::Operator, ""@),
        ("Decorator punctuations (decorators inherit from blue functions, instead of styleguide peach)"@, "punctuation.decorator.ts"@, ColorKey::Func, "italic"@),
        ("Extra JS/TS keywords"@, "keyword.operator.expression.in.js, keyword.operator.expression.in.ts, keyword.operator.expression.infer.ts, keyword.operator.expression.instanceof.js, keyword.operator.expression.instanceof.ts, keyword.operator.expression.is, keyword.operator.expression.keyof.ts, keyword.operator.expression.of.js, keyword.operator.expression.of.ts, keyword.operator.expression.typeof.ts"@, ColorKey::Keyword, ""@),
        ("Julia macros"@, "support.function.macro.julia"@, ColorKey::Operator, "italic"@),
        ("Julia language constants (true, false)"@, "constant.language.julia"@, ColorKey::Number, ""@),
        ("Julia other constants (these seem to be arguments inside arrays)"@, "constant.other.symbol.julia"@, ColorKey::Attribute, ""@),
        ("LaTeX preamble"@, "text.tex keyword.control.preamble"@, ColorKey::Operator, ""@),
        ("LaTeX be functions"@, "text.tex support.function.be"@, ColorKey::Func, ""@),
        ("LaTeX math"@, "constant.other.general.math.tex"@, ColorKey::Attribute, ""@),
        ("Liquid Builtin Objects & User Defined Variables"@, "variable.language.liquid"@, ColorKey::Fg, ""@),
        ("Lua docstring keywords"@, "comment.line.double-dash.documentation.lua storage.type.annotation.lua"@, ColorKey::Keyword, ""@),
        ("Lua docstring variables"@, "comment.line.double-dash.documentation.lua entity.name.variable.lua, comment.line.double-dash.documentation.lua variable.lua"@, ColorKey::Fg, ""@),
        (""@, "heading.1.markdown punctuation.definition.heading.markdown, heading.1.markdown, heading.1.quarto punctuation.definition.heading.quarto, heading.1.quarto, markup.heading.atx.1.mdx, markup.heading.atx.1.mdx punctuation.definition.heading.mdx, markup.heading.setext.1.markdown, markup.heading.heading-0.asciidoc"@, ColorKey::Keyword, ""@),
        (""@, "heading.2.markdown punctuation.definition.heading.markdown, heading.2.markdown, heading.2.quarto punctuation.definition.heading.quarto, heading.2.quarto, markup.heading.atx.2.mdx, markup.heading.atx.2.mdx punctuation.definition.heading.mdx, markup.heading.setext.2.markdown, markup.heading.heading-1.asciidoc"@, ColorKey::Number, ""@),
        (""@, "heading.3.markdown punctuation.definition.heading.markdown, heading.3.markdown, heading.3.quarto punctuation.definition.heading.quarto, heading.3.quarto, markup.heading.atx.3.mdx, markup.heading.atx.3.mdx punctuation.definition.heading.mdx, markup.heading.heading-2.asciidoc"@, ColorKey::TypeName, ""@),
        (""@, "heading.4.markdown punctuation.definition.heading.markdown, heading.4.markdown, heading.4.quarto punctuation.definition.heading.quarto, heading.4.quarto, markup.heading.atx.4.mdx, markup.heading.atx.4.mdx punctuation.definition.heading.mdx, markup.heading.heading-3.asciidoc"@, ColorKey::String, ""@),
        (""@, "heading.5.markdown punctuation.definition.heading.markdown, heading.5.markdown, heading.5.quarto punctuation.definition.heading.quarto, heading.5.quarto, markup.heading.atx.5.mdx, markup.heading.atx.5.mdx punctuation.definition.heading.mdx, markup.heading.heading-4.asciidoc"@, ColorKey::Func, ""@),
        (""@, "heading.6.markdown punctuation.definition.heading.markdown, heading.6.markdown, heading.6.quarto punctuation.definition.heading.quarto, heading.6.quarto, markup.heading.atx.6.mdx, markup.heading.atx.6.mdx punctuation.definition.heading.mdx, markup.heading.heading-5.asciidoc"@, ColorKey::Variable, ""@),
        (""@, "markup.bold"@, ColorKey::Keyword, "bold"@),
        (""@, "markup.italic"@, ColorKey::Keyword, "italic"@),
        (""@, "markup.strikethrough"@, ColorKey::Fg, "strikethrough"@),
        ("Markdown auto links"@, "punctuation.definition.link, markup.underline.link"@, ColorKey::Func, ""@),
        ("Markdown links"@, "text.html.markdown punctuation.definition.link.title, text.html.quarto punctuation.definition.link.title, string.other.link.title.markdown, string.other.link.title.quarto, markup.link, punctuation.definition.constant.markdown, punctuation.definition.constant.quarto, constant.other.reference.link.markdown, constant.other.reference.link.quarto, markup.substitution.attribute-reference"@, ColorKey::Variable, ""@),
        ("Markdown code spans"@, "punctuation.definition.raw.markdown, punctuation.definition.raw.quarto, markup.inline.raw.string.markdown, markup.inline.raw.string.quarto, markup.raw.block.markdown, markup.raw.block.quarto"@, ColorKey::String, ""@),
        ("Markdown triple backtick language identifier"@, "fenced_code.block.language"@, ColorKey::Func, ""@),
        ("Markdown triple backticks"@, "markup.fenced_code.block punctuation.definition, markup.raw support.asciidoc"@, ColorKey::Comment, ""@),
        ("Markdown quotes"@, "markup.quote, punctuation.definition.quote.begin"@, ColorKey::Fg, ""@),
        ("Markdown separators"@, "meta.separator.markdown"@, ColorKey::Operator, ""@),
        ("Markdown list bullets"@, "punctuation.definition.list.begin.markdown, punctuation.definition.list.begin.quarto, markup.list.bullet"@, ColorKey::Operator, ""@),
        ("Nix attribute names"@, "entity.other.attribute-name.multipart.nix, entity.other.attribute-name.single.nix"@, ColorKey::Func, ""@),
        ("Nix parameter names"@, "variable.parameter.name.nix"@, ColorKey::Fg, ""@),
        ("Nix interpolated parameter names"@, "meta.embedded variable.parameter.name.nix"@, ColorKey::Variable, ""@),
        ("Nix paths"@, "string.unquoted.path.nix"@, ColorKey::Fg, ""@),
        ("PHP Attributes"@, "support.attribute.builtin, meta.attribute.php"@, ColorKey::TypeName, ""@),
        ("PHP Parameters (needed for the leading dollar sign)"@, "meta.function.parameters.php punctuation.definition.variable.php"@, ColorKey::Attribute, ""@),
        ("PHP Constants (null, __FILE__, etc.)"@, "constant.language.php"@, ColorKey::Keyword, ""@),
        ("PHP functions"@, "text.html.php support.function"@, ColorKey::Func, ""@),
        ("Python argument functions reset to text, otherwise they inherit blue from function-call"@, "support.variable.magic.python, meta.function-call.arguments.python"@, ColorKey::Fg, ""@),
        ("Python double underscore functions"@, "support.function.magic.python"@, ColorKey::Func, "italic"@),
        ("Python `self` keyword"@, "variable.parameter.function.language.special.self.python, variable.language.special.self.python"@, ColorKey::Keyword, "italic"@),
        ("python keyword flow/logical (for ... in)"@, "keyword.control.flow.python, keyword.operator.logical.python"@, ColorKey::Keyword, ""@),
        ("python storage type"@, "storage.type.function.python"@, ColorKey::Keyword, ""@),
        ("python function support"@, "support.token.decorator.python, meta.function.decorator.identifier.python"@, ColorKey::Func, ""@),
        ("python function calls"@, "meta.function-call.python"@, ColorKey::Func, ""@),
        ("python function decorators"@, "entity.name.function.decorator.python, punctuation.definition.decorator.python"@, ColorKey::Number, "italic"@),
        ("python placeholder reset to normal string"@, "constant.character.format.placeholder.other.python"@, ColorKey::Fg, ""@),
        ("Python exception & builtins such as exit()"@, "support.type.exception.python, support.function.builtin.python"@, ColorKey::Number, ""@),
        ("entity.name.type"@, "support.type.python"@, ColorKey::Keyword, ""@),
        ("python constants (True/False)"@, "constant.language.python"@, ColorKey::Number, ""@),
        ("Arguments accessed later in the function body"@, "meta.indexed-name.python, meta.item-access.python"@, ColorKey::Attribute, "italic"@),
        ("Python f-strings/binary/unicode storage types"@, "storage.type.string.python"@, ColorKey::String, "italic"@),
        ("Regex string begin/end in JS/TS"@, "string.regexp punctuation.definition.string.begin, string.regexp punctuation.definition.string.end"@, ColorKey::Fg, ""@),
        ("Regex anchors (^, $)"@, "keyword.control.anchor.regexp"@, ColorKey::Keyword, ""@),
        ("Regex regular string match"@, "string.regexp.ts"@, ColorKey::Fg, ""@),
        ("Regex group parenthesis & backreference"@, "punctuation.definition.group.regexp, keyword.other.back-reference.regexp"@, ColorKey::String, ""@),
        ("Regex character class []"@, "punctuation.definition.character-class.regexp"@, ColorKey::TypeName, ""@),
        ("Regex character classes"@, "constant.other.character-class.regexp"@, ColorKey::Fg, ""@),
        ("Regex range"@, "constant.other.character-class.range.regexp"@, ColorKey::Attribute, ""@),
        ("Regex quantifier"@, "keyword.operator.quantifier.regexp"@, ColorKey::Operator, ""@),
        ("Regex constant/numeric"@, "constant.character.numeric.regexp"@, ColorKey::Number, ""@),
        ("Regex lookaheads, negative lookaheads, lookbehinds, negative lookbehinds"@, "punctuation.definition.group.no-capture.regexp, meta.assertion.look-ahead.regexp, meta.assertion.negative-look-ahead.regexp"@, ColorKey::Func, ""@),
        ("Rust attribute"@, "meta.annotation.rust, meta.annotation.rust punctuation, meta.attribute.rust, punctuation.definition.attribute.rust"@, ColorKey::TypeName, "italic"@),
        ("Rust keyword"@, "entity.name.function.macro.rules.rust, storage.type.module.rust, storage.modifier.rust, storage.type.struct.rust, storage.type.enum.rust, storage.type.trait.rust, storage.type.union.rust, storage.type.impl.rust, storage.type.rust, storage.type.function.rust, storage.type.type.rust"@, ColorKey::Keyword, ""@),
        ("Rust u/i32, u/i64, etc."@, "entity.name.type.numeric.rust"@, ColorKey::Keyword, ""@),
        ("Rust generic"@, "meta.generic.rust"@, ColorKey::Number, ""@),
        ("Rust impl"@, "entity.name.impl.rust"@, ColorKey::TypeName, "italic"@),
        ("Rust module"@, "entity.name.module.rust"@, ColorKey::Number, ""@),
        ("Rust trait"@, "entity.name.trait.rust"@, ColorKey::TypeName, "italic"@),
        ("Rust struct"@, "storage.type.source.rust"@, ColorKey::TypeName, ""@),
        ("Rust union"@, "entity.name.union.rust"@, ColorKey::TypeName, ""@),
        ("Rust enum member"@, "meta.enum.rust storage.type.source.rust"@, ColorKey::Operator, ""@),
        ("Rust macro"@, "support.macro.rust, meta.macro.rust support.function.rust, entity.name.function.macro.rust"@, ColorKey::Func, "italic"@),
        ("Rust lifetime"@, "storage.modifier.lifetime.rust, entity.name.type.lifetime"@, ColorKey::Func, "italic"@),
        ("Rust string formatting"@, "string.quoted.double.rust constant.other.placeholder.rust"@, ColorKey::Fg, ""@),
        ("Rust return type generic"@, "meta.function.return-type.rust meta.generic.rust storage.type.rust"@, ColorKey::Fg, ""@),
        ("Rust functions"@, "meta.function.call.rust"@, ColorKey::Func, ""@),
        ("Rust angle brackets"@, "punctuation.brackets.angle.rust"@, ColorKey::Func, ""@),
        ("Rust constants"@, "constant.other.caps.rust"@, ColorKey::Number, ""@),
        ("Rust function parameters"@, "meta.function.definition.rust variable.other.rust"@, ColorKey::Attribute, ""@),
        ("Rust closure variables"@, "meta.function.call.rust variable.other.rust"@, ColorKey::Fg, ""@),
        ("Rust self"@, "variable.language.self.rust"@, ColorKey::Keyword, ""@),
        ("Rust metavariable names"@, "variable.other.metavariable.name.rust, meta.macro.metavariable.rust keyword.operator.macro.dollar.rust"@, ColorKey::Fg, ""@),
        ("Shell shebang"@, "comment.line.shebang, comment.line.shebang punctuation.definition.comment, comment.line.shebang, punctuation.definition.comment.shebang.shell, meta.shebang.shell"@, ColorKey::Fg, "italic"@),
        ("Shell shebang command"@, "comment.line.shebang constant.language"@, ColorKey::Operator, "italic"@),
        ("Shell interpolated command"@, "meta.function-call.arguments.shell punctuation.definition.variable.shell, meta.function-call.arguments.shell punctuation.section.interpolation, meta.function-call.arguments.shell punctuation.definition.variable.shell, meta.function-call.arguments.shell punctuation.section.interpolation"@, ColorKey::Keyword, ""@),
        ("Shell interpolated command variable"@, "meta.string meta.interpolation.parameter.shell variable.other.readwrite"@, ColorKey::Number, "italic"@),
        (""@, "source.shell punctuation.section.interpolation, punctuation.definition.evaluation.backticks.shell"@, ColorKey::Operator, ""@),
        ("Shell EOF"@, "entity.name.tag.heredoc.shell"@, ColorKey::Keyword, ""@),
        ("Shell quoted variable"@, "string.quoted.double.shell variable.other.normal.shell"@, ColorKey::Fg, ""@),
        (""@, "markup.heading.typst"@, ColorKey::Keyword, ""@),
        ("JSON Keys"@, "source.json meta.mapping.key string"@, ColorKey::Func, ""@),
        ("JSON key surrounding quotes"@, "source.json meta.mapping.key punctuation.definition.string.begin, source.json meta.mapping.key punctuation.definition.string.end"@, ColorKey::Comment, ""@),
        (""@, "markup.heading.synopsis.man, markup.heading.title.man, markup.heading.other.man, markup.heading.env.man"@, ColorKey::Keyword, ""@),
        (""@, "markup.heading.commands.man"@, ColorKey::Func, ""@),
        (""@, "markup.heading.env.man"@, ColorKey::Fg, ""@),
        ("Man page options"@, "entity.name"@, ColorKey::Operator, ""@),
        (""@, "markup.heading.1.markdown"@, ColorKey::Keyword, ""@),
        (""@, "markup.heading.2.markdown"@, ColorKey::Number, ""@),
        (""@, "markup.heading.markdown"@, ColorKey::TypeName, ""@),
    ]
}

/// The rules of the theme, in the order they are written.
pub fn bat_rules() -> (r: [BatRule; 178])
    ensures
        rule_views(r@) == spec_bat_rules(),
{
    let r: [BatRule; 178] = [
        ("Basic text & variable names (incl. leading punctuation)", "text, source, variable.other.readwrite, punctuation.definition.variable", ColorKey::Fg, ""),
        ("Parentheses, Brackets, Braces", "punctuation", ColorKey::Comment, ""),
        ("Comments", "comment, punctuation.definition.comment", ColorKey::Comment, "italic"),
        ("", "string, punctuation.definition.string", ColorKey::String, ""),
        ("", "constant.character.escape", ColorKey::Fg, ""),
        ("Booleans, constants, numbers", "constant.numeric, variable.other.constant, entity.name.constant, constant.language.boolean, constant.language.false, constant.language.true, keyword.other.unit.user-defined, keyword.other.unit.suffix.floating-point", ColorKey::Number, ""),
        ("", "keyword, keyword.operator.word, keyword.operator.new, variable.language.super, support.type.primitive, storage.type, storage.modifier, punctuation.definition.keyword", ColorKey::Keyword, ""),
        ("", "entity.name.tag.documentation", ColorKey::Keyword, ""),
        ("Punctuation", "keyword.operator, punctuation.accessor, punctuation.definition.generic, meta.function.closure punctuation.section.parameters, punctuation.definition.tag, punctuation.separator.key-value", ColorKey::Operator, ""),
        ("", "entity.name.function, meta.function-call.method, support.function, support.function.misc, variable.function", ColorKey::Func, "italic"),
        ("Classes", "entity.name.class, entity.other.inherited-class, support.class, meta.function-call.constructor, entity.name.struct", ColorKey::TypeName, "italic"),
        ("Enum", "entity.name.enum", ColorKey::TypeName, "italic"),
        ("Enum member", "meta.enum variable.other.readwrite, variable.other.enummember", ColorKey::Operator, ""),
        ("Object properties", "meta.property.object", ColorKey::Operator, ""),
        ("Types", "meta.type, meta.type-alias, support.type, entity.name.type", ColorKey::TypeName, "italic"),
        ("Decorators", "meta.annotation variable.function, meta.annotation variable.annotation.function, meta.annotation punctuation.definition.annotation, meta.decorator, punctuation.decorator", ColorKey::Number, ""),
        ("", "variable.parameter, meta.function.parameters", ColorKey::Attribute, "italic"),
        ("Built-ins", "constant.language, support.function.builtin", ColorKey::Keyword, ""),
        ("", "entity.other.attribute-name.documentation", ColorKey::Keyword, ""),
        ("Preprocessor directives", "keyword.control.directive, punctuation.definition.directive", ColorKey::TypeName, ""),
        ("Type parameters", "punctuation.definition.typeparameters", ColorKey::Func, ""),
        ("Namespaces", "entity.name.namespace", ColorKey::TypeName, ""),
        ("Property names (left hand assignments in json/yaml/css)", "support.type.property-name.css", ColorKey::Func, ""),
        ("This/Self keyword", "variable.language.this, variable.language.this punctuation.definition.variable", ColorKey::Keyword, ""),
        ("Object properties", "variable.object.property", ColorKey::Fg, ""),
        ("String template interpolation", "string.template variable, string variable", ColorKey::Fg, ""),
        ("C++ extern keyword", "storage.modifier.specifier.extern.cpp", ColorKey::Keyword, ""),
        ("C++ scope resolution", "entity.name.scope-resolution.template.call.cpp, entity.name.scope-resolution.parameter.cpp, entity.name.scope-resolution.cpp, entity.name.scope-resolution.function.definition.cpp", ColorKey::TypeName, ""),
        ("C++ operators", "storage.modifier.reference.cpp", ColorKey::Operator, ""),
        ("C# Interpolated Strings", "meta.interpolation.cs", ColorKey::Fg, ""),
        ("C# xml-style docs", "comment.block.documentation.cs", ColorKey::Fg, ""),
        ("Classes, reflecting the className color in JSX", "source.css entity.other.attribute-name.class.css, entity.other.attribute-name.parent-selector.css punctuation.definition.entity.css", ColorKey::TypeName, ""),
        ("Operators", "punctuation.separator.operator.css", ColorKey::Operator, ""),
        ("Pseudo classes", "source.css entity.other.attribute-name.pseudo-class", ColorKey::Operator, ""),
        ("", "source.css constant.other.unicode-range", ColorKey::Number, ""),
        ("", "source.css variable.parameter.url", ColorKey::String, ""),
        ("CSS vendored property names", "support.type.vendored.property-name", ColorKey::Func, ""),
        ("Less/SCSS right-hand variables (@/$-prefixed)", "source.css meta.property-value variable, source.css meta.property-value variable.other.less, source.css meta.property-value variable.other.less punctuation.definition.variable.less, meta.definition.variable.scss", ColorKey::Attribute, ""),
        ("CSS variables (--prefixed)", "source.css meta.property-list variable, meta.property-list variable.other.less, meta.property-list variable.other.less punctuation.definition.variable.less", ColorKey::Func, ""),
        ("CSS Percentage values, styled the same as numbers", "keyword.other.unit.percentage.css", ColorKey::Number, ""),
        ("CSS Attribute selectors, styled the same as strings", "source.css meta.attribute-selector", ColorKey::String, ""),
        ("JSON/YAML keys, other left-hand assignments", "keyword.other.definition.ini, punctuation.support.type.property-name.json, support.type.property-name.json, punctuation.support.type.property-name.toml, support.type.property-name.toml, entity.name.tag.yaml, punctuation.support.type.property-name.yaml, support.type.property-name.yaml", ColorKey::Func, ""),
        ("JSON/YAML constants", "constant.language.json, constant.language.yaml", ColorKey::Number, ""),
        ("YAML anchors", "entity.name.type.anchor.yaml, variable.other.alias.yaml", ColorKey::TypeName, ""),
        ("TOML tables / ini groups", "support.type.property-name.table, entity.name.section.group-title.ini", ColorKey::TypeName, ""),
        ("TOML dates", "constant.other.time.datetime.offset.toml", ColorKey::Fg, ""),
        ("YAML anchor puctuation", "punctuation.definition.anchor.yaml, punctuation.definition.alias.yaml", ColorKey::Fg, ""),
        ("YAML triple dashes", "entity.other.document.begin.yaml", ColorKey::Fg, ""),
        ("Markup Diff", "markup.changed.diff", ColorKey::Number, ""),
        ("Diff", "meta.diff.header.from-file, meta.diff.header.to-file, punctuation.definition.from-file.diff, punctuation.definition.to-file.diff", ColorKey::Func, ""),
        ("Diff Inserted", "markup.inserted.diff", ColorKey::String, ""),
        ("Diff Deleted", "markup.deleted.diff", ColorKey::Keyword, ""),
        ("dotenv left-hand side assignments", "variable.other.env", ColorKey::Func, ""),
        ("dotenv reference to existing env variable", "string.quoted variable.other.env", ColorKey::Fg, ""),
        ("GDScript functions", "support.function.builtin.gdscript", ColorKey::Func, ""),
        ("GDScript constants", "constant.language.gdscript", ColorKey::Number, ""),
        ("Comment keywords", "comment meta.annotation.go", ColorKey::Attribute, ""),
        ("go:embed, go:build, etc.", "comment meta.annotation.parameters.go", ColorKey::Number, ""),
        ("Go constants (nil, true, false)", "constant.language.go", ColorKey::Number, ""),
        ("GraphQL variables", "variable.graphql", ColorKey::Fg, ""),
        ("GraphQL aliases", "string.unquoted.alias.graphql", ColorKey::Attribute, ""),
        ("GraphQL enum members", "constant.character.enum.graphql", ColorKey::Operator, ""),
        ("GraphQL field in types", "meta.objectvalues.graphql constant.object.key.graphql string.unquoted.graphql", ColorKey::Attribute, ""),
        ("HTML/XML DOCTYPE as keyword", "keyword.other.doctype, meta.tag.sgml.doctype punctuation.definition.tag, meta.tag.metadata.doctype entity.name.tag, meta.tag.metadata.doctype punctuation.definition.tag", ColorKey::Keyword, ""),
        ("HTML/XML-like <tags/>", "entity.name.tag", ColorKey::Func, ""),
        ("Special characters like &amp;", "text.html constant.character.entity, text.html constant.character.entity punctuation, constant.character.entity.xml, constant.character.entity.xml punctuation, constant.character.entity.js.jsx, constant.charactger.entity.js.jsx punctuation, constant.character.entity.tsx, constant.character.entity.tsx punctuation", ColorKey::Keyword, ""),
        ("HTML/XML tag attribute values", "entity.other.attribute-name", ColorKey::TypeName, ""),
        ("Components", "support.class.component, support.class.component.jsx, support.class.component.tsx, support.class.component.vue", ColorKey::Fg, ""),
        ("Annotations", "punctuation.definition.annotation, storage.type.annotation", ColorKey::Number, ""),
        ("Java enums", "constant.other.enum.java", ColorKey::Operator, ""),
        ("Java imports", "storage.modifier.import.java", ColorKey::Fg, ""),
        ("Exported Variable", "meta.export variable.other.readwrite.js", ColorKey::Attribute, ""),
        ("JS/TS constants & properties", "variable.other.constant.js, variable.other.constant.ts, variable.other.property.js, variable.other.property.ts", ColorKey::Fg, ""),
        ("JSDoc; these are mainly params, so styled as such", "variable.other.jsdoc, comment.block.documentation variable.other", ColorKey::Attribute, ""),
        ("", "support.type.object.console.js", ColorKey::Fg, ""),
        ("Node constants as keywords (module, etc.)", "support.constant.node, support.type.object.module.js", ColorKey::Keyword, ""),
        ("implements as keyword", "storage.modifier.implements", ColorKey::Keyword, ""),
        ("Builtin types", "constant.language.null.js, constant.language.null.ts, constant.language.undefined.js, constant.language.undefined.ts, support.type.builtin.ts", ColorKey::Keyword, ""),
        ("", "variable.parameter.generic", ColorKey::TypeName, ""),
        ("Arrow functions", "keyword.declaration.function.arrow.js, storage.type.function.arrow.ts", ColorKey::Operator, ""),
        ("Decorator punctuations (decorators inherit from blue functions, instead of styleguide peach)", "punctuation.decorator.ts", ColorKey::Func, "italic"),
        ("Extra JS/TS keywords", "keyword.operator.expression.in.js, keyword.operator.expression.in.ts, keyword.operator.expression.infer.ts, keyword.operator.expression.instanceof.js, keyword.operator.expression.instanceof.ts, keyword.operator.expression.is, keyword.operator.expression.keyof.ts, keyword.operator.expression.of.js, keyword.operator.expression.of.ts, keyword.operator.expression.typeof.ts", ColorKey::Keyword, ""),
        ("Julia macros", "support.function.macro.julia", ColorKey::Operator, "italic"),
        ("Julia language constants (true, false)", "constant.language.julia", ColorKey::Number, ""),
        ("Julia other constants (these seem to be arguments inside arrays)", "constant.other.symbol.julia", ColorKey::Attribute, ""),
        ("LaTeX preamble", "text.tex keyword.control.preamble", ColorKey::Operator, ""),
        ("LaTeX be functions", "text.tex support.function.be", ColorKey::Func, ""),
        ("LaTeX math", "constant.other.general.math.tex", ColorKey::Attribute, ""),
        ("Liquid Builtin Objects & User Defined Variables", "variable.language.liquid", ColorKey::Fg, ""),
        ("Lua docstring keywords", "comment.line.double-dash.documentation.lua storage.type.annotation.lua", ColorKey::Keyword, ""),
        ("Lua docstring variables", "comment.line.double-dash.documentation.lua entity.name.variable.lua, comment.line.double-dash.documentation.lua variable.lua", ColorKey::Fg, ""),
        ("", "heading.1.markdown punctuation.definition.heading.markdown, heading.1.markdown, heading.1.quarto punctuation.definition.heading.quarto, heading.1.quarto, markup.heading.atx.1.mdx, markup.heading.atx.1.mdx punctuation.definition.heading.mdx, markup.heading.setext.1.markdown, markup.heading.heading-0.asciidoc", ColorKey::Keyword, ""),
        ("", "heading.2.markdown punctuation.definition.heading.markdown, heading.2.markdown, heading.2.quarto punctuation.definition.heading.quarto, heading.2.quarto, markup.heading.atx.2.mdx, markup.heading.atx.2.mdx punctuation.definition.heading.mdx, markup.heading.setext.2.markdown, markup.heading.heading-1.asciidoc", ColorKey::Number, ""),
        ("", "heading.3.markdown punctuation.definition.heading.markdown, heading.3.markdown, heading.3.quarto punctuation.definition.heading.quarto, heading.3.quarto, markup.heading.atx.3.mdx, markup.heading.atx.3.mdx punctuation.definition.heading.mdx, markup.heading.heading-2.asciidoc", ColorKey::TypeName, ""),
        ("", "heading.4.markdown punctuation.definition.heading.markdown, heading.4.markdown, heading.4.quarto punctuation.definition.heading.quarto, heading.4.quarto, markup.heading.atx.4.mdx, markup.heading.atx.4.mdx punctuation.definition.heading.mdx, markup.heading.heading-3.asciidoc", ColorKey::String, ""),
        ("", "heading.5.markdown punctuation.definition.heading.markdown, heading.5.markdown, heading.5.quarto punctuation.definition.heading.quarto, heading.5.quarto, markup.heading.atx.5.mdx, markup.heading.atx.5.mdx punctuation.definition.heading.mdx, markup.heading.heading-4.asciidoc", ColorKey::Func, ""),
        ("", "heading.6.markdown punctuation.definition.heading.markdown, heading.6.markdown, heading.6.quarto punctuation.definition.heading.quarto, heading.6.quarto, markup.heading.atx.6.mdx, markup.heading.atx.6.mdx punctuation.definition.heading.mdx, markup.heading.heading-5.asciidoc", ColorKey::Variable, ""),
        ("", "markup.bold", ColorKey::Keyword, "bold"),
        ("", "markup.italic", ColorKey::Keyword, "italic"),
        ("", "markup.strikethrough", ColorKey::Fg, "strikethrough"),
        ("Markdown auto links", "punctuation.definition.link, markup.underline.link", ColorKey::Func, ""),
        ("Markdown links", "text.html.markdown punctuation.definition.link.title, text.html.quarto punctuation.definition.link.title, string.other.link.title.markdown, string.other.link.title.quarto, markup.link, punctuation.definition.constant.markdown, punctuation.definition.constant.quarto, constant.other.reference.link.markdown, constant.other.reference.link.quarto, markup.substitution.attribute-reference", ColorKey::Variable, ""),
        ("Markdown code spans", "punctuation.definition.raw.markdown, punctuation.definition.raw.quarto, markup.inline.raw.string.markdown, markup.inline.raw.string.quarto, markup.raw.block.markdown, markup.raw.block.quarto", ColorKey::String, ""),
        ("Markdown triple backtick language identifier", "fenced_code.block.language", ColorKey::Func, ""),
        ("Markdown triple backticks", "markup.fenced_code.block punctuation.definition, markup.raw support.asciidoc", ColorKey::Comment, ""),
        ("Markdown quotes", "markup.quote, punctuation.definition.quote.begin", ColorKey::Fg, ""),
        ("Markdown separators", "meta.separator.markdown", ColorKey::Operator, ""),
        ("Markdown list bullets", "punctuation.definition.list.begin.markdown, punctuation.definition.list.begin.quarto, markup.list.bullet", ColorKey::Operator, ""),
        ("Nix attribute names", "entity.other.attribute-name.multipart.nix, entity.other.attribute-name.single.nix", ColorKey::Func, ""),
        ("Nix parameter names", "variable.parameter.name.nix", ColorKey::Fg, ""),
        ("Nix interpolated parameter names", "meta.embedded variable.parameter.name.nix", ColorKey::Variable, ""),
        ("Nix paths", "string.unquoted.path.nix", ColorKey::Fg, ""),
        ("PHP Attributes", "support.attribute.builtin, meta.attribute.php", ColorKey::TypeName, ""),
        ("PHP Parameters (needed for the leading dollar sign)", "meta.function.parameters.php punctuation.definition.variable.php", ColorKey::Attribute, ""),
        ("PHP Constants (null, __FILE__, etc.)", "constant.language.php", ColorKey::Keyword, ""),
        ("PHP functions", "text.html.php support.function", ColorKey::Func, ""),
        ("Python argument functions reset to text, otherwise they inherit blue from function-call", "support.variable.magic.python, meta.function-call.arguments.python", ColorKey::Fg, ""),
        ("Python double underscore functions", "support.function.magic.python", ColorKey::Func, "italic"),
        ("Python `self` keyword", "variable.parameter.function.language.special.self.python, variable.language.special.self.python", ColorKey::Keyword, "italic"),
        ("python keyword flow/logical (for ... in)", "keyword.control.flow.python, keyword.operator.logical.python", ColorKey::Keyword, ""),
        ("python storage type", "storage.type.function.python", ColorKey::Keyword, ""),
        ("python function support", "support.token.decorator.python, meta.function.decorator.identifier.python", ColorKey::Func, ""),
        ("python function calls", "meta.function-call.python", ColorKey::Func, ""),
        ("python function decorators", "entity.name.function.decorator.python, punctuation.definition.decorator.python", ColorKey::Number, "italic"),
        ("python placeholder reset to normal string", "constant.character.format.placeholder.other.python", ColorKey::Fg, ""),
        ("Python exception & builtins such as exit()", "support.type.exception.python, support.function.builtin.python", ColorKey::Number, ""),
        ("entity.name.type", "support.type.python", ColorKey::Keyword, ""),
        ("python constants (True/False)", "constant.language.python", ColorKey::Number, ""),
        ("Arguments accessed later in the function body", "meta.indexed-name.python, meta.item-access.python", ColorKey::Attribute, "italic"),
        ("Python f-strings/binary/unicode storage types", "storage.type.string.python", ColorKey::String, "italic"),
        ("Regex string begin/end in JS/TS", "string.regexp punctuation.definition.string.begin, string.regexp punctuation.definition.string.end", ColorKey::Fg, ""),
        ("Regex anchors (^, $)", "keyword.control.anchor.regexp", ColorKey::Keyword, ""),
        ("Regex regular string match", "string.regexp.ts", ColorKey::Fg, ""),
        ("Regex group parenthesis & backreference", "punctuation.definition.group.regexp, keyword.other.back-reference.regexp", ColorKey::String, ""),
        ("Regex character class []", "punctuation.definition.character-class.regexp", ColorKey::TypeName, ""),
        ("Regex character classes", "constant.other.character-class.regexp", ColorKey::Fg, ""),
        ("Regex range", "constant.other.character-class.range.regexp", ColorKey::Attribute, ""),
        ("Regex quantifier", "keyword.operator.quantifier.regexp", ColorKey::Operator, ""),
        ("Regex constant/numeric", "constant.character.numeric.regexp", ColorKey::Number, ""),
        ("Regex lookaheads, negative lookaheads, lookbehinds, negative lookbehinds", "punctuation.definition.group.no-capture.regexp, meta.assertion.look-ahead.regexp, meta.assertion.negative-look-ahead.regexp", ColorKey::Func, ""),
        ("Rust attribute", "meta.annotation.rust, meta.annotation.rust punctuation, meta.attribute.rust, punctuation.definition.attribute.rust", ColorKey::TypeName, "italic"),
        ("Rust keyword", "entity.name.function.macro.rules.rust, storage.type.module.rust, storage.modifier.rust, storage.type.struct.rust, storage.type.enum.rust, storage.type.trait.rust, storage.type.union.rust, storage.type.impl.rust, storage.type.rust, storage.type.function.rust, storage.type.type.rust", ColorKey::Keyword, ""),
        ("Rust u/i32, u/i64, etc.", "entity.name.type.numeric.rust", ColorKey::Keyword, ""),
        ("Rust generic", "meta.generic.rust", ColorKey::Number, ""),
        ("Rust impl", "entity.name.impl.rust", ColorKey::TypeName, "italic"),
        ("Rust module", "entity.name.module.rust", ColorKey::Number, ""),
        ("Rust trait", "entity.name.trait.rust", ColorKey::TypeName, "italic"),
        ("Rust struct", "storage.type.source.rust", ColorKey::TypeName, ""),
        ("Rust union", "entity.name.union.rust", ColorKey::TypeName, ""),
        ("Rust enum member", "meta.enum.rust storage.type.source.rust", ColorKey::Operator, ""),
        ("Rust macro", "support.macro.rust, meta.macro.rust support.function.rust, entity.name.function.macro.rust", ColorKey::Func, "italic"),
        ("Rust lifetime", "storage.modifier.lifetime.rust, entity.name.type.lifetime", ColorKey::Func, "italic"),
        ("Rust string formatting", "string.quoted.double.rust constant.other.placeholder.rust", ColorKey::Fg, ""),
        ("Rust return type generic", "meta.function.return-type.rust meta.generic.rust storage.type.rust", ColorKey::Fg, ""),
        ("Rust functions", "meta.function.call.rust", ColorKey::Func, ""),
        ("Rust angle brackets", "punctuation.brackets.angle.rust", ColorKey::Func, ""),
        ("Rust constants", "constant.other.caps.rust", ColorKey::Number, ""),
        ("Rust function parameters", "meta.function.definition.rust variable.other.rust", ColorKey::Attribute, ""),
        ("Rust closure variables", "meta.function.call.rust variable.other.rust", ColorKey::Fg, ""),
        ("Rust self", "variable.language.self.rust", ColorKey::Keyword, ""),
        ("Rust metavariable names", "variable.other.metavariable.name.rust, meta.macro.metavariable.rust keyword.operator.macro.dollar.rust", ColorKey::Fg, ""),
        ("Shell shebang", "comment.line.shebang, comment.line.shebang punctuation.definition.comment, comment.line.shebang, punctuation.definition.comment.shebang.shell, meta.shebang.shell", ColorKey::Fg, "italic"),
        ("Shell shebang command", "comment.line.shebang constant.language", ColorKey::Operator, "italic"),
        ("Shell interpolated command", "meta.function-call.arguments.shell punctuation.definition.variable.shell, meta.function-call.arguments.shell punctuation.section.interpolation, meta.function-call.arguments.shell punctuation.definition.variable.shell, meta.function-call.arguments.shell punctuation.section.interpolation", ColorKey::Keyword, ""),
        ("Shell interpolated command variable", "meta.string meta.interpolation.parameter.shell variable.other.readwrite", ColorKey::Number, "italic"),
        ("", "source.shell punctuation.section.interpolation, punctuation.definition.evaluation.backticks.shell", ColorKey::Operator, ""),
        ("Shell EOF", "entity.name.tag.heredoc.shell", ColorKey::Keyword, ""),
        ("Shell quoted variable", "string.quoted.double.shell variable.other.normal.shell", ColorKey::Fg, ""),
        ("", "markup.heading.typst", ColorKey::Keyword, ""),
        ("JSON Keys", "source.json meta.mapping.key string", ColorKey::Func, ""),
        ("JSON key surrounding quotes", "source.json meta.mapping.key punctuation.definition.string.begin, source.json meta.mapping.key punctuation.definition.string.end", ColorKey::Comment, ""),
        ("", "markup.heading.synopsis.man, markup.heading.title.man, markup.heading.other.man, markup.heading.env.man", ColorKey::Keyword, ""),
        ("", "markup.heading.commands.man", ColorKey::Func, ""),
        ("", "markup.heading.env.man", ColorKey::Fg, ""),
        ("Man page options", "entity.name", ColorKey::Operator, ""),
        ("", "markup.heading.1.markdown", ColorKey::Keyword, ""),
        ("", "markup.heading.2.markdown", ColorKey::Number, ""),
        ("", "markup.heading.markdown", ColorKey::TypeName, ""),
    ];
    assert(rule_views(r@) =~= spec_bat_rules());
    r
}

/// `s` without its leading `#` characters.
pub open spec fn strip_hashes(s: Seq<char>) -> Seq<char>
    decreases s.len(),
{
    if s.len() > 0 && s[0] == '#' {
        strip_hashes(s.drop_first())
    } else {
        s
    }
}

/// A color written with exactly one leading `#`.
pub open spec fn hash_color(hex: Seq<char>) -> Seq<char> {
    seq!['#'] + strip_hashes(hex)
}

/// Text made safe for XML: `&`, `<` and `>` escaped, in that order.
pub open spec fn xml_escape(t: Seq<char>) -> Seq<char> {
    replace(replace(replace(t, "&"@, "&amp;"@), "<"@, "&lt;"@), ">"@, "&gt;"@)
}

/// The `fontStyle` value: an empty element for no style.
pub open spec fn style_xml(style: Seq<char>) -> Seq<char> {
    if style.len() == 0 {
        "<string/>"@
    } else {
        "<string>"@ + style + "</string>"@
    }
}

/// The global settings entry.
pub open spec fn settings_entry(p: Palette) -> Seq<char> {
    "    <dict>\n          <key>settings</key>\n          <dict>\n            <key>background</key><string>"@
        + hash_color(p.bg@)
        + "</string>\n            <key>foreground</key><string>"@
        + hash_color(p.fg@)
        + "</string>\n            <key>caret</key><string>"@
        + hash_color(p.fg@)
        + "</string>\n            <key>lineHighlight</key><string>"@
        + hash_color(p.line_hl@)
        + "</string>\n            <key>selection</key><string>"@
        + hash_color(p.sel@)
        + "</string>\n          </dict>\n        </dict>\n    "@
}

/// The entry of one rule.
pub open spec fn rule_entry(p: Palette, r: RuleView) -> Seq<char> {
    "    <dict>\n          <key>name</key><string>"@
        + xml_escape(r.0)
        + "</string>\n          <key>scope</key><string>"@
        + xml_escape(r.1)
        + "</string>\n          <key>settings</key>\n          <dict>\n            <key>foreground</key><string>"@
        + hash_color(r.2.spec_resolve(p))
        + "</string>\n            <key>fontStyle</key>"@
        + style_xml(r.3)
        + "\n          </dict>\n        </dict>\n    "@
}

/// The entries of the rules, in order.
pub open spec fn rule_entries(p: Palette, rs: Seq<RuleView>) -> Seq<char>
    decreases rs.len(),
{
    if rs.len() == 0 {
        seq![]
    } else {
        rule_entries(p, rs.drop_last()) + rule_entry(p, rs.last())
    }
}

/// The settings array of the theme.
pub open spec fn spec_tm_theme_settings(p: Palette) -> Seq<char> {
    settings_entry(p) + rule_entries(p, spec_bat_rules())
}

fn push_str(out: &mut Vec<char>, s: &str)
    ensures
        final(out)@ == old(out)@ + s@,
{
    let c = chars_of(s);
    push_all(out, &c);
}

fn push_hash_color(out: &mut Vec<char>, hex: &str)
    ensures
        final(out)@ == old(out)@ + hash_color(hex@),
{
    let c = chars_of(hex);
    let mut i: usize = 0;
    assert(c@.skip(0) =~= c@);
    while i < c.len() && c[i] == '#'
        invariant
            i <= c@.len(),
            strip_hashes(c@) == strip_hashes(c@.skip(i as int)),
        decreases c@.len() - i,
    {
        assert(c@.skip(i as int).drop_first() =~= c@.skip(i + 1));
        i = i + 1;
    }
    out.push('#');
    let mut j: usize = i;
    let ghost base = out@;
    while j < c.len()
        invariant
            i <= j <= c@.len(),
            out@ == base + c@.subrange(i as int, j as int),
        decreases c@.len() - j,
    {
        out.push(c[j]);
        assert(c@.subrange(i as int, j + 1) =~= c@.subrange(i as int, j as int).push(c@[j as int]));
        j = j + 1;
    }
    assert(c@.subrange(i as int, c@.len() as int) =~= c@.skip(i as int));
}

fn push_xml_escaped(out: &mut Vec<char>, t: &str)
    ensures
        final(out)@ == old(out)@ + xml_escape(t@),
{
    let c = chars_of(t);
    let a = replace_exec(&c, &chars_of("&"), &chars_of("&amp;"));
    let b = replace_exec(&a, &chars_of("<"), &chars_of("&lt;"));
    let d = replace_exec(&b, &chars_of(">"), &chars_of("&gt;"));
    push_all(out, &d);
}

fn push_rule_entry(out: &mut Vec<char>, p: &Palette, r: &BatRule)
    ensures
        final(out)@ == old(out)@ + rule_entry(*p, (r.0@, r.1@, r.2, r.3@)),
{
    let ghost start = out@;
    push_str(out, "    <dict>\n          <key>name</key><string>");
    push_xml_escaped(out, r.0);
    push_str(out, "</string>\n          <key>scope</key><string>");
    push_xml_escaped(out, r.1);
    push_str(
        out,
        "</string>\n          <key>settings</key>\n          <dict>\n            <key>foreground</key><string>",
    );
    push_hash_color(out, r.2.resolve(p));
    push_str(out, "</string>\n            <key>fontStyle</key>");
    if r.3.is_empty() {
        push_str(out, "<string/>");
    } else {
        push_str(out, "<string>");
        push_str(out, r.3);
        push_str(out, "</string>");
    }
    push_str(out, "\n          </dict>\n        </dict>\n    ");
    assert(out@ =~= start + rule_entry(*p, (r.0@, r.1@, r.2, r.3@)));
}

impl BatGenerator {
    /// The `settings` array of the `.tmTheme` for bat: the global colors, then
    /// one entry per highlighting rule, each color written with one leading `#`
    /// and names and scopes escaped for XML.
    pub fn build_config(&self, p: &Palette) -> (r: String)
        ensures
            r@ == spec_tm_theme_settings(*p),
    {
        let mut out: Vec<char> = Vec::new();
        push_str(&mut out, "    <dict>\n          <key>settings</key>\n          <dict>\n            <key>background</key><string>");
        push_hash_color(&mut out, p.bg.as_str());
        push_str(&mut out, "</string>\n            <key>foreground</key><string>");
        push_hash_color(&mut out, p.fg.as_str());
        push_str(&mut out, "</string>\n            <key>caret</key><string>");
        push_hash_color(&mut out, p.fg.as_str());
        push_str(&mut out, "</string>\n            <key>lineHighlight</key><string>");
        push_hash_color(&mut out, p.line_hl.as_str());
        push_str(&mut out, "</string>\n            <key>selection</key><string>");
        push_hash_color(&mut out, p.sel.as_str());
        push_str(&mut out, "</string>\n          </dict>\n        </dict>\n    ");
        assert(out@ =~= settings_entry(*p));
        let rules = bat_rules();
        let ghost rv = rule_views(rules@);
        let mut i: usize = 0;
        while i < rules.len()
            invariant
                i <= rules@.len(),
                rv == rule_views(rules@),
                rv == spec_bat_rules(),
                out@ == settings_entry(*p) + rule_entries(*p, rv.take(i as int)),
            decreases rules@.len() - i,
        {
            push_rule_entry(&mut out, p, &rules[i]);
            assert(rv.take(i + 1).drop_last() =~= rv.take(i as int));
            assert(rv.take(i + 1).last() == rv[i as int]);
            i = i + 1;
        }
        assert(rv.take(rules@.len() as int) =~= rv);
        string_of(&out)
    }
}

/// A highlighting rule as the template receives it.
#[derive(Debug, Clone, PartialEq, Eq)]
pub struct ContextRule {
    pub name: String,
    pub scope: String,
    /// The font style; none for no style or `normal`.
    pub style: Option<String>,
    pub foreground: String,
}

/// The template's view of a rule for a palette.
pub open spec fn context_rule(p: Palette, r: RuleView) -> (Seq<char>, Seq<char>, Option<Seq<char>>, Seq<char>) {
    (
        r.0,
        r.1,
        if r.3.len() == 0 || r.3 == "normal"@ {
            None
        } else {
            Some(r.3)
        },
        r.2.spec_resolve(p),
    )
}

pub open spec fn context_rule_views(v: Seq<ContextRule>) -> Seq<(Seq<char>, Seq<char>, Option<Seq<char>>, Seq<char>)> {
    v.map_values(
        |c: ContextRule|
            (
                c.name@,
                c.scope@,
                match c.style {
                    Some(s) => Some(s@),
                    None => None,
                },
                c.foreground@,
            ),
    )
}

impl BatGenerator {
    /// The highlighting rules handed to bat's template for a palette: each
    /// rule's name and scope, its style where it has one other than `normal`,
    /// and its foreground color from the palette.
    pub fn enrich_context(&self, p: &Palette) -> (r: Vec<ContextRule>)
        ensures
            context_rule_views(r@) == spec_bat_rules().map_values(|rv: RuleView| context_rule(*p, rv)),
    {
        let rules = bat_rules();
        let ghost rv = rule_views(rules@);
        let mut out: Vec<ContextRule> = Vec::new();
        let mut i: usize = 0;
        while i < rules.len()
            invariant
                i <= rules@.len(),
                rv == rule_views(rules@),
                rv == spec_bat_rules(),
                context_rule_views(out@) == rv.take(i as int).map_values(|x: RuleView| context_rule(*p, x)),
            decreases rules@.len() - i,
        {
            let r = rules[i];
            let style = if r.3.is_empty() || crate::text::str_eq(r.3, "normal") {
                None
            } else {
                Some(String::from_str(r.3))
            };
            let ghost before = context_rule_views(out@);
            out.push(ContextRule {
                name: String::from_str(r.0),
                scope: String::from_str(r.1),
                style,
                foreground: String::from_str(r.2.resolve(p)),
            });
            assert(context_rule_views(out@) =~= before.push(context_rule(*p, rv[i as int])));
            assert(rv.take(i + 1).map_values(|x: RuleView| context_rule(*p, x)) =~= rv.take(i as int).map_values(
                |x: RuleView| context_rule(*p, x),
            ).push(context_rule(*p, rv[i as int])));
            i = i + 1;
        }
        assert(rv.take(rules@.len() as int) =~= rv);
        out
    }
}

/// The line highlight yazi is given: the selection color where the palette's
/// line highlight is the placeholder `#cccccc`.
pub open spec fn spec_yazi_line_hl(p: Palette) -> Seq<char> {
    if p.line_hl@ == "#cccccc"@ {
        p.sel@
    } else {
        p.line_hl@
    }
}

impl crate::apps::YaziGenerator {
    /// The line highlight handed to yazi's template.
    pub fn enrich_context<'a>(&self, p: &'a Palette) -> (r: &'a str)
        ensures
            r@ == spec_yazi_line_hl(*p),
    {
        if crate::text::str_eq(p.line_hl.as_str(), "#cccccc") {
            p.sel.as_str()
        } else {
            p.line_hl.as_str()
        }
    }
}

/// The `.tmTheme` document for a theme named `name` with the settings
/// `rules` (as `build_config` writes them).
pub open spec fn spec_theme_document(name: Seq<char>, rules: Seq<char>) -> Seq<char> {
    "<?xml version=\"1.0\" encoding=\"UTF-8\"?>\n    <!DOCTYPE plist PUBLIC \"-//Apple Computer//DTD PLIST 1.0//EN\" \"http://www.apple.com/DTDs/PropertyList-1.0.dtd\">\n    <plist version=\"1.0\">\n    <dict>\n        <key>name</key><string>"@
        + name + "</string>\n        <key>settings</key>\n        <array>\n    "@ + rules
        + "\n        </array>\n    </dict>\n    </plist>"@
}

/// The `bat.conf` written for a theme.
pub open spec fn spec_bat_conf(name: Seq<char>) -> Seq<char> {
    "--theme=\""@ + name + "\"\n--style=\"numbers,changes\"\n--color=\"always\"\n"@
}

impl BatGenerator {
    /// The theme file bat reads for the theme `name`.
    pub fn theme_document(&self, name: &str, rules: &str) -> (r: String)
        ensures
            r@ == spec_theme_document(name@, rules@),
    {
        let mut out = String::from_str("<?xml version=\"1.0\" encoding=\"UTF-8\"?>\n    <!DOCTYPE plist PUBLIC \"-//Apple Computer//DTD PLIST 1.0//EN\" \"http://www.apple.com/DTDs/PropertyList-1.0.dtd\">\n    <plist version=\"1.0\">\n    <dict>\n        <key>name</key><string>");
        out.append(name);
        out.append("</string>\n        <key>settings</key>\n        <array>\n    ");
        out.append(rules);
        out.append("\n        </array>\n    </dict>\n    </plist>");
        out
    }

    /// The `bat.conf` that selects the theme `name`.
    pub fn bat_conf(&self, name: &str) -> (r: String)
        ensures
            r@ == spec_bat_conf(name@),
    {
        let mut out = String::from_str("--theme=\"");
        out.append(name);
        out.append("\"\n--style=\"numbers,changes\"\n--color=\"always\"\n");
        out
    }
}

/// The program that clears bat's cache: `bat`, else `batcat`, where found.
pub open spec fn spec_bat_program(bat_found: bool, batcat_found: bool) -> Option<Seq<char>> {
    if bat_found {
        Some("bat"@)
    } else if batcat_found {
        Some("batcat"@)
    } else {
        None
    }
}

/// The command that clears bat's cache, given which of bat's names are on
/// `PATH`: `<program> cache --clear`, its outcome ignored.
pub fn bat_cache_command(bat_found: bool, batcat_found: bool) -> (r: Option<crate::actions::Action>)
    ensures
        match spec_bat_program(bat_found, batcat_found) {
            Some(prog) => r matches Some(a) && a@ == crate::actions::ActionView::RunCommand(
                prog,
                seq!["cache"@, "--clear"@],
                false,
            ),
            None => r is None,
        },
{
    let program = if bat_found {
        "bat"
    } else if batcat_found {
        "batcat"
    } else {
        return None;
    };
    let mut args: Vec<String> = Vec::new();
    args.push(String::from_str("cache"));
    args.push(String::from_str("--clear"));
    assert(crate::state::string_views(args@) =~= seq!["cache"@, "--clear"@]);
    Some(crate::actions::Action::RunCommand { program: String::from_str(program), args, silent: false })
}

/// The command that clears bat's cache, where bat is installed under either
/// name; which names are on `PATH` depends on the machine.
pub fn clear_bat_cache() -> (r: Option<crate::actions::Action>)
    ensures
        match r {
            Some(a) => a@ matches crate::actions::ActionView::RunCommand(prog, args, silent) && (prog == "bat"@
                || prog == "batcat"@) && args == seq!["cache"@, "--clear"@] && !silent,
            None => true,
        },
{
    let bat_found = crate::generators::program_on_path("bat");
    let batcat_found = if bat_found {
        false
    } else {
        crate::generators::program_on_path("batcat")
    };
    bat_cache_command(bat_found, batcat_found)
}


/// After its `#`s are stripped, a color does not start with `#`.
proof fn lemma_strip_hashes_head(s: Seq<char>)
    ensures
        strip_hashes(s).len() == 0 || strip_hashes(s)[0] != '#',
    decreases s.len(),
{
    if s.len() > 0 && s[0] == '#' {
        lemma_strip_hashes_head(s.drop_first());
    }
}

/// The theme's settings begin with its global colors: the background is the
/// palette's background and the default text color is the palette's
/// foreground, each written after exactly one `#`; so plain text differs
/// from the background whenever the two palette colors differ (once their
/// leading `#`s are set aside).
pub proof fn lemma_bat_global_colors(p: Palette)
    ensures
        ({
            let head = "    <dict>\n          <key>settings</key>\n          <dict>\n            <key>background</key><string>#"@
                + strip_hashes(p.bg@) + "</string>\n            <key>foreground</key><string>#"@ + strip_hashes(p.fg@)
                + "</string>"@;
            &&& head.len() <= spec_tm_theme_settings(p).len()
            &&& spec_tm_theme_settings(p).take(head.len() as int) == head
        }),
        strip_hashes(p.bg@).len() == 0 || strip_hashes(p.bg@)[0] != '#',
        strip_hashes(p.fg@).len() == 0 || strip_hashes(p.fg@)[0] != '#',
{
    lemma_strip_hashes_head(p.bg@);
    lemma_strip_hashes_head(p.fg@);
    reveal_strlit("    <dict>\n          <key>settings</key>\n          <dict>\n            <key>background</key><string>");
    reveal_strlit("    <dict>\n          <key>settings</key>\n          <dict>\n            <key>background</key><string>#");
    reveal_strlit("</string>\n            <key>foreground</key><string>");
    reveal_strlit("</string>\n            <key>foreground</key><string>#");
    reveal_strlit("</string>");
    reveal_strlit("</string>\n            <key>caret</key><string>");
    let head = "    <dict>\n          <key>settings</key>\n          <dict>\n            <key>background</key><string>#"@
        + strip_hashes(p.bg@) + "</string>\n            <key>foreground</key><string>#"@ + strip_hashes(p.fg@)
        + "</string>"@;
    let rest = "\n            <key>caret</key><string>"@ + hash_color(p.fg@)
        + "</string>\n            <key>lineHighlight</key><string>"@ + hash_color(p.line_hl@)
        + "</string>\n            <key>selection</key><string>"@ + hash_color(p.sel@)
        + "</string>\n          </dict>\n        </dict>\n    "@ + rule_entries(p, spec_bat_rules());
    reveal_strlit("\n            <key>caret</key><string>");
    assert("</string>\n            <key>caret</key><string>"@ =~= "</string>"@ + "\n            <key>caret</key><string>"@);
    assert("    <dict>\n          <key>settings</key>\n          <dict>\n            <key>background</key><string>#"@
        =~= "    <dict>\n          <key>settings</key>\n          <dict>\n            <key>background</key><string>"@
        + seq!['#']);
    assert("</string>\n            <key>foreground</key><string>#"@ =~= "</string>\n            <key>foreground</key><string>"@
        + seq!['#']);
    assert(spec_tm_theme_settings(p) =~= head + rest);
    assert((head + rest).take(head.len() as int) =~= head);
}

} // verus!
