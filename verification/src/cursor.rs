//! The Cursor encoder: one JSON file per variant, in the schema of Visual
//! Studio Code themes.

use vstd::prelude::*;
use vstd::string::*;
use crate::config::{
    Config, ConfigView, Target, TargetView, UiPalette, UiPaletteView, Variant, VariantView,
};
use crate::json::{
    json_entries, json_list, json_object, json_tree, json_trees, no_entries, object_insert,
    object_new, pretty_json, put_text, text_pair, text_pair_tree, text_triple, text_triple_tree,
    to_pretty, JsonTree,
};
use crate::output::{
    files_view, push_rendered, variant_file, variant_file_spec, variant_suffix,
    variant_suffix_spec, GenerateError, OutputFile, OutputFileView,
};
use crate::resolve::{resolve_ui, ui_with_variant};

verus! {

/// The `colors` object of a theme: editor, side bar and terminal keys, each
/// with its colour. `ui` is the variant's effective palette.
pub open spec fn cursor_colors(cfg: ConfigView, ui: UiPaletteView) -> Map<Seq<char>, JsonTree> {
    no_entries()
        .insert("editor.background"@, JsonTree::Text(ui.background))
        .insert("editor.foreground"@, JsonTree::Text(ui.foreground))
        .insert("editor.lineHighlightBackground"@, JsonTree::Text(ui.line_highlight))
        .insert("editor.selectionBackground"@, JsonTree::Text(ui.selection))
        .insert("editorCursor.foreground"@, JsonTree::Text(ui.cursor))
        .insert("sideBar.background"@, JsonTree::Text(cfg.palette.ui.background_alt))
        .insert("sideBar.foreground"@, JsonTree::Text(cfg.palette.ui.foreground))
        .insert("sideBar.border"@, JsonTree::Text(cfg.palette.border.border))
        .insert("terminal.background"@, JsonTree::Text(ui.background))
        .insert("terminal.foreground"@, JsonTree::Text(ui.foreground))
        .insert("terminal.ansiBlack"@, JsonTree::Text(cfg.palette.ui.foreground_dim))
        .insert("terminal.ansiRed"@, JsonTree::Text(cfg.palette.base.ansi.red.base))
        .insert("terminal.ansiGreen"@, JsonTree::Text(cfg.palette.base.ansi.green.base))
        .insert("terminal.ansiYellow"@, JsonTree::Text(cfg.palette.base.ansi.yellow.base))
        .insert("terminal.ansiBlue"@, JsonTree::Text(cfg.palette.base.ansi.blue.base))
        .insert("terminal.ansiMagenta"@, JsonTree::Text(cfg.palette.base.ansi.magenta.base))
        .insert("terminal.ansiCyan"@, JsonTree::Text(cfg.palette.base.ansi.cyan.base))
        .insert("terminal.ansiWhite"@, JsonTree::Text("#d4d4d4"@))
        .insert("terminal.ansiBrightBlack"@, JsonTree::Text(cfg.palette.ui.foreground_dim))
        .insert("terminal.ansiBrightRed"@, JsonTree::Text(cfg.palette.base.ansi.red.bright))
        .insert("terminal.ansiBrightGreen"@, JsonTree::Text(cfg.palette.base.ansi.green.bright))
        .insert("terminal.ansiBrightYellow"@, JsonTree::Text(cfg.palette.base.ansi.yellow.bright))
        .insert("terminal.ansiBrightBlue"@, JsonTree::Text(cfg.palette.base.ansi.blue.bright))
        .insert("terminal.ansiBrightMagenta"@, JsonTree::Text(cfg.palette.base.ansi.magenta.bright))
        .insert("terminal.ansiBrightCyan"@, JsonTree::Text(cfg.palette.base.ansi.cyan.bright))
        .insert("terminal.ansiBrightWhite"@, JsonTree::Text("#ffffff"@))
}

/// One entry of `tokenColors`: a list of scopes, and the settings that give
/// them a foreground colour, in italics or not.
pub open spec fn token_rule(scopes: JsonTree, color: Seq<char>, italic: bool) -> JsonTree {
    let settings = if italic {
        no_entries().insert("foreground"@, JsonTree::Text(color)).insert(
            "fontStyle"@,
            JsonTree::Text("italic"@),
        )
    } else {
        no_entries().insert("foreground"@, JsonTree::Text(color))
    };
    JsonTree::Object(
        no_entries().insert("scope"@, scopes).insert("settings"@, JsonTree::Object(settings)),
    )
}

/// The `tokenColors` array: keywords, functions, strings, constants and
/// comments, each group with one syntax colour.
pub open spec fn cursor_tokens(cfg: ConfigView) -> Seq<JsonTree> {
    seq![
        token_rule(
            text_triple_tree("keyword"@, "storage.type"@, "storage.modifier"@),
            cfg.palette.syntax.blue_green,
            false,
        ),
        token_rule(
            text_pair_tree("entity.name.function"@, "support.function"@),
            cfg.palette.syntax.teal,
            false,
        ),
        token_rule(
            text_pair_tree("string"@, "string.quoted"@),
            cfg.palette.syntax.teal,
            false,
        ),
        token_rule(
            text_pair_tree("constant.numeric"@, "constant.language"@),
            cfg.palette.syntax.lavender,
            false,
        ),
        token_rule(
            text_pair_tree("comment"@, "punctuation.definition.comment"@),
            cfg.palette.syntax.gray,
            true,
        ),
    ]
}

/// The theme of one variant.
pub open spec fn cursor_theme_tree(cfg: ConfigView, variant: VariantView) -> JsonTree {
    JsonTree::Object(
        no_entries()
            .insert("name"@, JsonTree::Text(cfg.meta.name + variant_suffix_spec(variant.name)))
            .insert("type"@, JsonTree::Text("dark"@))
            .insert(
                "colors"@,
                JsonTree::Object(cursor_colors(cfg, resolve_ui(cfg.palette.ui, variant))),
            )
            .insert("tokenColors"@, JsonTree::List(cursor_tokens(cfg))),
    )
}

/// The file for the variant at `index`: its name and its printed theme.
pub open spec fn cursor_file(cfg: ConfigView, target: TargetView, index: int) -> OutputFileView {
    let variant = cfg.variants[index];
    OutputFileView {
        name: variant_file_spec(cfg, target, variant.name, ".json"@),
        content: pretty_json(cursor_theme_tree(cfg, variant)),
    }
}

/// The files of the Cursor encoder: one per variant, in their order.
pub open spec fn cursor_files(cfg: ConfigView, target: TargetView) -> Seq<OutputFileView> {
    Seq::new(cfg.variants.len(), |i: int| cursor_file(cfg, target, i))
}

/// Builds the `colors` object of a theme.
fn colors_block(cfg: &Config, ui: &UiPalette) -> (res: serde_json::Map<String, serde_json::Value>)
    ensures
        json_entries(res) == cursor_colors(cfg@, ui@),
{
    let mut colors = object_new();
    put_text(&mut colors, "editor.background", ui.background.as_str());
    put_text(&mut colors, "editor.foreground", ui.foreground.as_str());
    put_text(&mut colors, "editor.lineHighlightBackground", ui.line_highlight.as_str());
    put_text(&mut colors, "editor.selectionBackground", ui.selection.as_str());
    put_text(&mut colors, "editorCursor.foreground", ui.cursor.as_str());
    put_text(&mut colors, "sideBar.background", cfg.palette.ui.background_alt.as_str());
    put_text(&mut colors, "sideBar.foreground", cfg.palette.ui.foreground.as_str());
    put_text(&mut colors, "sideBar.border", cfg.palette.border.border.as_str());
    put_text(&mut colors, "terminal.background", ui.background.as_str());
    put_text(&mut colors, "terminal.foreground", ui.foreground.as_str());
    put_text(&mut colors, "terminal.ansiBlack", cfg.palette.ui.foreground_dim.as_str());
    put_text(&mut colors, "terminal.ansiRed", cfg.palette.base.ansi.red.base.as_str());
    put_text(&mut colors, "terminal.ansiGreen", cfg.palette.base.ansi.green.base.as_str());
    put_text(&mut colors, "terminal.ansiYellow", cfg.palette.base.ansi.yellow.base.as_str());
    put_text(&mut colors, "terminal.ansiBlue", cfg.palette.base.ansi.blue.base.as_str());
    put_text(&mut colors, "terminal.ansiMagenta", cfg.palette.base.ansi.magenta.base.as_str());
    put_text(&mut colors, "terminal.ansiCyan", cfg.palette.base.ansi.cyan.base.as_str());
    put_text(&mut colors, "terminal.ansiWhite", "#d4d4d4");
    put_text(&mut colors, "terminal.ansiBrightBlack", cfg.palette.ui.foreground_dim.as_str());
    put_text(&mut colors, "terminal.ansiBrightRed", cfg.palette.base.ansi.red.bright.as_str());
    put_text(&mut colors, "terminal.ansiBrightGreen", cfg.palette.base.ansi.green.bright.as_str());
    put_text(
        &mut colors,
        "terminal.ansiBrightYellow",
        cfg.palette.base.ansi.yellow.bright.as_str(),
    );
    put_text(&mut colors, "terminal.ansiBrightBlue", cfg.palette.base.ansi.blue.bright.as_str());
    put_text(
        &mut colors,
        "terminal.ansiBrightMagenta",
        cfg.palette.base.ansi.magenta.bright.as_str(),
    );
    put_text(&mut colors, "terminal.ansiBrightCyan", cfg.palette.base.ansi.cyan.bright.as_str());
    put_text(&mut colors, "terminal.ansiBrightWhite", "#ffffff");
    colors
}

/// Builds one entry of `tokenColors`.
fn token_rule_value(
    scopes: serde_json::Value,
    color: &str,
    italic: bool,
) -> (res: serde_json::Value)
    ensures
        json_tree(res) == token_rule(json_tree(scopes), color@, italic),
{
    let mut settings = object_new();
    put_text(&mut settings, "foreground", color);
    if italic {
        put_text(&mut settings, "fontStyle", "italic");
    }
    let mut rule = object_new();
    object_insert(&mut rule, "scope", scopes);
    object_insert(&mut rule, "settings", json_object(settings));
    json_object(rule)
}

/// Builds the `tokenColors` array.
fn token_rules(cfg: &Config) -> (res: serde_json::Value)
    ensures
        json_tree(res) == JsonTree::List(cursor_tokens(cfg@)),
{
    let mut rules: Vec<serde_json::Value> = Vec::new();
    rules.push(
        token_rule_value(
            text_triple("keyword", "storage.type", "storage.modifier"),
            cfg.palette.syntax.blue_green.as_str(),
            false,
        ),
    );
    rules.push(
        token_rule_value(
            text_pair("entity.name.function", "support.function"),
            cfg.palette.syntax.teal.as_str(),
            false,
        ),
    );
    rules.push(
        token_rule_value(
            text_pair("string", "string.quoted"),
            cfg.palette.syntax.teal.as_str(),
            false,
        ),
    );
    rules.push(
        token_rule_value(
            text_pair("constant.numeric", "constant.language"),
            cfg.palette.syntax.lavender.as_str(),
            false,
        ),
    );
    rules.push(
        token_rule_value(
            text_pair("comment", "punctuation.definition.comment"),
            cfg.palette.syntax.gray.as_str(),
            true,
        ),
    );
    assert(json_trees(rules@) =~= cursor_tokens(cfg@));
    json_list(rules)
}

/// Builds the theme of one variant.
pub fn cursor_theme(cfg: &Config, variant: &Variant) -> (res: serde_json::Value)
    ensures
        json_tree(res) == cursor_theme_tree(cfg@, variant@),
{
    let ui = ui_with_variant(cfg, variant);
    let mut title = cfg.meta.name.clone();
    title.append(variant_suffix(variant.name.as_str()).as_str());
    let mut theme = object_new();
    put_text(&mut theme, "name", title.as_str());
    put_text(&mut theme, "type", "dark");
    object_insert(&mut theme, "colors", json_object(colors_block(cfg, &ui)));
    object_insert(&mut theme, "tokenColors", token_rules(cfg));
    json_object(theme)
}

/// Renders the Cursor files of a theme: always one per variant, in their
/// order, since printing a document cannot fail.
pub fn gen_cursor(cfg: &Config, target: &Target) -> (res: Result<Vec<OutputFile>, GenerateError>)
    ensures
        res is Ok,
        files_view(res->Ok_0@) == cursor_files(cfg@, target@),
{
    let mut files: Vec<OutputFile> = Vec::new();
    let mut i: usize = 0;
    assert(files_view(files@) =~= Seq::new(0, |k: int| cursor_file(cfg@, target@, k)));
    while i < cfg.variants.len()
        invariant
            i <= cfg.variants@.len(),
            files_view(files@) == Seq::new(i as nat, |k: int| cursor_file(cfg@, target@, k)),
        decreases cfg.variants@.len() - i,
    {
        let variant = &cfg.variants[i];
        let name = variant_file(cfg, target, variant.name.as_str(), ".json");
        let theme = cursor_theme(cfg, variant);
        let rendered = to_pretty(&theme);
        match push_rendered(&mut files, name, rendered) {
            Ok(()) => {},
            Err(e) => {
                return Err(e);
            },
        }
        assert(files_view(files@) =~= Seq::new(
            (i + 1) as nat,
            |k: int| cursor_file(cfg@, target@, k),
        ));
        i = i + 1;
    }
    Ok(files)
}

} // verus!
