//! The Zed encoder: one JSON file that holds a theme for each variant.

use vstd::prelude::*;
use vstd::string::*;
use crate::config::{
    Config, ConfigView, Target, TargetView, UiPalette, UiPaletteView, Variant, VariantView,
};
use crate::json::{
    json_entries, json_list, json_object, json_tree, json_trees, no_entries, object_insert,
    object_new, pretty_json, put_text, to_pretty, JsonTree,
};
use crate::output::{
    files_view, single_file, single_file_name, single_file_spec, GenerateError, OutputFile,
    OutputFileView,
};
use crate::resolve::{resolve_ui, ui_with_variant};
use crate::text::{capitalize, capitalize_spec, same_text, slug, slug_spec};

verus! {

/// The title of a variant's theme: the theme name alone for the variant
/// `base`, else the theme name, a space and the capitalised variant name.
pub open spec fn zed_title_spec(cfg: ConfigView, variant: Seq<char>) -> Seq<char> {
    if variant == "base"@ {
        cfg.meta.name
    } else {
        cfg.meta.name + " "@ + capitalize_spec(variant)
    }
}

/// The `style` block of a theme: the keys of the editor and the terminal,
/// each with its colour. `ui` is the variant's effective palette.
pub open spec fn zed_style(cfg: ConfigView, ui: UiPaletteView) -> Map<Seq<char>, JsonTree> {
    no_entries()
        .insert("border"@, JsonTree::Text(cfg.palette.border.border))
        .insert("border.variant"@, JsonTree::Text(cfg.palette.border.border_variant))
        .insert("border.focused"@, JsonTree::Text(cfg.palette.border.border_focused))
        .insert("border.selected"@, JsonTree::Text(cfg.palette.border.border_selected))
        .insert("text"@, JsonTree::Text(ui.foreground))
        .insert("text.muted"@, JsonTree::Text(cfg.palette.ui.foreground_muted))
        .insert("background"@, JsonTree::Text(ui.background))
        .insert("surface.background"@, JsonTree::Text(ui.background_alt))
        .insert("editor.background"@, JsonTree::Text(ui.background))
        .insert("editor.foreground"@, JsonTree::Text(ui.foreground))
        .insert("editor.selection.background"@, JsonTree::Text(ui.selection))
        .insert("editor.selection.foreground"@, JsonTree::Text("#ffffff"@))
        .insert("editor.active_line.background"@, JsonTree::Text(ui.line_highlight))
        .insert("terminal.background"@, JsonTree::Text(ui.background))
        .insert("terminal.foreground"@, JsonTree::Text(ui.foreground))
        .insert("terminal.ansi.black"@, JsonTree::Text(cfg.palette.ui.foreground_dim))
        .insert("terminal.ansi.red"@, JsonTree::Text(cfg.palette.base.ansi.red.base))
        .insert("terminal.ansi.green"@, JsonTree::Text(cfg.palette.base.ansi.green.base))
        .insert("terminal.ansi.yellow"@, JsonTree::Text(cfg.palette.base.ansi.yellow.base))
        .insert("terminal.ansi.blue"@, JsonTree::Text(cfg.palette.base.ansi.blue.base))
        .insert("terminal.ansi.magenta"@, JsonTree::Text(cfg.palette.base.ansi.magenta.base))
        .insert("terminal.ansi.cyan"@, JsonTree::Text(cfg.palette.base.ansi.cyan.base))
        .insert("terminal.ansi.white"@, JsonTree::Text("#d4d4d4"@))
        .insert("terminal.ansi.bright_black"@, JsonTree::Text(cfg.palette.ui.foreground_dim))
        .insert("terminal.ansi.bright_red"@, JsonTree::Text(cfg.palette.base.ansi.red.bright))
        .insert("terminal.ansi.bright_green"@, JsonTree::Text(cfg.palette.base.ansi.green.bright))
        .insert("terminal.ansi.bright_yellow"@, JsonTree::Text(cfg.palette.base.ansi.yellow.bright))
        .insert("terminal.ansi.bright_blue"@, JsonTree::Text(cfg.palette.base.ansi.blue.bright))
        .insert(
            "terminal.ansi.bright_magenta"@,
            JsonTree::Text(cfg.palette.base.ansi.magenta.bright),
        )
        .insert("terminal.ansi.bright_cyan"@, JsonTree::Text(cfg.palette.base.ansi.cyan.bright))
        .insert("terminal.ansi.bright_white"@, JsonTree::Text("#ffffff"@))
}

/// The style of one token category: its colour, in italics or not.
pub open spec fn zed_token(color: Seq<char>, italic: bool) -> JsonTree {
    if italic {
        JsonTree::Object(
            no_entries().insert("color"@, JsonTree::Text(color)).insert(
                "font_style"@,
                JsonTree::Text("italic"@),
            ),
        )
    } else {
        JsonTree::Object(no_entries().insert("color"@, JsonTree::Text(color)))
    }
}

/// The `syntax` block of a theme. It has six token categories: comment,
/// keyword, function, string, number and attribute, the first and the last
/// in italics. Operators get no entry of their own: they keep the colour of
/// the surrounding text.
pub open spec fn zed_syntax(cfg: ConfigView) -> Map<Seq<char>, JsonTree> {
    no_entries()
        .insert("comment"@, zed_token(cfg.palette.syntax.gray, true))
        .insert("keyword"@, zed_token(cfg.palette.syntax.blue_green, false))
        .insert("function"@, zed_token(cfg.palette.syntax.teal, false))
        .insert("string"@, zed_token(cfg.palette.syntax.teal, false))
        .insert("number"@, zed_token(cfg.palette.syntax.lavender, false))
        .insert("attribute"@, zed_token(cfg.palette.base.ansi.magenta.base, true))
}

/// The theme of one variant.
pub open spec fn zed_theme_tree(cfg: ConfigView, variant: VariantView) -> JsonTree {
    JsonTree::Object(
        no_entries()
            .insert("name"@, JsonTree::Text(zed_title_spec(cfg, variant.name)))
            .insert("appearance"@, JsonTree::Text("dark"@))
            .insert("style"@, JsonTree::Object(zed_style(cfg, resolve_ui(cfg.palette.ui, variant))))
            .insert("syntax"@, JsonTree::Object(zed_syntax(cfg))),
    )
}

/// The author of a theme; a theme without one has the empty author.
pub open spec fn author_or_empty(cfg: ConfigView) -> Seq<char> {
    match cfg.meta.author {
        Some(a) => a,
        None => Seq::<char>::empty(),
    }
}

/// The themes of all variants, in their order.
pub open spec fn zed_themes(cfg: ConfigView) -> Seq<JsonTree> {
    Seq::new(cfg.variants.len(), |i: int| zed_theme_tree(cfg, cfg.variants[i]))
}

/// The whole document: the schema, the theme's name and author, and one
/// theme per variant.
pub open spec fn zed_document_tree(cfg: ConfigView) -> JsonTree {
    JsonTree::Object(
        no_entries()
            .insert("$schema"@, JsonTree::Text("https://zed.dev/schema/themes/v0.2.0.json"@))
            .insert("name"@, JsonTree::Text(cfg.meta.name))
            .insert("author"@, JsonTree::Text(author_or_empty(cfg)))
            .insert("themes"@, JsonTree::List(zed_themes(cfg))),
    )
}

/// The files of the Zed encoder: the one document, printed, under the
/// target's file name or the file-name form of the theme name with `.json`.
pub open spec fn zed_files(cfg: ConfigView, target: TargetView) -> Seq<OutputFileView> {
    seq![
        (OutputFileView {
            name: single_file_spec(target, slug_spec(cfg.meta.name) + ".json"@),
            content: pretty_json(zed_document_tree(cfg)),
        }),
    ]
}

/// The title of a variant's theme.
pub fn zed_title(cfg: &Config, variant: &str) -> (res: String)
    ensures
        res@ == zed_title_spec(cfg@, variant@),
{
    if same_text(variant, "base") {
        cfg.meta.name.clone()
    } else {
        let mut out = cfg.meta.name.clone();
        out.append(" ");
        out.append(capitalize(variant).as_str());
        out
    }
}

/// Builds the `style` block of a theme.
fn style_block(cfg: &Config, ui: &UiPalette) -> (res: serde_json::Map<String, serde_json::Value>)
    ensures
        json_entries(res) == zed_style(cfg@, ui@),
{
    let mut style = object_new();
    put_text(&mut style, "border", cfg.palette.border.border.as_str());
    put_text(&mut style, "border.variant", cfg.palette.border.border_variant.as_str());
    put_text(&mut style, "border.focused", cfg.palette.border.border_focused.as_str());
    put_text(&mut style, "border.selected", cfg.palette.border.border_selected.as_str());
    put_text(&mut style, "text", ui.foreground.as_str());
    put_text(&mut style, "text.muted", cfg.palette.ui.foreground_muted.as_str());
    put_text(&mut style, "background", ui.background.as_str());
    put_text(&mut style, "surface.background", ui.background_alt.as_str());
    put_text(&mut style, "editor.background", ui.background.as_str());
    put_text(&mut style, "editor.foreground", ui.foreground.as_str());
    put_text(&mut style, "editor.selection.background", ui.selection.as_str());
    put_text(&mut style, "editor.selection.foreground", "#ffffff");
    put_text(&mut style, "editor.active_line.background", ui.line_highlight.as_str());
    put_text(&mut style, "terminal.background", ui.background.as_str());
    put_text(&mut style, "terminal.foreground", ui.foreground.as_str());
    put_text(&mut style, "terminal.ansi.black", cfg.palette.ui.foreground_dim.as_str());
    put_text(&mut style, "terminal.ansi.red", cfg.palette.base.ansi.red.base.as_str());
    put_text(&mut style, "terminal.ansi.green", cfg.palette.base.ansi.green.base.as_str());
    put_text(&mut style, "terminal.ansi.yellow", cfg.palette.base.ansi.yellow.base.as_str());
    put_text(&mut style, "terminal.ansi.blue", cfg.palette.base.ansi.blue.base.as_str());
    put_text(&mut style, "terminal.ansi.magenta", cfg.palette.base.ansi.magenta.base.as_str());
    put_text(&mut style, "terminal.ansi.cyan", cfg.palette.base.ansi.cyan.base.as_str());
    put_text(&mut style, "terminal.ansi.white", "#d4d4d4");
    put_text(&mut style, "terminal.ansi.bright_black", cfg.palette.ui.foreground_dim.as_str());
    put_text(&mut style, "terminal.ansi.bright_red", cfg.palette.base.ansi.red.bright.as_str());
    put_text(&mut style, "terminal.ansi.bright_green", cfg.palette.base.ansi.green.bright.as_str());
    put_text(
        &mut style,
        "terminal.ansi.bright_yellow",
        cfg.palette.base.ansi.yellow.bright.as_str(),
    );
    put_text(&mut style, "terminal.ansi.bright_blue", cfg.palette.base.ansi.blue.bright.as_str());
    put_text(
        &mut style,
        "terminal.ansi.bright_magenta",
        cfg.palette.base.ansi.magenta.bright.as_str(),
    );
    put_text(&mut style, "terminal.ansi.bright_cyan", cfg.palette.base.ansi.cyan.bright.as_str());
    put_text(&mut style, "terminal.ansi.bright_white", "#ffffff");
    style
}

/// Builds the style of one token category.
fn token_style(color: &str, italic: bool) -> (res: serde_json::Value)
    ensures
        json_tree(res) == zed_token(color@, italic),
{
    let mut token = object_new();
    put_text(&mut token, "color", color);
    if italic {
        put_text(&mut token, "font_style", "italic");
    }
    json_object(token)
}

/// Builds the `syntax` block of a theme.
fn syntax_block(cfg: &Config) -> (res: serde_json::Map<String, serde_json::Value>)
    ensures
        json_entries(res) == zed_syntax(cfg@),
{
    let mut syntax = object_new();
    object_insert(&mut syntax, "comment", token_style(cfg.palette.syntax.gray.as_str(), true));
    object_insert(
        &mut syntax,
        "keyword",
        token_style(cfg.palette.syntax.blue_green.as_str(), false),
    );
    object_insert(&mut syntax, "function", token_style(cfg.palette.syntax.teal.as_str(), false));
    object_insert(&mut syntax, "string", token_style(cfg.palette.syntax.teal.as_str(), false));
    object_insert(&mut syntax, "number", token_style(cfg.palette.syntax.lavender.as_str(), false));
    object_insert(
        &mut syntax,
        "attribute",
        token_style(cfg.palette.base.ansi.magenta.base.as_str(), true),
    );
    syntax
}

/// Builds the theme of one variant.
pub fn zed_theme(cfg: &Config, variant: &Variant) -> (res: serde_json::Value)
    ensures
        json_tree(res) == zed_theme_tree(cfg@, variant@),
{
    let ui = ui_with_variant(cfg, variant);
    let mut theme = object_new();
    put_text(&mut theme, "name", zed_title(cfg, variant.name.as_str()).as_str());
    put_text(&mut theme, "appearance", "dark");
    object_insert(&mut theme, "style", json_object(style_block(cfg, &ui)));
    object_insert(&mut theme, "syntax", json_object(syntax_block(cfg)));
    json_object(theme)
}

/// Builds the whole document.
pub fn zed_document(cfg: &Config) -> (res: serde_json::Value)
    ensures
        json_tree(res) == zed_document_tree(cfg@),
{
    let mut themes: Vec<serde_json::Value> = Vec::new();
    let mut i: usize = 0;
    while i < cfg.variants.len()
        invariant
            i <= cfg.variants@.len(),
            themes@.len() == i,
            forall|k: int|
                0 <= k < i ==> json_tree(#[trigger] themes@[k]) == zed_theme_tree(
                    cfg@,
                    cfg@.variants[k],
                ),
        decreases cfg.variants@.len() - i,
    {
        themes.push(zed_theme(cfg, &cfg.variants[i]));
        i = i + 1;
    }
    assert(json_trees(themes@) =~= zed_themes(cfg@));
    let author: &str = match &cfg.meta.author {
        Some(a) => a.as_str(),
        None => "",
    };
    proof {
        reveal_strlit("");
        assert(""@ =~= Seq::<char>::empty());
    }
    let mut root = object_new();
    put_text(&mut root, "$schema", "https://zed.dev/schema/themes/v0.2.0.json");
    put_text(&mut root, "name", cfg.meta.name.as_str());
    put_text(&mut root, "author", author);
    object_insert(&mut root, "themes", json_list(themes));
    json_object(root)
}

/// Renders the Zed file of a theme: always the one file, since printing a
/// document cannot fail.
pub fn gen_zed(cfg: &Config, target: &Target) -> (res: Result<Vec<OutputFile>, GenerateError>)
    ensures
        res is Ok,
        files_view(res->Ok_0@) == zed_files(cfg@, target@),
{
    let doc = zed_document(cfg);
    let mut fallback = slug(cfg.meta.name.as_str());
    fallback.append(".json");
    let name = single_file_name(target, fallback);
    let rendered = to_pretty(&doc);
    single_file(name, rendered)
}

/// There is one theme per variant, and in the style of each the editor's
/// background is the background of the variant's effective palette.
pub proof fn lemma_zed_editor_background(cfg: ConfigView, ui: UiPaletteView)
    ensures
        zed_themes(cfg).len() == cfg.variants.len(),
        zed_style(cfg, ui).dom().contains("editor.background"@),
        zed_style(cfg, ui)["editor.background"@] == JsonTree::Text(ui.background),
{
    reveal_strlit("editor.background");
    reveal_strlit("editor.foreground");
    assert("editor.foreground"@[7] != "editor.background"@[7]);
    reveal_strlit("editor.selection.background");
    assert("editor.selection.background"@.len() != "editor.background"@.len());
    reveal_strlit("editor.selection.foreground");
    assert("editor.selection.foreground"@.len() != "editor.background"@.len());
    reveal_strlit("editor.active_line.background");
    assert("editor.active_line.background"@.len() != "editor.background"@.len());
    reveal_strlit("terminal.background");
    assert("terminal.background"@.len() != "editor.background"@.len());
    reveal_strlit("terminal.foreground");
    assert("terminal.foreground"@.len() != "editor.background"@.len());
    reveal_strlit("terminal.ansi.black");
    assert("terminal.ansi.black"@.len() != "editor.background"@.len());
    reveal_strlit("terminal.ansi.red");
    assert("terminal.ansi.red"@[0] != "editor.background"@[0]);
    reveal_strlit("terminal.ansi.green");
    assert("terminal.ansi.green"@.len() != "editor.background"@.len());
    reveal_strlit("terminal.ansi.yellow");
    assert("terminal.ansi.yellow"@.len() != "editor.background"@.len());
    reveal_strlit("terminal.ansi.blue");
    assert("terminal.ansi.blue"@.len() != "editor.background"@.len());
    reveal_strlit("terminal.ansi.magenta");
    assert("terminal.ansi.magenta"@.len() != "editor.background"@.len());
    reveal_strlit("terminal.ansi.cyan");
    assert("terminal.ansi.cyan"@.len() != "editor.background"@.len());
    reveal_strlit("terminal.ansi.white");
    assert("terminal.ansi.white"@.len() != "editor.background"@.len());
    reveal_strlit("terminal.ansi.bright_black");
    assert("terminal.ansi.bright_black"@.len() != "editor.background"@.len());
    reveal_strlit("terminal.ansi.bright_red");
    assert("terminal.ansi.bright_red"@.len() != "editor.background"@.len());
    reveal_strlit("terminal.ansi.bright_green");
    assert("terminal.ansi.bright_green"@.len() != "editor.background"@.len());
    reveal_strlit("terminal.ansi.bright_yellow");
    assert("terminal.ansi.bright_yellow"@.len() != "editor.background"@.len());
    reveal_strlit("terminal.ansi.bright_blue");
    assert("terminal.ansi.bright_blue"@.len() != "editor.background"@.len());
    reveal_strlit("terminal.ansi.bright_magenta");
    assert("terminal.ansi.bright_magenta"@.len() != "editor.background"@.len());
    reveal_strlit("terminal.ansi.bright_cyan");
    assert("terminal.ansi.bright_cyan"@.len() != "editor.background"@.len());
    reveal_strlit("terminal.ansi.bright_white");
    assert("terminal.ansi.bright_white"@.len() != "editor.background"@.len());
}

/// The `syntax` block has the six categories and no other key; comment and
/// attribute are in italics and the other four are not.
pub proof fn lemma_zed_syntax_categories(cfg: ConfigView)
    ensures
        zed_syntax(cfg).dom() =~= set![
            "comment"@,
            "keyword"@,
            "function"@,
            "string"@,
            "number"@,
            "attribute"@,
        ],
        zed_syntax(cfg).dom().len() == 6,
        zed_syntax(cfg)["comment"@] == zed_token(cfg.palette.syntax.gray, true),
        zed_syntax(cfg)["keyword"@] == zed_token(cfg.palette.syntax.blue_green, false),
        zed_syntax(cfg)["function"@] == zed_token(cfg.palette.syntax.teal, false),
        zed_syntax(cfg)["string"@] == zed_token(cfg.palette.syntax.teal, false),
        zed_syntax(cfg)["number"@] == zed_token(cfg.palette.syntax.lavender, false),
        zed_syntax(cfg)["attribute"@] == zed_token(cfg.palette.base.ansi.magenta.base, true),
{
    reveal_strlit("comment");
    reveal_strlit("keyword");
    reveal_strlit("function");
    reveal_strlit("string");
    reveal_strlit("number");
    reveal_strlit("attribute");
    assert("comment"@[0] != "keyword"@[0]);
    assert("comment"@.len() != "function"@.len());
    assert("comment"@.len() != "string"@.len());
    assert("comment"@.len() != "number"@.len());
    assert("comment"@.len() != "attribute"@.len());
    assert("keyword"@.len() != "function"@.len());
    assert("keyword"@.len() != "string"@.len());
    assert("keyword"@.len() != "number"@.len());
    assert("keyword"@.len() != "attribute"@.len());
    assert("function"@.len() != "string"@.len());
    assert("function"@.len() != "number"@.len());
    assert("function"@.len() != "attribute"@.len());
    assert("string"@[0] != "number"@[0]);
    assert("string"@.len() != "attribute"@.len());
    assert("number"@.len() != "attribute"@.len());
    let none = Set::<Seq<char>>::empty();
    let one = none.insert("comment"@);
    let two = one.insert("keyword"@);
    let three = two.insert("function"@);
    let four = three.insert("string"@);
    let five = four.insert("number"@);
    let six = five.insert("attribute"@);
    assert(zed_syntax(cfg).dom() =~= six);
    assert(one.len() == 1);
    assert(two.len() == 2);
    assert(three.len() == 3);
    assert(four.len() == 4);
    assert(five.len() == 5);
    assert(six.len() == 6);
}

} // verus!
