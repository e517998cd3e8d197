//! The website encoder: one JSON file of palette swatches with notes on
//! their use. It shows the base palette: variants play no part in it.

use vstd::prelude::*;
use vstd::string::*;
use crate::config::{ColorVariant, ColorVariantView, Config, ConfigView, Target, TargetView};
use crate::json::{
    json_list, json_null, json_object, json_text, json_tree, json_trees, no_entries,
    object_insert, object_new, pretty_json, put_text, to_pretty, JsonTree,
};
use crate::output::{
    files_view, single_file, single_file_name, single_file_spec, GenerateError, OutputFile,
    OutputFileView,
};

verus! {

/// The swatch of one ANSI colour: its name, its three shades, its use.
pub open spec fn ansi_swatch(
    name: Seq<char>,
    color: ColorVariantView,
    usage: Seq<char>,
) -> JsonTree {
    JsonTree::Object(
        no_entries()
            .insert("name"@, JsonTree::Text(name))
            .insert("base"@, JsonTree::Text(color.base))
            .insert("bright"@, JsonTree::Text(color.bright))
            .insert("dim"@, JsonTree::Text(color.dim))
            .insert("usage"@, JsonTree::Text(usage)),
    )
}

/// The swatch of one single colour: its name, its hex value, its use.
pub open spec fn hex_swatch(name: Seq<char>, hex: Seq<char>, usage: Seq<char>) -> JsonTree {
    JsonTree::Object(
        no_entries()
            .insert("name"@, JsonTree::Text(name))
            .insert("hex"@, JsonTree::Text(hex))
            .insert("usage"@, JsonTree::Text(usage)),
    )
}

/// The swatch of a single colour on which text is shown in `text_color`.
pub open spec fn labelled_swatch(
    name: Seq<char>,
    hex: Seq<char>,
    usage: Seq<char>,
    text_color: Seq<char>,
) -> JsonTree {
    JsonTree::Object(
        no_entries()
            .insert("name"@, JsonTree::Text(name))
            .insert("hex"@, JsonTree::Text(hex))
            .insert("usage"@, JsonTree::Text(usage))
            .insert("textColor"@, JsonTree::Text(text_color)),
    )
}

/// The six ANSI swatches.
pub open spec fn website_colors(cfg: ConfigView) -> Seq<JsonTree> {
    let ansi = cfg.palette.base.ansi;
    seq![
        ansi_swatch("Red"@, ansi.red, "Errors, deletions, keywords"@),
        ansi_swatch("Green"@, ansi.green, "Success, additions"@),
        ansi_swatch("Yellow"@, ansi.yellow, "Warnings, modifications"@),
        ansi_swatch("Blue"@, ansi.blue, "Info, titles, headings"@),
        ansi_swatch("Magenta"@, ansi.magenta, "Attributes, emphasis, operators"@),
        ansi_swatch("Cyan"@, ansi.cyan, "Focus borders"@),
    ]
}

/// The four syntax swatches.
pub open spec fn website_syntax_colors(cfg: ConfigView) -> Seq<JsonTree> {
    let syntax = cfg.palette.syntax;
    seq![
        hex_swatch("Cyan Teal"@, syntax.teal, "Functions, methods, strings"@),
        hex_swatch("Blue Green"@, syntax.blue_green, "Keywords, types, constructors"@),
        hex_swatch("Lavender"@, syntax.lavender, "Numbers, constants, inline code"@),
        hex_swatch("Gray"@, syntax.gray, "Comments"@),
    ]
}

/// The three background and foreground swatches, of the base palette.
pub open spec fn website_background_colors(cfg: ConfigView) -> Seq<JsonTree> {
    let ui = cfg.palette.ui;
    seq![
        hex_swatch("Background"@, ui.background, "Deep purple-black editor background"@),
        hex_swatch("Background Alt"@, ui.background_alt, "Sidebar, panels, inactive tabs"@),
        labelled_swatch("Foreground"@, ui.foreground, "Soft white text"@, "#000"@),
    ]
}

/// The `meta` object: the theme's name, and its author or null.
pub open spec fn website_meta(cfg: ConfigView) -> JsonTree {
    JsonTree::Object(
        no_entries().insert("name"@, JsonTree::Text(cfg.meta.name)).insert(
            "author"@,
            match cfg.meta.author {
                Some(a) => JsonTree::Text(a),
                None => JsonTree::Null,
            },
        ),
    )
}

/// The whole document.
pub open spec fn website_document_tree(cfg: ConfigView) -> JsonTree {
    JsonTree::Object(
        no_entries()
            .insert("meta"@, website_meta(cfg))
            .insert("colors"@, JsonTree::List(website_colors(cfg)))
            .insert("syntaxColors"@, JsonTree::List(website_syntax_colors(cfg)))
            .insert("backgroundColors"@, JsonTree::List(website_background_colors(cfg))),
    )
}

/// The files of the website encoder: the one document, printed, under the
/// target's file name or `palette.json`.
pub open spec fn website_files(cfg: ConfigView, target: TargetView) -> Seq<OutputFileView> {
    seq![
        (OutputFileView {
            name: single_file_spec(target, "palette.json"@),
            content: pretty_json(website_document_tree(cfg)),
        }),
    ]
}

/// Builds the swatch of one ANSI colour.
fn ansi_swatch_value(name: &str, color: &ColorVariant, usage: &str) -> (res: serde_json::Value)
    ensures
        json_tree(res) == ansi_swatch(name@, color@, usage@),
{
    let mut swatch = object_new();
    put_text(&mut swatch, "name", name);
    put_text(&mut swatch, "base", color.base.as_str());
    put_text(&mut swatch, "bright", color.bright.as_str());
    put_text(&mut swatch, "dim", color.dim.as_str());
    put_text(&mut swatch, "usage", usage);
    json_object(swatch)
}

/// Builds the swatch of one single colour.
fn hex_swatch_value(name: &str, hex: &str, usage: &str) -> (res: serde_json::Value)
    ensures
        json_tree(res) == hex_swatch(name@, hex@, usage@),
{
    let mut swatch = object_new();
    put_text(&mut swatch, "name", name);
    put_text(&mut swatch, "hex", hex);
    put_text(&mut swatch, "usage", usage);
    json_object(swatch)
}

/// Builds the swatch of a single colour with its text colour.
fn labelled_swatch_value(
    name: &str,
    hex: &str,
    usage: &str,
    text_color: &str,
) -> (res: serde_json::Value)
    ensures
        json_tree(res) == labelled_swatch(name@, hex@, usage@, text_color@),
{
    let mut swatch = object_new();
    put_text(&mut swatch, "name", name);
    put_text(&mut swatch, "hex", hex);
    put_text(&mut swatch, "usage", usage);
    put_text(&mut swatch, "textColor", text_color);
    json_object(swatch)
}

/// Builds the six ANSI swatches.
fn colors_list(cfg: &Config) -> (res: serde_json::Value)
    ensures
        json_tree(res) == JsonTree::List(website_colors(cfg@)),
{
    let ansi = &cfg.palette.base.ansi;
    let mut items: Vec<serde_json::Value> = Vec::new();
    items.push(ansi_swatch_value("Red", &ansi.red, "Errors, deletions, keywords"));
    items.push(ansi_swatch_value("Green", &ansi.green, "Success, additions"));
    items.push(ansi_swatch_value("Yellow", &ansi.yellow, "Warnings, modifications"));
    items.push(ansi_swatch_value("Blue", &ansi.blue, "Info, titles, headings"));
    items.push(ansi_swatch_value("Magenta", &ansi.magenta, "Attributes, emphasis, operators"));
    items.push(ansi_swatch_value("Cyan", &ansi.cyan, "Focus borders"));
    assert(json_trees(items@) =~= website_colors(cfg@));
    json_list(items)
}

/// Builds the four syntax swatches.
fn syntax_list(cfg: &Config) -> (res: serde_json::Value)
    ensures
        json_tree(res) == JsonTree::List(website_syntax_colors(cfg@)),
{
    let syntax = &cfg.palette.syntax;
    let mut items: Vec<serde_json::Value> = Vec::new();
    items.push(hex_swatch_value("Cyan Teal", syntax.teal.as_str(), "Functions, methods, strings"));
    items.push(
        hex_swatch_value("Blue Green", syntax.blue_green.as_str(), "Keywords, types, constructors"),
    );
    items.push(
        hex_swatch_value("Lavender", syntax.lavender.as_str(), "Numbers, constants, inline code"),
    );
    items.push(hex_swatch_value("Gray", syntax.gray.as_str(), "Comments"));
    assert(json_trees(items@) =~= website_syntax_colors(cfg@));
    json_list(items)
}

/// Builds the three background and foreground swatches.
fn background_list(cfg: &Config) -> (res: serde_json::Value)
    ensures
        json_tree(res) == JsonTree::List(website_background_colors(cfg@)),
{
    let ui = &cfg.palette.ui;
    let mut items: Vec<serde_json::Value> = Vec::new();
    items.push(
        hex_swatch_value(
            "Background",
            ui.background.as_str(),
            "Deep purple-black editor background",
        ),
    );
    items.push(
        hex_swatch_value(
            "Background Alt",
            ui.background_alt.as_str(),
            "Sidebar, panels, inactive tabs",
        ),
    );
    items.push(
        labelled_swatch_value("Foreground", ui.foreground.as_str(), "Soft white text", "#000"),
    );
    assert(json_trees(items@) =~= website_background_colors(cfg@));
    json_list(items)
}

/// Builds the whole document.
pub fn website_document(cfg: &Config) -> (res: serde_json::Value)
    ensures
        json_tree(res) == website_document_tree(cfg@),
{
    let mut meta = object_new();
    put_text(&mut meta, "name", cfg.meta.name.as_str());
    let author = match &cfg.meta.author {
        Some(a) => json_text(a.as_str()),
        None => json_null(),
    };
    object_insert(&mut meta, "author", author);
    let mut root = object_new();
    object_insert(&mut root, "meta", json_object(meta));
    object_insert(&mut root, "colors", colors_list(cfg));
    object_insert(&mut root, "syntaxColors", syntax_list(cfg));
    object_insert(&mut root, "backgroundColors", background_list(cfg));
    json_object(root)
}

/// Renders the website file of a theme: always the one file, since
/// printing a document cannot fail.
pub fn gen_website(cfg: &Config, target: &Target) -> (res: Result<Vec<OutputFile>, GenerateError>)
    ensures
        res is Ok,
        files_view(res->Ok_0@) == website_files(cfg@, target@),
{
    let doc = website_document(cfg);
    let name = single_file_name(target, String::from_str("palette.json"));
    let rendered = to_pretty(&doc);
    single_file(name, rendered)
}

/// The document shows the base palette: two configurations with the same
/// metadata and palette have the same document, whatever their variants.
pub proof fn lemma_website_ignores_variants(a: ConfigView, b: ConfigView)
    requires
        a.meta == b.meta,
        a.palette == b.palette,
    ensures
        website_document_tree(a) == website_document_tree(b),
{
}

} // verus!
