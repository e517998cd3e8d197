use colorloom::color::apply_alpha;
use colorloom::config::{
    AnsiPalette, BasePalette, BorderPalette, ColorVariant, Config, Meta, OutName, Overrides,
    Palette, SyntaxPalette, Target, UiOverrides, UiPalette, Variant,
};
use colorloom::cursor::{cursor_theme, gen_cursor};
use colorloom::ghostty::{gen_ghostty, ghostty_content};
use colorloom::neovim::{gen_neovim, neovim_content};
use colorloom::output::{
    push_rendered, single_file, single_file_name, unknown_target_message, variant_file,
    variant_suffix, GenerateError, OutputFile,
};
use colorloom::targets::{enabled_count, generate, generate_target, target_kind, TargetKind};
use colorloom::website::{gen_website, website_document};
use colorloom::zed::{gen_zed, zed_document, zed_theme, zed_title};
use serde_json::Value;

fn shades(base: &str, bright: &str, dim: &str) -> ColorVariant {
    ColorVariant { base: base.to_string(), bright: bright.to_string(), dim: dim.to_string() }
}

fn config(variants: Vec<Variant>, targets: Vec<Target>) -> Config {
    Config {
        version: "1".to_string(),
        meta: Meta {
            name: "Subliminal Nightfall".to_string(),
            author: Some("Ada".to_string()),
            description: None,
            license: None,
        },
        palette: Palette {
            base: BasePalette {
                ansi: AnsiPalette {
                    red: shades("#FF0000", "#FF1111", "#AA0000"),
                    green: shades("#00FF00", "#11FF11", "#00AA00"),
                    yellow: shades("#FFFF00", "#FFFF11", "#AAAA00"),
                    blue: shades("#0000FF", "#1111FF", "#0000AA"),
                    magenta: shades("#FF00FF", "#FF11FF", "#AA00AA"),
                    cyan: shades("#00FFFF", "#11FFFF", "#00AAAA"),
                },
            },
            syntax: SyntaxPalette {
                teal: "#5fb3a1".to_string(),
                blue_green: "#2d5a5a".to_string(),
                lavender: "#b39ddb".to_string(),
                gray: "#888888".to_string(),
            },
            ui: UiPalette {
                background: "#101010".to_string(),
                background_alt: "#202020".to_string(),
                background_elevated: "#303030".to_string(),
                foreground: "#e0e0e0".to_string(),
                foreground_muted: "#a0a0a0".to_string(),
                foreground_dim: "#606060".to_string(),
                selection: "#404040".to_string(),
                cursor: "#505050".to_string(),
                line_highlight: "#181818".to_string(),
            },
            border: BorderPalette {
                border: "#111111".to_string(),
                border_variant: "#222222".to_string(),
                border_focused: "#333333".to_string(),
                border_selected: "#444444".to_string(),
            },
        },
        variants,
        targets,
    }
}

fn variant(name: &str, alpha: Option<u8>) -> Variant {
    Variant { name: name.to_string(), alpha, blur_radius: None, overrides: None }
}

fn target(id: &str, path: &str) -> Target {
    Target {
        id: id.to_string(),
        enabled: true,
        path: path.to_string(),
        out_file: None,
        out_names: None,
    }
}

fn parse(text: &str) -> Value {
    serde_json::from_str(text).unwrap()
}

#[test]
fn unknown_target_is_an_error_without_files() {
    let cfg = config(vec![variant("base", None)], vec![]);
    match generate_target(&cfg, &target("unknown-app", "out")) {
        Err(GenerateError::UnknownTarget(id)) => assert_eq!(id, "unknown-app"),
        other => panic!("unexpected: {:?}", other),
    }
    assert_eq!(unknown_target_message("unknown-app"), "Unknown target id: unknown-app");
}

#[test]
fn target_ids_match_letter_for_letter() {
    assert_eq!(target_kind("ghostty"), Some(TargetKind::Ghostty));
    assert_eq!(target_kind("zed"), Some(TargetKind::Zed));
    assert_eq!(target_kind("cursor"), Some(TargetKind::Cursor));
    assert_eq!(target_kind("neovim"), Some(TargetKind::Neovim));
    assert_eq!(target_kind("website"), Some(TargetKind::Website));
    assert_eq!(target_kind("Zed"), None);
    assert_eq!(target_kind(""), None);
}

#[test]
fn ghostty_end_to_end() {
    let cfg = config(vec![variant("base", None)], vec![target("ghostty", "out/ghostty")]);
    let outputs = generate(&cfg).unwrap();
    assert_eq!(outputs.len(), 1);
    assert_eq!(outputs[0].dir, "out/ghostty");
    assert_eq!(outputs[0].files.len(), 1);
    assert_eq!(outputs[0].files[0].name, "subliminal-nightfall-base");
    assert!(outputs[0].files[0].content.lines().any(|l| l == "palette = 1=#FF0000"));
}

#[test]
fn ghostty_content_in_full() {
    let cfg = config(vec![], vec![]);
    let text = ghostty_content(&cfg, &variant("transparent", Some(204)));
    let expected = "# Subliminal Nightfall for Ghostty\n\
palette = 0=#7f7f7f\n\
palette = 1=#FF0000\n\
palette = 2=#00FF00\n\
palette = 3=#FFFF00\n\
palette = 4=#0000FF\n\
palette = 5=#FF00FF\n\
palette = 6=#00FFFF\n\
palette = 7=#d4d4d4\n\
palette = 8=#7f7f7f\n\
palette = 9=#FF1111\n\
palette = 10=#11FF11\n\
palette = 11=#FFFF11\n\
palette = 12=#1111FF\n\
palette = 13=#FF11FF\n\
palette = 14=#11FFFF\n\
palette = 15=#ffffff\n\
background = #101010\n\
foreground = #e0e0e0\n\
cursor-color = #505050\n\
cursor-text = #ffffff\n\
selection-background = #404040\n\
selection-foreground = #ffffff\n";
    assert_eq!(text, expected);
}

#[test]
fn ghostty_file_names() {
    let cfg = config(vec![variant("base", None), variant("transparent", Some(204))], vec![]);
    let mut t = target("ghostty", "out");
    t.out_names = Some(vec![
        OutName { variant: "transparent".to_string(), file: "glass".to_string() },
        OutName { variant: "transparent".to_string(), file: "second".to_string() },
    ]);
    let files = gen_ghostty(&cfg, &t);
    assert_eq!(files.len(), 2);
    assert_eq!(files[0].name, "subliminal-nightfall-base");
    assert_eq!(files[1].name, "glass");
    assert_eq!(variant_file(&cfg, &t, "base", ".lua"), "subliminal-nightfall-base.lua");
    assert_eq!(variant_file(&cfg, &t, "transparent", ".lua"), "glass");
}

#[test]
fn zed_end_to_end() {
    let cfg = config(
        vec![variant("base", None), variant("transparent", Some(204))],
        vec![target("zed", "out/zed")],
    );
    let outputs = generate(&cfg).unwrap();
    assert_eq!(outputs.len(), 1);
    assert_eq!(outputs[0].files.len(), 1);
    assert_eq!(outputs[0].files[0].name, "subliminal-nightfall.json");
    let doc = parse(&outputs[0].files[0].content);
    let themes = doc["themes"].as_array().unwrap();
    assert_eq!(themes.len(), 2);
    assert_eq!(themes[1]["style"]["editor.background"], apply_alpha("#101010", 204).as_str());
    assert_eq!(themes[1]["style"]["editor.background"], "#101010CC");
    assert_eq!(themes[0]["style"]["editor.background"], "#101010");
    assert_eq!(themes[0]["name"], "Subliminal Nightfall");
    assert_eq!(themes[1]["name"], "Subliminal Nightfall Transparent");
    assert_eq!(doc["$schema"], "https://zed.dev/schema/themes/v0.2.0.json");
    assert_eq!(doc["name"], "Subliminal Nightfall");
    assert_eq!(doc["author"], "Ada");
}

#[test]
fn zed_theme_in_full() {
    let cfg = config(vec![], vec![]);
    let theme = zed_theme(&cfg, &variant("transparent", Some(128)));
    let expected = parse(
        r##"{
        "name": "Subliminal Nightfall Transparent",
        "appearance": "dark",
        "style": {
            "border": "#111111",
            "border.variant": "#222222",
            "border.focused": "#333333",
            "border.selected": "#444444",
            "text": "#e0e0e0",
            "text.muted": "#a0a0a0",
            "background": "#10101080",
            "surface.background": "#20202080",
            "editor.background": "#10101080",
            "editor.foreground": "#e0e0e0",
            "editor.selection.background": "#40404080",
            "editor.selection.foreground": "#ffffff",
            "editor.active_line.background": "#18181880",
            "terminal.background": "#10101080",
            "terminal.foreground": "#e0e0e0",
            "terminal.ansi.black": "#606060",
            "terminal.ansi.red": "#FF0000",
            "terminal.ansi.green": "#00FF00",
            "terminal.ansi.yellow": "#FFFF00",
            "terminal.ansi.blue": "#0000FF",
            "terminal.ansi.magenta": "#FF00FF",
            "terminal.ansi.cyan": "#00FFFF",
            "terminal.ansi.white": "#d4d4d4",
            "terminal.ansi.bright_black": "#606060",
            "terminal.ansi.bright_red": "#FF1111",
            "terminal.ansi.bright_green": "#11FF11",
            "terminal.ansi.bright_yellow": "#FFFF11",
            "terminal.ansi.bright_blue": "#1111FF",
            "terminal.ansi.bright_magenta": "#FF11FF",
            "terminal.ansi.bright_cyan": "#11FFFF",
            "terminal.ansi.bright_white": "#ffffff"
        },
        "syntax": {
            "comment": {"color": "#888888", "font_style": "italic"},
            "keyword": {"color": "#2d5a5a"},
            "function": {"color": "#5fb3a1"},
            "string": {"color": "#5fb3a1"},
            "number": {"color": "#b39ddb"},
            "attribute": {"color": "#FF00FF", "font_style": "italic"}
        }
    }"##,
    );
    assert_eq!(theme, expected);
}

#[test]
fn zed_titles_and_author() {
    let mut cfg = config(vec![], vec![]);
    assert_eq!(zed_title(&cfg, "base"), "Subliminal Nightfall");
    assert_eq!(zed_title(&cfg, "oled"), "Subliminal Nightfall Oled");
    cfg.meta.author = None;
    let doc = zed_document(&cfg);
    assert_eq!(doc["author"], "");
    assert_eq!(doc["themes"], Value::Array(vec![]));
}

#[test]
fn zed_file_is_pretty_printed_with_its_own_name() {
    let cfg = config(vec![], vec![]);
    let mut t = target("zed", "out");
    t.out_file = Some("night.json".to_string());
    let files = gen_zed(&cfg, &t).unwrap();
    assert_eq!(files.len(), 1);
    assert_eq!(files[0].name, "night.json");
    let expected = "{\n  \"$schema\": \"https://zed.dev/schema/themes/v0.2.0.json\",\n  \
\"author\": \"Ada\",\n  \"name\": \"Subliminal Nightfall\",\n  \"themes\": []\n}";
    assert_eq!(files[0].content, expected);
    assert_eq!(parse(&files[0].content), zed_document(&cfg));
}

#[test]
fn cursor_theme_in_full() {
    let cfg = config(vec![], vec![]);
    let theme = cursor_theme(&cfg, &variant("transparent", Some(128)));
    let expected = parse(
        r##"{
        "name": "Subliminal Nightfall (Transparent)",
        "type": "dark",
        "colors": {
            "editor.background": "#10101080",
            "editor.foreground": "#e0e0e0",
            "editor.lineHighlightBackground": "#18181880",
            "editor.selectionBackground": "#40404080",
            "editorCursor.foreground": "#505050",
            "sideBar.background": "#202020",
            "sideBar.foreground": "#e0e0e0",
            "sideBar.border": "#111111",
            "terminal.background": "#10101080",
            "terminal.foreground": "#e0e0e0",
            "terminal.ansiBlack": "#606060",
            "terminal.ansiRed": "#FF0000",
            "terminal.ansiGreen": "#00FF00",
            "terminal.ansiYellow": "#FFFF00",
            "terminal.ansiBlue": "#0000FF",
            "terminal.ansiMagenta": "#FF00FF",
            "terminal.ansiCyan": "#00FFFF",
            "terminal.ansiWhite": "#d4d4d4",
            "terminal.ansiBrightBlack": "#606060",
            "terminal.ansiBrightRed": "#FF1111",
            "terminal.ansiBrightGreen": "#11FF11",
            "terminal.ansiBrightYellow": "#FFFF11",
            "terminal.ansiBrightBlue": "#1111FF",
            "terminal.ansiBrightMagenta": "#FF11FF",
            "terminal.ansiBrightCyan": "#11FFFF",
            "terminal.ansiBrightWhite": "#ffffff"
        },
        "tokenColors": [
            {"scope": ["keyword", "storage.type", "storage.modifier"], "settings": {"foreground": "#2d5a5a"}},
            {"scope": ["entity.name.function", "support.function"], "settings": {"foreground": "#5fb3a1"}},
            {"scope": ["string", "string.quoted"], "settings": {"foreground": "#5fb3a1"}},
            {"scope": ["constant.numeric", "constant.language"], "settings": {"foreground": "#b39ddb"}},
            {"scope": ["comment", "punctuation.definition.comment"], "settings": {"foreground": "#888888", "fontStyle": "italic"}}
        ]
    }"##,
    );
    assert_eq!(theme, expected);
}

#[test]
fn cursor_writes_one_file_per_variant() {
    let cfg = config(vec![variant("base", None), variant("transparent", Some(204))], vec![]);
    let files = gen_cursor(&cfg, &target("cursor", "out")).unwrap();
    assert_eq!(files.len(), 2);
    assert_eq!(files[0].name, "subliminal-nightfall-base.json");
    assert_eq!(files[1].name, "subliminal-nightfall-transparent.json");
    assert_eq!(parse(&files[0].content), cursor_theme(&cfg, &cfg.variants[0]));
    assert_eq!(parse(&files[1].content), cursor_theme(&cfg, &cfg.variants[1]));
    assert_eq!(parse(&files[0].content)["name"], "Subliminal Nightfall");
    assert!(files[0].content.starts_with("{\n  \"colors\": {\n    \"editor.background\": \"#101010\","));
}

#[test]
fn neovim_content_in_full() {
    let cfg = config(vec![], vec![]);
    let text = neovim_content(&cfg, &variant("transparent", Some(204)));
    let expected = "-- Generated by colorloom\n\
vim.cmd('highlight clear')\n\
if vim.fn.exists('syntax_on') then vim.cmd('syntax reset') end\n\
vim.g.colors_name = 'Subliminal Nightfall (Transparent)'\n\
vim.o.background = 'dark'\n\
local c = {\n  \
bg = '#101010CC', bg_alt = '#202020', fg = '#e0e0e0', fg_muted = '#a0a0a0', fg_dim = '#606060',\n  \
selection = '#404040CC', cursor = '#505050', line = '#181818CC',\n  \
red = '#FF0000', green = '#00FF00', yellow = '#FFFF00', blue = '#0000FF', magenta = '#FF00FF', \
cyan = '#00FFFF', purple = '#b39ddb', teal = '#5fb3a1', dark_blue = '#2d5a5a'\n\
}\n\
local function hl(g, o) vim.api.nvim_set_hl(0, g, o) end\n\
hl('Normal', { fg = c.fg, bg = c.bg })\n\
hl('CursorLine', { bg = c.line })\n\
hl('Visual', { bg = c.selection, fg = '#ffffff' })\n\
hl('Comment', { fg = c.fg_dim, italic = true })\n\
hl('String', { fg = c.teal })\n\
hl('Number', { fg = c.purple })\n\
hl('Function', { fg = c.teal })\n\
hl('Keyword', { fg = c.dark_blue })\n";
    assert_eq!(text, expected);
}

#[test]
fn neovim_writes_one_script_per_variant() {
    let cfg = config(vec![variant("base", None), variant("transparent", Some(204))], vec![]);
    let files = gen_neovim(&cfg, &target("neovim", "out"));
    assert_eq!(files.len(), 2);
    assert_eq!(files[0].name, "subliminal-nightfall-base.lua");
    assert_eq!(files[1].name, "subliminal-nightfall-transparent.lua");
    assert!(files[0].content.contains("vim.g.colors_name = 'Subliminal Nightfall'\n"));
    assert_eq!(files[1].content, neovim_content(&cfg, &cfg.variants[1]));
}

#[test]
fn website_document_in_full() {
    let cfg = config(vec![variant("transparent", Some(1))], vec![]);
    let expected = parse(
        r##"{
        "meta": {"name": "Subliminal Nightfall", "author": "Ada"},
        "colors": [
            {"name": "Red", "base": "#FF0000", "bright": "#FF1111", "dim": "#AA0000", "usage": "Errors, deletions, keywords"},
            {"name": "Green", "base": "#00FF00", "bright": "#11FF11", "dim": "#00AA00", "usage": "Success, additions"},
            {"name": "Yellow", "base": "#FFFF00", "bright": "#FFFF11", "dim": "#AAAA00", "usage": "Warnings, modifications"},
            {"name": "Blue", "base": "#0000FF", "bright": "#1111FF", "dim": "#0000AA", "usage": "Info, titles, headings"},
            {"name": "Magenta", "base": "#FF00FF", "bright": "#FF11FF", "dim": "#AA00AA", "usage": "Attributes, emphasis, operators"},
            {"name": "Cyan", "base": "#00FFFF", "bright": "#11FFFF", "dim": "#00AAAA", "usage": "Focus borders"}
        ],
        "syntaxColors": [
            {"name": "Cyan Teal", "hex": "#5fb3a1", "usage": "Functions, methods, strings"},
            {"name": "Blue Green", "hex": "#2d5a5a", "usage": "Keywords, types, constructors"},
            {"name": "Lavender", "hex": "#b39ddb", "usage": "Numbers, constants, inline code"},
            {"name": "Gray", "hex": "#888888", "usage": "Comments"}
        ],
        "backgroundColors": [
            {"name": "Background", "hex": "#101010", "usage": "Deep purple-black editor background"},
            {"name": "Background Alt", "hex": "#202020", "usage": "Sidebar, panels, inactive tabs"},
            {"name": "Foreground", "hex": "#e0e0e0", "usage": "Soft white text", "textColor": "#000"}
        ]
    }"##,
    );
    assert_eq!(website_document(&cfg), expected);
}

#[test]
fn website_file_and_missing_author() {
    let mut cfg = config(vec![], vec![]);
    cfg.meta.author = None;
    let files = gen_website(&cfg, &target("website", "site")).unwrap();
    assert_eq!(files.len(), 1);
    assert_eq!(files[0].name, "palette.json");
    let doc = parse(&files[0].content);
    assert_eq!(doc["meta"]["author"], Value::Null);
    assert_eq!(doc, website_document(&cfg));
    assert!(files[0].content.starts_with("{\n  \"backgroundColors\": [\n    {\n      \"hex\": \"#101010\","));
    let mut t = target("website", "site");
    t.out_file = Some("swatches.json".to_string());
    assert_eq!(gen_website(&cfg, &t).unwrap()[0].name, "swatches.json");
}

#[test]
fn disabled_target_renders_nothing() {
    let mut off = target("ghostty", "out/ghostty");
    off.enabled = false;
    let mut unknown_off = target("unknown-app", "out/x");
    unknown_off.enabled = false;
    let cfg = config(
        vec![variant("base", None)],
        vec![off, target("neovim", "out/nvim"), unknown_off],
    );
    assert_eq!(enabled_count(&cfg), 1);
    let outputs = generate(&cfg).unwrap();
    assert_eq!(outputs.len(), 1);
    assert_eq!(outputs[0].dir, "out/nvim");
    assert_eq!(outputs[0].files.len(), 1);
}

#[test]
fn generate_stops_at_the_first_unknown_target() {
    let cfg = config(
        vec![variant("base", None)],
        vec![target("ghostty", "a"), target("first", "b"), target("second", "c")],
    );
    match generate(&cfg) {
        Err(GenerateError::UnknownTarget(id)) => assert_eq!(id, "first"),
        other => panic!("unexpected: {:?}", other),
    }
}

#[test]
fn generate_renders_every_enabled_target_in_order() {
    let cfg = config(
        vec![variant("base", None), variant("transparent", Some(204))],
        vec![
            target("ghostty", "g"),
            target("zed", "z"),
            target("cursor", "c"),
            target("neovim", "n"),
            target("website", "w"),
        ],
    );
    let outputs = generate(&cfg).unwrap();
    let dirs: Vec<&str> = outputs.iter().map(|o| o.dir.as_str()).collect();
    assert_eq!(dirs, vec!["g", "z", "c", "n", "w"]);
    let counts: Vec<usize> = outputs.iter().map(|o| o.files.len()).collect();
    assert_eq!(counts, vec![2, 1, 2, 2, 1]);
    assert_eq!(enabled_count(&cfg), 5);
}

#[test]
fn a_generated_target_matches_its_encoder() {
    let cfg = config(vec![variant("base", None)], vec![]);
    let t = target("neovim", "n");
    let files = generate_target(&cfg, &t).unwrap();
    assert_eq!(files.len(), 1);
    assert_eq!(files[0].content, neovim_content(&cfg, &cfg.variants[0]));
    let mut off = target("ghostty", "g");
    off.enabled = false;
    assert_eq!(generate_target(&cfg, &off).unwrap().len(), 1);
}

#[test]
fn variant_suffix_is_empty_for_base() {
    assert_eq!(variant_suffix("base"), "");
    assert_eq!(variant_suffix("transparent"), " (Transparent)");
    assert_eq!(variant_suffix(""), " ()");
}

#[test]
fn single_file_name_prefers_the_target() {
    let mut t = target("zed", "out");
    assert_eq!(single_file_name(&t, "fallback.json".to_string()), "fallback.json");
    t.out_file = Some("mine.json".to_string());
    assert_eq!(single_file_name(&t, "fallback.json".to_string()), "mine.json");
}

#[test]
fn printer_errors_become_json_errors() {
    let failed = serde_json::from_str::<Value>("{").unwrap_err();
    assert!(matches!(single_file("a".to_string(), Err(failed)), Err(GenerateError::Json(_))));
    let files = single_file("a".to_string(), Ok("{}".to_string())).unwrap();
    assert_eq!(files.len(), 1);
    assert_eq!(files[0].name, "a");
    assert_eq!(files[0].content, "{}");
    let mut kept = vec![OutputFile { name: "x".to_string(), content: "y".to_string() }];
    let failed = serde_json::from_str::<Value>("{").unwrap_err();
    assert!(matches!(
        push_rendered(&mut kept, "b".to_string(), Err(failed)),
        Err(GenerateError::Json(_))
    ));
    assert_eq!(kept.len(), 1);
    assert!(push_rendered(&mut kept, "b".to_string(), Ok("z".to_string())).is_ok());
    assert_eq!(kept.len(), 2);
    assert_eq!(kept[1].name, "b");
    assert_eq!(kept[1].content, "z");
}

#[test]
fn overrides_reach_the_encoders() {
    let cfg = config(vec![], vec![]);
    let v = Variant {
        name: "ink".to_string(),
        alpha: Some(128),
        blur_radius: Some(4),
        overrides: Some(Overrides {
            ui: Some(UiOverrides {
                background: Some("#000000FF".to_string()),
                ..UiOverrides::default()
            }),
        }),
    };
    let text = ghostty_content(&cfg, &v);
    assert!(text.contains("background = #000000\n"));
    assert_eq!(zed_theme(&cfg, &v)["style"]["background"], "#000000FF");
    assert_eq!(zed_theme(&cfg, &v)["style"]["surface.background"], "#20202080");
}

#[test]
fn ghostty_drops_a_variant_alpha() {
    let cfg = config(vec![], vec![]);
    assert_eq!(
        ghostty_content(&cfg, &variant("glass", Some(77))),
        ghostty_content(&cfg, &variant("plain", None))
    );
}

#[test]
fn website_shows_the_base_palette_whatever_the_variants() {
    let plain = config(vec![], vec![]);
    let varied = config(vec![variant("glass", Some(77))], vec![target("zed", "z")]);
    assert_eq!(website_document(&plain), website_document(&varied));
}

#[test]
fn zed_syntax_has_six_categories() {
    let cfg = config(vec![], vec![]);
    let theme = zed_theme(&cfg, &variant("base", None));
    let syntax = theme["syntax"].as_object().unwrap();
    let mut keys: Vec<&str> = syntax.keys().map(|k| k.as_str()).collect();
    keys.sort();
    assert_eq!(keys, vec!["attribute", "comment", "function", "keyword", "number", "string"]);
    for (key, style) in syntax {
        let italic = key == "comment" || key == "attribute";
        assert_eq!(style.get("font_style").is_some(), italic);
        if italic {
            assert_eq!(style["font_style"], "italic");
        }
    }
    let other = zed_theme(&cfg, &variant("transparent", Some(204)));
    assert_eq!(other["syntax"], theme["syntax"]);
}

#[test]
fn every_known_target_renders() {
    let cfg = config(vec![variant("base", None), variant("transparent", Some(204))], vec![]);
    for id in ["ghostty", "zed", "cursor", "neovim", "website"] {
        assert!(generate_target(&cfg, &target(id, "out")).is_ok());
    }
    assert!(gen_zed(&cfg, &target("zed", "out")).is_ok());
    assert!(gen_cursor(&cfg, &target("cursor", "out")).is_ok());
    assert!(gen_website(&cfg, &target("website", "out")).is_ok());
    for id in ["Ghostty", "zed ", "vscode", ""] {
        assert!(generate_target(&cfg, &target(id, "out")).is_err());
    }
}

#[test]
fn file_names_are_a_map_where_no_variant_occurs_twice() {
    let mut t = target("ghostty", "out");
    assert!(t.is_well_formed());
    t.out_names = Some(vec![]);
    assert!(t.is_well_formed());
    t.out_names = Some(vec![
        OutName { variant: "base".to_string(), file: "a".to_string() },
        OutName { variant: "transparent".to_string(), file: "a".to_string() },
        OutName { variant: "oled".to_string(), file: "c".to_string() },
    ]);
    assert!(t.is_well_formed());
    let cfg = config(vec![], vec![]);
    assert_eq!(variant_file(&cfg, &t, "oled", ".lua"), "c");
    assert_eq!(variant_file(&cfg, &t, "base", ".lua"), "a");
    t.out_names = Some(vec![
        OutName { variant: "base".to_string(), file: "a".to_string() },
        OutName { variant: "oled".to_string(), file: "b".to_string() },
        OutName { variant: "base".to_string(), file: "c".to_string() },
    ]);
    assert!(!t.is_well_formed());
    t.out_names = Some(vec![
        OutName { variant: "oled".to_string(), file: "b".to_string() },
        OutName { variant: "base".to_string(), file: "a".to_string() },
        OutName { variant: "base".to_string(), file: "c".to_string() },
    ]);
    assert!(!t.is_well_formed());
}
