//! The Neovim encoder: one Lua script per variant, which defines a table
//! of colours and the highlight groups that use it.

use vstd::prelude::*;
use vstd::string::*;
use crate::config::{Config, ConfigView, Target, TargetView, Variant, VariantView};
use crate::output::{
    files_view, variant_file, variant_file_spec, variant_suffix, variant_suffix_spec, OutputFile,
    OutputFileView,
};
use crate::resolve::{resolve_ui, ui_with_variant};

verus! {

/// The script for one variant. The background, foreground, selection,
/// cursor and line colours are those of the variant's effective palette;
/// `bg_alt`, `fg_muted` and `fg_dim` are always the base palette's. The
/// foreground of a visual selection is pure white.
pub open spec fn neovim_text(cfg: ConfigView, variant: VariantView) -> Seq<char> {
    let ui = resolve_ui(cfg.palette.ui, variant);
    "-- Generated by colorloom\n"@
        + "vim.cmd('highlight clear')\n"@
        + "if vim.fn.exists('syntax_on') then vim.cmd('syntax reset') end\n"@
        + "vim.g.colors_name = '"@
        + cfg.meta.name
        + variant_suffix_spec(variant.name)
        + "'\n"@
        + "vim.o.background = 'dark'\n"@
        + "local c = {\n"@
        + "  bg = '"@
        + ui.background
        + "', bg_alt = '"@
        + cfg.palette.ui.background_alt
        + "', fg = '"@
        + ui.foreground
        + "', fg_muted = '"@
        + cfg.palette.ui.foreground_muted
        + "', fg_dim = '"@
        + cfg.palette.ui.foreground_dim
        + "',\n"@
        + "  selection = '"@
        + ui.selection
        + "', cursor = '"@
        + ui.cursor
        + "', line = '"@
        + ui.line_highlight
        + "',\n"@
        + "  red = '"@
        + cfg.palette.base.ansi.red.base
        + "', green = '"@
        + cfg.palette.base.ansi.green.base
        + "', yellow = '"@
        + cfg.palette.base.ansi.yellow.base
        + "', blue = '"@
        + cfg.palette.base.ansi.blue.base
        + "', magenta = '"@
        + cfg.palette.base.ansi.magenta.base
        + "', cyan = '"@
        + cfg.palette.base.ansi.cyan.base
        + "', purple = '"@
        + cfg.palette.syntax.lavender
        + "', teal = '"@
        + cfg.palette.syntax.teal
        + "', dark_blue = '"@
        + cfg.palette.syntax.blue_green
        + "'\n"@
        + "}\n"@
        + "local function hl(g, o) vim.api.nvim_set_hl(0, g, o) end\n"@
        + "hl('Normal', { fg = c.fg, bg = c.bg })\n"@
        + "hl('CursorLine', { bg = c.line })\n"@
        + "hl('Visual', { bg = c.selection, fg = '#ffffff' })\n"@
        + "hl('Comment', { fg = c.fg_dim, italic = true })\n"@
        + "hl('String', { fg = c.teal })\n"@
        + "hl('Number', { fg = c.purple })\n"@
        + "hl('Function', { fg = c.teal })\n"@
        + "hl('Keyword', { fg = c.dark_blue })\n"@
}

/// The file for the variant at `index`: its name and its script.
pub open spec fn neovim_file(cfg: ConfigView, target: TargetView, index: int) -> OutputFileView {
    let variant = cfg.variants[index];
    OutputFileView {
        name: variant_file_spec(cfg, target, variant.name, ".lua"@),
        content: neovim_text(cfg, variant),
    }
}

/// The files of the Neovim encoder: one per variant, in their order.
pub open spec fn neovim_files(cfg: ConfigView, target: TargetView) -> Seq<OutputFileView> {
    Seq::new(cfg.variants.len(), |i: int| neovim_file(cfg, target, i))
}

/// Renders the script for one variant.
pub fn neovim_content(cfg: &Config, variant: &Variant) -> (res: String)
    ensures
        res@ == neovim_text(cfg@, variant@),
{
    let ui = ui_with_variant(cfg, variant);
    let mut out = String::from_str("-- Generated by colorloom\n");
    out.append("vim.cmd('highlight clear')\n");
    out.append("if vim.fn.exists('syntax_on') then vim.cmd('syntax reset') end\n");
    out.append("vim.g.colors_name = '");
    out.append(cfg.meta.name.as_str());
    out.append(variant_suffix(variant.name.as_str()).as_str());
    out.append("'\n");
    out.append("vim.o.background = 'dark'\n");
    out.append("local c = {\n");
    out.append("  bg = '");
    out.append(ui.background.as_str());
    out.append("', bg_alt = '");
    out.append(cfg.palette.ui.background_alt.as_str());
    out.append("', fg = '");
    out.append(ui.foreground.as_str());
    out.append("', fg_muted = '");
    out.append(cfg.palette.ui.foreground_muted.as_str());
    out.append("', fg_dim = '");
    out.append(cfg.palette.ui.foreground_dim.as_str());
    out.append("',\n");
    out.append("  selection = '");
    out.append(ui.selection.as_str());
    out.append("', cursor = '");
    out.append(ui.cursor.as_str());
    out.append("', line = '");
    out.append(ui.line_highlight.as_str());
    out.append("',\n");
    out.append("  red = '");
    out.append(cfg.palette.base.ansi.red.base.as_str());
    out.append("', green = '");
    out.append(cfg.palette.base.ansi.green.base.as_str());
    out.append("', yellow = '");
    out.append(cfg.palette.base.ansi.yellow.base.as_str());
    out.append("', blue = '");
    out.append(cfg.palette.base.ansi.blue.base.as_str());
    out.append("', magenta = '");
    out.append(cfg.palette.base.ansi.magenta.base.as_str());
    out.append("', cyan = '");
    out.append(cfg.palette.base.ansi.cyan.base.as_str());
    out.append("', purple = '");
    out.append(cfg.palette.syntax.lavender.as_str());
    out.append("', teal = '");
    out.append(cfg.palette.syntax.teal.as_str());
    out.append("', dark_blue = '");
    out.append(cfg.palette.syntax.blue_green.as_str());
    out.append("'\n");
    out.append("}\n");
    out.append("local function hl(g, o) vim.api.nvim_set_hl(0, g, o) end\n");
    out.append("hl('Normal', { fg = c.fg, bg = c.bg })\n");
    out.append("hl('CursorLine', { bg = c.line })\n");
    out.append("hl('Visual', { bg = c.selection, fg = '#ffffff' })\n");
    out.append("hl('Comment', { fg = c.fg_dim, italic = true })\n");
    out.append("hl('String', { fg = c.teal })\n");
    out.append("hl('Number', { fg = c.purple })\n");
    out.append("hl('Function', { fg = c.teal })\n");
    out.append("hl('Keyword', { fg = c.dark_blue })\n");
    out
}

/// Renders the Neovim files of a theme: one per variant, in their order.
/// This encoder cannot fail.
pub fn gen_neovim(cfg: &Config, target: &Target) -> (res: Vec<OutputFile>)
    ensures
        files_view(res@) == neovim_files(cfg@, target@),
{
    let mut files: Vec<OutputFile> = Vec::new();
    let mut i: usize = 0;
    while i < cfg.variants.len()
        invariant
            i <= cfg.variants@.len(),
            files@.len() == i,
            forall|k: int| 0 <= k < i ==> (#[trigger] files@[k])@ == neovim_file(cfg@, target@, k),
        decreases cfg.variants@.len() - i,
    {
        let variant = &cfg.variants[i];
        let name = variant_file(cfg, target, variant.name.as_str(), ".lua");
        let content = neovim_content(cfg, variant);
        files.push(OutputFile { name: name, content: content });
        i = i + 1;
    }
    assert(files_view(files@) =~= neovim_files(cfg@, target@));
    files
}

} // verus!
