//! The Ghostty encoder: one text file of `key = value` lines per variant.
//! The format has no alpha channel, so the colours lose theirs.

use vstd::prelude::*;
use vstd::string::*;
use crate::color::{
    color_digits, lemma_strip_drops_applied_alpha, strip_alpha, strip_alpha_spec,
};
use crate::config::{
    no_ui_overrides, Config, ConfigView, Target, TargetView, Variant, VariantView,
};
use crate::output::{files_view, variant_file, variant_file_spec, OutputFile, OutputFileView};
use crate::resolve::{resolve_ui, ui_overrides_of, ui_with_variant};

verus! {

/// One line of the file: the key, ` = `, the value and a line feed.
pub open spec fn setting(key: Seq<char>, value: Seq<char>) -> Seq<char> {
    key + " = "@ + value + "\n"@
}

/// The value of a `palette` line: the slot, `=` and the colour.
pub open spec fn slot(number: Seq<char>, color: Seq<char>) -> Seq<char> {
    number + "="@ + color
}

/// The content of the file for one variant. Slots 0, 7, 8 and 15 are
/// fixed; slots 1 to 6 are the base shades and 9 to 14 the bright shades of
/// the ANSI colours.
pub open spec fn ghostty_text(cfg: ConfigView, variant: VariantView) -> Seq<char> {
    let ansi = cfg.palette.base.ansi;
    let ui = resolve_ui(cfg.palette.ui, variant);
    "# "@ + cfg.meta.name + " for Ghostty\n"@
        + setting("palette"@, slot("0"@, "#7f7f7f"@))
        + setting("palette"@, slot("1"@, ansi.red.base))
        + setting("palette"@, slot("2"@, ansi.green.base))
        + setting("palette"@, slot("3"@, ansi.yellow.base))
        + setting("palette"@, slot("4"@, ansi.blue.base))
        + setting("palette"@, slot("5"@, ansi.magenta.base))
        + setting("palette"@, slot("6"@, ansi.cyan.base))
        + setting("palette"@, slot("7"@, "#d4d4d4"@))
        + setting("palette"@, slot("8"@, "#7f7f7f"@))
        + setting("palette"@, slot("9"@, ansi.red.bright))
        + setting("palette"@, slot("10"@, ansi.green.bright))
        + setting("palette"@, slot("11"@, ansi.yellow.bright))
        + setting("palette"@, slot("12"@, ansi.blue.bright))
        + setting("palette"@, slot("13"@, ansi.magenta.bright))
        + setting("palette"@, slot("14"@, ansi.cyan.bright))
        + setting("palette"@, slot("15"@, "#ffffff"@))
        + setting("background"@, strip_alpha_spec(ui.background))
        + setting("foreground"@, strip_alpha_spec(ui.foreground))
        + setting("cursor-color"@, strip_alpha_spec(ui.cursor))
        + setting("cursor-text"@, "#ffffff"@)
        + setting("selection-background"@, strip_alpha_spec(ui.selection))
        + setting("selection-foreground"@, "#ffffff"@)
}

/// The file for the variant at `index`: its name and its content.
pub open spec fn ghostty_file(cfg: ConfigView, target: TargetView, index: int) -> OutputFileView {
    let variant = cfg.variants[index];
    OutputFileView {
        name: variant_file_spec(cfg, target, variant.name, Seq::<char>::empty()),
        content: ghostty_text(cfg, variant),
    }
}

/// The files of the Ghostty encoder: one per variant, in their order.
pub open spec fn ghostty_files(cfg: ConfigView, target: TargetView) -> Seq<OutputFileView> {
    Seq::new(cfg.variants.len(), |i: int| ghostty_file(cfg, target, i))
}

/// Adds one line to the file.
fn push_setting(out: &mut String, key: &str, value: &str)
    ensures
        final(out)@ == old(out)@ + setting(key@, value@),
{
    out.append(key);
    out.append(" = ");
    out.append(value);
    out.append("\n");
    assert(out@ =~= old(out)@ + setting(key@, value@));
}

/// Adds one `palette` line to the file.
fn push_slot(out: &mut String, number: &str, color: &str)
    ensures
        final(out)@ == old(out)@ + setting("palette"@, slot(number@, color@)),
{
    let mut value = String::from_str(number);
    value.append("=");
    value.append(color);
    push_setting(out, "palette", value.as_str());
}

/// Renders the content of the Ghostty file for one variant.
pub fn ghostty_content(cfg: &Config, variant: &Variant) -> (res: String)
    ensures
        res@ == ghostty_text(cfg@, variant@),
{
    let ansi = &cfg.palette.base.ansi;
    let ui = ui_with_variant(cfg, variant);
    let mut out = String::from_str("# ");
    out.append(cfg.meta.name.as_str());
    out.append(" for Ghostty\n");
    push_slot(&mut out, "0", "#7f7f7f");
    push_slot(&mut out, "1", ansi.red.base.as_str());
    push_slot(&mut out, "2", ansi.green.base.as_str());
    push_slot(&mut out, "3", ansi.yellow.base.as_str());
    push_slot(&mut out, "4", ansi.blue.base.as_str());
    push_slot(&mut out, "5", ansi.magenta.base.as_str());
    push_slot(&mut out, "6", ansi.cyan.base.as_str());
    push_slot(&mut out, "7", "#d4d4d4");
    push_slot(&mut out, "8", "#7f7f7f");
    push_slot(&mut out, "9", ansi.red.bright.as_str());
    push_slot(&mut out, "10", ansi.green.bright.as_str());
    push_slot(&mut out, "11", ansi.yellow.bright.as_str());
    push_slot(&mut out, "12", ansi.blue.bright.as_str());
    push_slot(&mut out, "13", ansi.magenta.bright.as_str());
    push_slot(&mut out, "14", ansi.cyan.bright.as_str());
    push_slot(&mut out, "15", "#ffffff");
    push_setting(&mut out, "background", strip_alpha(ui.background.as_str()).as_str());
    push_setting(&mut out, "foreground", strip_alpha(ui.foreground.as_str()).as_str());
    push_setting(&mut out, "cursor-color", strip_alpha(ui.cursor.as_str()).as_str());
    push_setting(&mut out, "cursor-text", "#ffffff");
    push_setting(&mut out, "selection-background", strip_alpha(ui.selection.as_str()).as_str());
    push_setting(&mut out, "selection-foreground", "#ffffff");
    out
}

/// Renders the Ghostty files of a theme: one per variant, in their order.
/// This encoder cannot fail.
pub fn gen_ghostty(cfg: &Config, target: &Target) -> (res: Vec<OutputFile>)
    ensures
        files_view(res@) == ghostty_files(cfg@, target@),
{
    let mut files: Vec<OutputFile> = Vec::new();
    let mut i: usize = 0;
    while i < cfg.variants.len()
        invariant
            i <= cfg.variants@.len(),
            files@.len() == i,
            forall|k: int| 0 <= k < i ==> (#[trigger] files@[k])@ == ghostty_file(cfg@, target@, k),
        decreases cfg.variants@.len() - i,
    {
        let variant = &cfg.variants[i];
        let name = variant_file(cfg, target, variant.name.as_str(), "");
        let content = ghostty_content(cfg, variant);
        proof {
            reveal_strlit("");
            assert(""@ =~= Seq::<char>::empty());
        }
        files.push(OutputFile { name: name, content: content });
        i = i + 1;
    }
    assert(files_view(files@) =~= ghostty_files(cfg@, target@));
    files
}

/// The format has no alpha channel: where the background and the selection
/// have their six digits and nothing is overridden, a variant's alpha leaves
/// no trace in its file.
pub proof fn lemma_ghostty_drops_alpha(cfg: ConfigView, variant: VariantView, plain: VariantView)
    requires
        ui_overrides_of(variant) == no_ui_overrides(),
        ui_overrides_of(plain) == no_ui_overrides(),
        plain.alpha is None,
        color_digits(cfg.palette.ui.background).len() == 6,
        color_digits(cfg.palette.ui.selection).len() == 6,
    ensures
        ghostty_text(cfg, variant) == ghostty_text(cfg, plain),
{
    match variant.alpha {
        Some(alpha) => {
            lemma_strip_drops_applied_alpha(cfg.palette.ui.background, alpha);
            lemma_strip_drops_applied_alpha(cfg.palette.ui.selection, alpha);
        },
        None => {},
    }
}

/// Every file begins with the comment line, the line of slot 0 and the
/// line that gives slot 1 the base red.
pub proof fn lemma_ghostty_sets_red(cfg: ConfigView, variant: VariantView)
    ensures
        ("# "@ + cfg.meta.name + " for Ghostty\n"@ + setting("palette"@, slot("0"@, "#7f7f7f"@))
            + setting("palette"@, slot("1"@, cfg.palette.base.ansi.red.base))).is_prefix_of(
            ghostty_text(cfg, variant),
        ),
{
}

} // verus!
