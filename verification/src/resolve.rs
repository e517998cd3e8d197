//! The effective user-interface palette of a variant: the base palette,
//! then the variant's alpha on the background family, then its overrides.

use vstd::prelude::*;
use crate::color::{apply_alpha, apply_alpha_spec};
use crate::config::{
    no_ui_overrides, opt_view, Config, UiOverrides, UiOverridesView, UiPalette, UiPaletteView,
    Variant, VariantView,
};

verus! {

/// A colour of the background family under a variant's alpha: the alpha
/// channel is set where the variant has one.
pub open spec fn with_alpha(color: Seq<char>, alpha: Option<u8>) -> Seq<char> {
    match alpha {
        Some(a) => apply_alpha_spec(color, a),
        None => color,
    }
}

/// The override where there is one, else the value.
pub open spec fn overridden(over: Option<Seq<char>>, value: Seq<char>) -> Seq<char> {
    match over {
        Some(v) => v,
        None => value,
    }
}

/// The user-interface overrides of a variant; a variant without any has the
/// overrides that replace nothing.
pub open spec fn ui_overrides_of(variant: VariantView) -> UiOverridesView {
    match variant.overrides {
        Some(o) => match o.ui {
            Some(u) => u,
            None => no_ui_overrides(),
        },
        None => no_ui_overrides(),
    }
}

/// The effective palette of a variant. Alpha reaches the five colours of the
/// background family only; an override wins over alpha.
pub open spec fn resolve_ui(base: UiPaletteView, variant: VariantView) -> UiPaletteView {
    let o = ui_overrides_of(variant);
    let a = variant.alpha;
    UiPaletteView {
        background: overridden(o.background, with_alpha(base.background, a)),
        background_alt: overridden(o.background_alt, with_alpha(base.background_alt, a)),
        background_elevated: overridden(
            o.background_elevated,
            with_alpha(base.background_elevated, a),
        ),
        foreground: overridden(o.foreground, base.foreground),
        foreground_muted: overridden(o.foreground_muted, base.foreground_muted),
        foreground_dim: overridden(o.foreground_dim, base.foreground_dim),
        selection: overridden(o.selection, with_alpha(base.selection, a)),
        cursor: overridden(o.cursor, base.cursor),
        line_highlight: overridden(o.line_highlight, with_alpha(base.line_highlight, a)),
    }
}

/// One colour of the background family, resolved.
fn resolve_background(base: &String, alpha: Option<u8>, over: &Option<String>) -> (res: String)
    ensures
        res@ == overridden(opt_view(*over), with_alpha(base@, alpha)),
{
    match over {
        Some(v) => v.clone(),
        None => match alpha {
            Some(a) => apply_alpha(base.as_str(), a),
            None => base.clone(),
        },
    }
}

/// One colour outside the background family, resolved.
fn resolve_plain(base: &String, over: &Option<String>) -> (res: String)
    ensures
        res@ == overridden(opt_view(*over), base@),
{
    match over {
        Some(v) => v.clone(),
        None => base.clone(),
    }
}

/// The overrides of a variant as one record.
fn ui_overrides(variant: &Variant) -> (res: UiOverrides)
    ensures
        res@ == ui_overrides_of(variant@),
{
    match &variant.overrides {
        Some(o) => match &o.ui {
            Some(u) => UiOverrides {
                background: u.background.clone(),
                background_alt: u.background_alt.clone(),
                background_elevated: u.background_elevated.clone(),
                selection: u.selection.clone(),
                cursor: u.cursor.clone(),
                line_highlight: u.line_highlight.clone(),
                foreground: u.foreground.clone(),
                foreground_muted: u.foreground_muted.clone(),
                foreground_dim: u.foreground_dim.clone(),
            },
            None => UiOverrides::default(),
        },
        None => UiOverrides::default(),
    }
}

/// Resolves the palette that `variant` shows. The configuration's own
/// palette is left as it is: the result is a new value.
pub fn ui_with_variant(cfg: &Config, variant: &Variant) -> (res: UiPalette)
    ensures
        res@ == resolve_ui(cfg@.palette.ui, variant@),
{
    let base = &cfg.palette.ui;
    let o = ui_overrides(variant);
    let a = variant.alpha;
    UiPalette {
        background: resolve_background(&base.background, a, &o.background),
        background_alt: resolve_background(&base.background_alt, a, &o.background_alt),
        background_elevated: resolve_background(
            &base.background_elevated,
            a,
            &o.background_elevated,
        ),
        foreground: resolve_plain(&base.foreground, &o.foreground),
        foreground_muted: resolve_plain(&base.foreground_muted, &o.foreground_muted),
        foreground_dim: resolve_plain(&base.foreground_dim, &o.foreground_dim),
        selection: resolve_background(&base.selection, a, &o.selection),
        cursor: resolve_plain(&base.cursor, &o.cursor),
        line_highlight: resolve_background(&base.line_highlight, a, &o.line_highlight),
    }
}

/// With an alpha and no override on the background, the resolved background
/// is the base background with that alpha channel.
pub proof fn lemma_alpha_reaches_background(base: UiPaletteView, variant: VariantView, alpha: u8)
    requires
        variant.alpha == Some(alpha),
        ui_overrides_of(variant).background is None,
    ensures
        resolve_ui(base, variant).background == apply_alpha_spec(base.background, alpha),
{
}

/// With an alpha and no overrides, each of the five colours of the
/// background family is the base colour with that alpha channel.
pub proof fn lemma_alpha_reaches_background_family(
    base: UiPaletteView,
    variant: VariantView,
    alpha: u8,
)
    requires
        variant.alpha == Some(alpha),
        ui_overrides_of(variant) == no_ui_overrides(),
    ensures
        resolve_ui(base, variant).background == apply_alpha_spec(base.background, alpha),
        resolve_ui(base, variant).background_alt == apply_alpha_spec(base.background_alt, alpha),
        resolve_ui(base, variant).background_elevated == apply_alpha_spec(
            base.background_elevated,
            alpha,
        ),
        resolve_ui(base, variant).selection == apply_alpha_spec(base.selection, alpha),
        resolve_ui(base, variant).line_highlight == apply_alpha_spec(base.line_highlight, alpha),
{
}

/// An override on the background is the resolved background, whatever the
/// variant's alpha.
pub proof fn lemma_override_wins(base: UiPaletteView, variant: VariantView, literal: Seq<char>)
    requires
        ui_overrides_of(variant).background == Some(literal),
    ensures
        resolve_ui(base, variant).background == literal,
{
}

/// Alpha never reaches the foreground colours nor the cursor.
pub proof fn lemma_alpha_spares_foreground(base: UiPaletteView, variant: VariantView)
    requires
        ui_overrides_of(variant) == no_ui_overrides(),
    ensures
        resolve_ui(base, variant).foreground == base.foreground,
        resolve_ui(base, variant).foreground_muted == base.foreground_muted,
        resolve_ui(base, variant).foreground_dim == base.foreground_dim,
        resolve_ui(base, variant).cursor == base.cursor,
{
}

/// A variant without alpha and without overrides shows the base palette.
pub proof fn lemma_plain_variant_is_base(base: UiPaletteView, variant: VariantView)
    requires
        variant.alpha is None,
        variant.overrides is None,
    ensures
        resolve_ui(base, variant) == base,
{
}

} // verus!
