//! The theme description held in memory: metadata, the palette, the named
//! variants and the output targets, each with its mathematical view.

use vstd::prelude::*;
use crate::text::same_text;

verus! {

/// The view of an optional string.
pub open spec fn opt_view(o: Option<String>) -> Option<Seq<char>> {
    match o {
        Some(s) => Some(s@),
        None => None,
    }
}

/// The three shades of one ANSI colour.
#[derive(Clone, Debug)]
pub struct ColorVariant {
    pub base: String,
    pub bright: String,
    pub dim: String,
}

/// The view of [`ColorVariant`]: the same record over sequences of characters.
pub struct ColorVariantView {
    pub base: Seq<char>,
    pub bright: Seq<char>,
    pub dim: Seq<char>,
}

impl View for ColorVariant {
    type V = ColorVariantView;

    open spec fn view(&self) -> ColorVariantView {
        ColorVariantView {
            base: self.base@,
            bright: self.bright@,
            dim: self.dim@,
        }
    }
}

/// The six ANSI colours of the base palette.
#[derive(Clone, Debug)]
pub struct AnsiPalette {
    pub red: ColorVariant,
    pub green: ColorVariant,
    pub yellow: ColorVariant,
    pub blue: ColorVariant,
    pub magenta: ColorVariant,
    pub cyan: ColorVariant,
}

/// The view of [`AnsiPalette`]: the same record over sequences of characters.
pub struct AnsiPaletteView {
    pub red: ColorVariantView,
    pub green: ColorVariantView,
    pub yellow: ColorVariantView,
    pub blue: ColorVariantView,
    pub magenta: ColorVariantView,
    pub cyan: ColorVariantView,
}

impl View for AnsiPalette {
    type V = AnsiPaletteView;

    open spec fn view(&self) -> AnsiPaletteView {
        AnsiPaletteView {
            red: self.red@,
            green: self.green@,
            yellow: self.yellow@,
            blue: self.blue@,
            magenta: self.magenta@,
            cyan: self.cyan@,
        }
    }
}

/// The base colours.
#[derive(Clone, Debug)]
pub struct BasePalette {
    pub ansi: AnsiPalette,
}

/// The view of [`BasePalette`]: the same record over sequences of characters.
pub struct BasePaletteView {
    pub ansi: AnsiPaletteView,
}

impl View for BasePalette {
    type V = BasePaletteView;

    open spec fn view(&self) -> BasePaletteView {
        BasePaletteView {
            ansi: self.ansi@,
        }
    }
}

/// The colours of the syntax-highlighting roles.
#[derive(Clone, Debug)]
pub struct SyntaxPalette {
    pub teal: String,
    pub blue_green: String,
    pub lavender: String,
    pub gray: String,
}

/// The view of [`SyntaxPalette`]: the same record over sequences of characters.
pub struct SyntaxPaletteView {
    pub teal: Seq<char>,
    pub blue_green: Seq<char>,
    pub lavender: Seq<char>,
    pub gray: Seq<char>,
}

impl View for SyntaxPalette {
    type V = SyntaxPaletteView;

    open spec fn view(&self) -> SyntaxPaletteView {
        SyntaxPaletteView {
            teal: self.teal@,
            blue_green: self.blue_green@,
            lavender: self.lavender@,
            gray: self.gray@,
        }
    }
}

/// The colours of the user interface.
#[derive(Clone, Debug)]
pub struct UiPalette {
    pub background: String,
    pub background_alt: String,
    pub background_elevated: String,
    pub foreground: String,
    pub foreground_muted: String,
    pub foreground_dim: String,
    pub selection: String,
    pub cursor: String,
    pub line_highlight: String,
}

/// The view of [`UiPalette`]: the same record over sequences of characters.
pub struct UiPaletteView {
    pub background: Seq<char>,
    pub background_alt: Seq<char>,
    pub background_elevated: Seq<char>,
    pub foreground: Seq<char>,
    pub foreground_muted: Seq<char>,
    pub foreground_dim: Seq<char>,
    pub selection: Seq<char>,
    pub cursor: Seq<char>,
    pub line_highlight: Seq<char>,
}

impl View for UiPalette {
    type V = UiPaletteView;

    open spec fn view(&self) -> UiPaletteView {
        UiPaletteView {
            background: self.background@,
            background_alt: self.background_alt@,
            background_elevated: self.background_elevated@,
            foreground: self.foreground@,
            foreground_muted: self.foreground_muted@,
            foreground_dim: self.foreground_dim@,
            selection: self.selection@,
            cursor: self.cursor@,
            line_highlight: self.line_highlight@,
        }
    }
}

/// The border colours.
#[derive(Clone, Debug)]
pub struct BorderPalette {
    pub border: String,
    pub border_variant: String,
    pub border_focused: String,
    pub border_selected: String,
}

/// The view of [`BorderPalette`]: the same record over sequences of characters.
pub struct BorderPaletteView {
    pub border: Seq<char>,
    pub border_variant: Seq<char>,
    pub border_focused: Seq<char>,
    pub border_selected: Seq<char>,
}

impl View for BorderPalette {
    type V = BorderPaletteView;

    open spec fn view(&self) -> BorderPaletteView {
        BorderPaletteView {
            border: self.border@,
            border_variant: self.border_variant@,
            border_focused: self.border_focused@,
            border_selected: self.border_selected@,
        }
    }
}

/// Every colour of a theme.
#[derive(Clone, Debug)]
pub struct Palette {
    pub base: BasePalette,
    pub syntax: SyntaxPalette,
    pub ui: UiPalette,
    pub border: BorderPalette,
}

/// The view of [`Palette`]: the same record over sequences of characters.
pub struct PaletteView {
    pub base: BasePaletteView,
    pub syntax: SyntaxPaletteView,
    pub ui: UiPaletteView,
    pub border: BorderPaletteView,
}

impl View for Palette {
    type V = PaletteView;

    open spec fn view(&self) -> PaletteView {
        PaletteView {
            base: self.base@,
            syntax: self.syntax@,
            ui: self.ui@,
            border: self.border@,
        }
    }
}

/// What a theme says of itself.
#[derive(Clone, Debug)]
pub struct Meta {
    pub name: String,
    pub author: Option<String>,
    pub description: Option<String>,
    pub license: Option<String>,
}

/// The view of [`Meta`]: the same record over sequences of characters.
pub struct MetaView {
    pub name: Seq<char>,
    pub author: Option<Seq<char>>,
    pub description: Option<Seq<char>>,
    pub license: Option<Seq<char>>,
}

impl View for Meta {
    type V = MetaView;

    open spec fn view(&self) -> MetaView {
        MetaView {
            name: self.name@,
            author: opt_view(self.author),
            description: opt_view(self.description),
            license: opt_view(self.license),
        }
    }
}

/// Replacements for single colours of the user interface; an absent field replaces nothing.
#[derive(Clone, Debug)]
pub struct UiOverrides {
    pub background: Option<String>,
    pub background_alt: Option<String>,
    pub background_elevated: Option<String>,
    pub selection: Option<String>,
    pub cursor: Option<String>,
    pub line_highlight: Option<String>,
    pub foreground: Option<String>,
    pub foreground_muted: Option<String>,
    pub foreground_dim: Option<String>,
}

/// The view of [`UiOverrides`]: the same record over sequences of characters.
pub struct UiOverridesView {
    pub background: Option<Seq<char>>,
    pub background_alt: Option<Seq<char>>,
    pub background_elevated: Option<Seq<char>>,
    pub selection: Option<Seq<char>>,
    pub cursor: Option<Seq<char>>,
    pub line_highlight: Option<Seq<char>>,
    pub foreground: Option<Seq<char>>,
    pub foreground_muted: Option<Seq<char>>,
    pub foreground_dim: Option<Seq<char>>,
}

impl View for UiOverrides {
    type V = UiOverridesView;

    open spec fn view(&self) -> UiOverridesView {
        UiOverridesView {
            background: opt_view(self.background),
            background_alt: opt_view(self.background_alt),
            background_elevated: opt_view(self.background_elevated),
            selection: opt_view(self.selection),
            cursor: opt_view(self.cursor),
            line_highlight: opt_view(self.line_highlight),
            foreground: opt_view(self.foreground),
            foreground_muted: opt_view(self.foreground_muted),
            foreground_dim: opt_view(self.foreground_dim),
        }
    }
}

/// The overrides of a variant, by palette section.
#[derive(Clone, Debug)]
pub struct Overrides {
    pub ui: Option<UiOverrides>,
}

/// The view of [`Overrides`].
pub struct OverridesView {
    pub ui: Option<UiOverridesView>,
}

impl View for Overrides {
    type V = OverridesView;

    open spec fn view(&self) -> OverridesView {
        OverridesView {
            ui: match self.ui {
                Some(u) => Some(u@),
                None => None,
            },
        }
    }
}

/// One named appearance of the theme.
///
/// `alpha` is the opacity as an alpha channel byte: 0 is fully transparent,
/// 255 fully opaque.
#[derive(Clone, Debug)]
pub struct Variant {
    pub name: String,
    pub alpha: Option<u8>,
    pub blur_radius: Option<u32>,
    pub overrides: Option<Overrides>,
}

/// The view of [`Variant`].
pub struct VariantView {
    pub name: Seq<char>,
    pub alpha: Option<u8>,
    pub blur_radius: Option<u32>,
    pub overrides: Option<OverridesView>,
}

impl View for Variant {
    type V = VariantView;

    open spec fn view(&self) -> VariantView {
        VariantView {
            name: self.name@,
            alpha: self.alpha,
            blur_radius: self.blur_radius,
            overrides: match self.overrides {
                Some(o) => Some(o@),
                None => None,
            },
        }
    }
}

/// The file name that a target gives to one variant.
#[derive(Clone, Debug)]
pub struct OutName {
    pub variant: String,
    pub file: String,
}

/// The view of [`OutName`].
pub struct OutNameView {
    pub variant: Seq<char>,
    pub file: Seq<char>,
}

impl View for OutName {
    type V = OutNameView;

    open spec fn view(&self) -> OutNameView {
        OutNameView { variant: self.variant@, file: self.file@ }
    }
}

/// One output target: which encoder runs, and where its files go.
///
/// `out_names` maps variant names to file names; where a variant occurs more
/// than once, its first entry counts.
#[derive(Clone, Debug)]
pub struct Target {
    pub id: String,
    pub enabled: bool,
    pub path: String,
    pub out_file: Option<String>,
    pub out_names: Option<Vec<OutName>>,
}

/// The view of [`Target`].
pub struct TargetView {
    pub id: Seq<char>,
    pub enabled: bool,
    pub path: Seq<char>,
    pub out_file: Option<Seq<char>>,
    pub out_names: Option<Seq<OutNameView>>,
}

impl View for Target {
    type V = TargetView;

    open spec fn view(&self) -> TargetView {
        TargetView {
            id: self.id@,
            enabled: self.enabled,
            path: self.path@,
            out_file: opt_view(self.out_file),
            out_names: match self.out_names {
                Some(names) => Some(Seq::new(names@.len(), |i: int| names@[i]@)),
                None => None,
            },
        }
    }
}

/// Whether no variant occurs twice among the names: they are a map from
/// variant names to file names.
pub open spec fn names_unique(names: Seq<OutNameView>) -> bool {
    forall|i: int, j: int|
        0 <= i < j < names.len() ==> (#[trigger] names[i]).variant != (#[trigger] names[j]).variant
}

impl Target {
    /// Whether the target's file names are a map: no variant occurs twice.
    /// A target read from a theme file is so. The encoders take any target,
    /// and go by the first entry of a variant.
    pub open spec fn well_formed(&self) -> bool {
        match self@.out_names {
            Some(names) => names_unique(names),
            None => true,
        }
    }

    /// Tells whether the target's file names are a map.
    pub fn is_well_formed(&self) -> (res: bool)
        ensures
            res == self.well_formed(),
    {
        match &self.out_names {
            None => true,
            Some(names) => {
                let ghost view = Seq::new(names@.len(), |k: int| names@[k]@);
                let n: usize = names.len();
                let mut i: usize = 0;
                assert(self@.out_names == Some(view));
                while i < n
                    invariant
                        self@.out_names == Some(view),
                        i <= n,
                        n == names@.len(),
                        view == Seq::new(names@.len(), |k: int| names@[k]@),
                        forall|a: int, b: int|
                            0 <= a < b < n && a < i ==> (#[trigger] view[a]).variant != (
                            #[trigger] view[b]).variant,
                    decreases n - i,
                {
                    let mut j: usize = i + 1;
                    while j < n
                        invariant
                            self@.out_names == Some(view),
                            i < j <= n,
                            n == names@.len(),
                            view == Seq::new(names@.len(), |k: int| names@[k]@),
                            forall|b: int|
                                i < b < j ==> view[i as int].variant != (#[trigger] view[b]).variant,
                        decreases n - j,
                    {
                        if same_text(names[i].variant.as_str(), names[j].variant.as_str()) {
                            assert(view[i as int].variant == view[j as int].variant);
                            return false;
                        }
                        j = j + 1;
                    }
                    i = i + 1;
                }
                true
            },
        }
    }
}

/// A whole theme description.
#[derive(Clone, Debug)]
pub struct Config {
    pub version: String,
    pub meta: Meta,
    pub palette: Palette,
    pub variants: Vec<Variant>,
    pub targets: Vec<Target>,
}

/// The view of [`Config`].
pub struct ConfigView {
    pub version: Seq<char>,
    pub meta: MetaView,
    pub palette: PaletteView,
    pub variants: Seq<VariantView>,
    pub targets: Seq<TargetView>,
}

impl View for Config {
    type V = ConfigView;

    open spec fn view(&self) -> ConfigView {
        ConfigView {
            version: self.version@,
            meta: self.meta@,
            palette: self.palette@,
            variants: Seq::new(self.variants@.len(), |i: int| self.variants@[i]@),
            targets: Seq::new(self.targets@.len(), |i: int| self.targets@[i]@),
        }
    }
}

impl Default for UiOverrides {
    fn default() -> (res: UiOverrides)
        ensures
            res@ == no_ui_overrides(),
    {
        UiOverrides {
            background: None,
            background_alt: None,
            background_elevated: None,
            selection: None,
            cursor: None,
            line_highlight: None,
            foreground: None,
            foreground_muted: None,
            foreground_dim: None,
        }
    }
}

impl Default for Overrides {
    fn default() -> (res: Overrides)
        ensures
            res@.ui is None,
    {
        Overrides { ui: None }
    }
}

/// The overrides that replace nothing.
pub open spec fn no_ui_overrides() -> UiOverridesView {
    UiOverridesView {
        background: None,
        background_alt: None,
        background_elevated: None,
        selection: None,
        cursor: None,
        line_highlight: None,
        foreground: None,
        foreground_muted: None,
        foreground_dim: None,
    }
}

/// Whether a target runs when its description does not say: it does.
pub fn default_true() -> (res: bool)
    ensures
        res,
{
    true
}

impl Config {
    /// The names of the variants, in their order.
    pub fn variant_names(&self) -> (res: Vec<String>)
        ensures
            res@.len() == self@.variants.len(),
            forall|i: int| 0 <= i < res@.len() ==> (#[trigger] res@[i])@ == self@.variants[i].name,
    {
        let mut names: Vec<String> = Vec::new();
        let mut i: usize = 0;
        while i < self.variants.len()
            invariant
                i <= self.variants@.len(),
                names@.len() == i,
                forall|k: int| 0 <= k < i ==> (#[trigger] names@[k])@ == self.variants@[k].name@,
            decreases self.variants@.len() - i,
        {
            names.push(self.variants[i].name.clone());
            i = i + 1;
        }
        names
    }
}

} // verus!
