//! The typed settings and their mathematical model.

use vstd::prelude::*;

verus! {

/// The three font files of a custom font family.
///
/// A family is given whole or not at all: there is no value of this type
/// with a face missing.
#[derive(Debug, Clone)]
pub struct Fonts {
    pub regular: String,
    pub italic: String,
    pub bold: String,
}

/// What a [`Fonts`] value stands for: the text of its three paths.
pub ghost struct FontsView {
    pub regular: Seq<char>,
    pub italic: Seq<char>,
    pub bold: Seq<char>,
}

impl View for Fonts {
    type V = FontsView;

    open spec fn view(&self) -> FontsView {
        FontsView { regular: self.regular@, italic: self.italic@, bold: self.bold@ }
    }
}

/// The settings of one run, complete: every field either holds what the
/// document gave, or its fallback, or is absent where it has no fallback.
#[derive(Debug, Clone)]
pub struct Config {
    /// The path to the d2 binary
    pub path: String,
    pub output_dir: String,
    pub layout: Option<String>,
    /// Whether or not to use inline SVG when building an HTML target
    pub inline: bool,
    /// Custom font paths; only ttf fonts are meant
    pub fonts: Option<Fonts>,
    pub theme: Option<String>,
    pub dark_theme: Option<String>,
}

/// What a [`Config`] value stands for.
pub ghost struct ConfigView {
    pub path: Seq<char>,
    pub output_dir: Seq<char>,
    pub layout: Option<Seq<char>>,
    pub inline: bool,
    pub fonts: Option<FontsView>,
    pub theme: Option<Seq<char>>,
    pub dark_theme: Option<Seq<char>>,
}

/// The text of an optional string, if there is one.
pub open spec fn text_of(s: Option<String>) -> Option<Seq<char>> {
    match s {
        Some(s) => Some(s@),
        None => None,
    }
}

/// The model of an optional font family, if there is one.
pub open spec fn fonts_of(f: Option<Fonts>) -> Option<FontsView> {
    match f {
        Some(f) => Some(f@),
        None => None,
    }
}

impl View for Config {
    type V = ConfigView;

    open spec fn view(&self) -> ConfigView {
        ConfigView {
            path: self.path@,
            output_dir: self.output_dir@,
            layout: text_of(self.layout),
            inline: self.inline,
            fonts: fonts_of(self.fonts),
            theme: text_of(self.theme),
            dark_theme: text_of(self.dark_theme),
        }
    }
}

/// The settings that an empty document stands for.
pub open spec fn default_view() -> ConfigView {
    ConfigView {
        path: crate::default::d2(),
        output_dir: crate::default::d2(),
        layout: None,
        inline: true,
        fonts: None,
        theme: None,
        dark_theme: None,
    }
}

impl Default for Config {
    fn default() -> (config: Self)
        ensures
            config@ == default_view(),
    {
        Self {
            path: crate::default::bin_path(),
            layout: None,
            output_dir: crate::default::output_dir(),
            inline: crate::default::inline(),
            fonts: None,
            theme: None,
            dark_theme: None,
        }
    }
}

/// Whether two optional strings are both absent or hold the same text.
fn same_text(a: &Option<String>, b: &Option<String>) -> (same: bool)
    ensures
        same == (text_of(*a) == text_of(*b)),
{
    match (a, b) {
        (Some(a), Some(b)) => *a == *b,
        (None, None) => true,
        _ => false,
    }
}

/// Whether two optional font families are both absent or the same family.
fn same_fonts(a: &Option<Fonts>, b: &Option<Fonts>) -> (same: bool)
    ensures
        same == (fonts_of(*a) == fonts_of(*b)),
{
    match (a, b) {
        (Some(a), Some(b)) => *a == *b,
        (None, None) => true,
        _ => false,
    }
}

impl PartialEq for Fonts {
    /// Two font families are equal exactly if their three paths are.
    fn eq(&self, other: &Self) -> (equal: bool) {
        self.regular == other.regular && self.italic == other.italic && self.bold == other.bold
    }
}

impl vstd::std_specs::cmp::PartialEqSpecImpl for Fonts {
    open spec fn obeys_eq_spec() -> bool {
        true
    }

    open spec fn eq_spec(&self, other: &Self) -> bool {
        self@ == other@
    }
}

impl Eq for Fonts {

}

impl PartialEq for Config {
    /// Two settings values are equal exactly if every field of one equals
    /// that field of the other.
    fn eq(&self, other: &Self) -> (equal: bool) {
        self.path == other.path && self.output_dir == other.output_dir && same_text(
            &self.layout,
            &other.layout,
        ) && self.inline == other.inline && same_fonts(&self.fonts, &other.fonts) && same_text(
            &self.theme,
            &other.theme,
        ) && same_text(&self.dark_theme, &other.dark_theme)
    }
}

impl vstd::std_specs::cmp::PartialEqSpecImpl for Config {
    open spec fn obeys_eq_spec() -> bool {
        true
    }

    open spec fn eq_spec(&self, other: &Self) -> bool {
        self@ == other@
    }
}

impl Eq for Config {

}

} // verus!
