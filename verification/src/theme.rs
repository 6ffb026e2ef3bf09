//! Colour themes: the built-in palettes, the user's custom palette as
//! CSS colour texts, and the labels shown for each choice.

use vstd::prelude::*;
use vstd::string::*;
use crate::text::{is_blank, is_blank_seq};

verus! {

/// A colour with 8-bit red, green, blue and alpha channels.
#[derive(Clone, Copy, Debug, PartialEq, Eq, Structural)]
pub struct Rgba8 {
    pub r: u8,
    pub g: u8,
    pub b: u8,
    pub a: u8,
}

/// The opaque colour written `0xRRGGBB`.
pub open spec fn rgb(v: u32) -> Rgba8 {
    Rgba8 { r: (v / 0x10000 % 0x100) as u8, g: (v / 0x100 % 0x100) as u8, b: (v % 0x100) as u8, a: 255 }
}

/// The colour written `0xRRGGBB` with alpha `a`.
pub open spec fn rgba(v: u32, a: u8) -> Rgba8 {
    Rgba8 { a, ..rgb(v) }
}

/// The opaque colour written `0xRRGGBB`.
pub fn hex(v: u32) -> (c: Rgba8)
    ensures
        c == rgb(v),
{
    hexa(v, 255)
}

/// The colour written `0xRRGGBB` with alpha `alpha`.
pub fn hexa(v: u32, alpha: u8) -> (c: Rgba8)
    ensures
        c == rgba(v, alpha),
{
    assert((v >> 16u32) & 0xffu32 == v / 0x10000 % 0x100) by (bit_vector);
    assert((v >> 8u32) & 0xffu32 == v / 0x100 % 0x100) by (bit_vector);
    assert(v & 0xffu32 == v % 0x100) by (bit_vector);
    Rgba8 { r: ((v >> 16u32) & 0xffu32) as u8, g: ((v >> 8u32) & 0xffu32) as u8, b: (v & 0xffu32) as u8, a: alpha }
}

/// Whether a theme is light or dark.
#[derive(Clone, Copy, Debug, PartialEq, Eq, Structural)]
pub enum ThemeAppearance {
    Light,
    Dark,
}

/// The themes the user can pick.
#[derive(Clone, Copy, Debug, PartialEq, Eq, Structural)]
pub enum ThemeChoice {
    System,
    Dark,
    Light,
    CatppuccinLatte,
    CatppuccinFrappe,
    CatppuccinMacchiato,
    CatppuccinMocha,
    Custom,
}

/// The colours of a theme.
#[derive(Clone, Copy, Debug, PartialEq, Eq, Structural)]
pub struct ThemeColors {
    pub background: Rgba8,
    pub background_elevated: Rgba8,
    pub surface: Rgba8,
    pub surface_elevated: Rgba8,
    pub surface_overlay: Rgba8,
    pub border: Rgba8,
    pub border_strong: Rgba8,
    pub text: Rgba8,
    pub muted_text: Rgba8,
    pub accent: Rgba8,
    pub accent_soft: Rgba8,
    pub accent_text: Rgba8,
    pub success: Rgba8,
    pub danger: Rgba8,
    pub canvas_base: Rgba8,
    pub empty_tile: Rgba8,
    pub grid_line: Rgba8,
    pub selection_overlay: Rgba8,
    pub shadow: Rgba8,
}

/// A theme ready to draw with.
#[derive(Debug)]
pub struct Theme {
    pub name: String,
    pub appearance: ThemeAppearance,
    pub colors: ThemeColors,
}

/// The default dark theme.
pub open spec fn taled_dark_colors() -> ThemeColors {
    ThemeColors {
        background: rgb(0x121214),
        background_elevated: rgb(0x1f1f21),
        surface: rgb(0x1c1c1e),
        surface_elevated: rgb(0x242426),
        surface_overlay: rgba(0x1c1c1e, 230),
        border: rgb(0x2c2c2e),
        border_strong: rgb(0x3a3a3c),
        text: rgb(0xf2f2f7),
        muted_text: rgb(0x8f8f95),
        accent: rgb(0x0a84ff),
        accent_soft: rgba(0x0a84ff, 41),
        accent_text: rgb(0xffffff),
        success: rgb(0x30d158),
        danger: rgb(0xff453a),
        canvas_base: rgb(0x2a2a2a),
        empty_tile: rgb(0x142131),
        grid_line: rgba(0xffffff, 22),
        selection_overlay: rgba(0x000000, 97),
        shadow: rgba(0x000000, 71),
    }
}

/// The light theme.
pub open spec fn taled_light_colors() -> ThemeColors {
    ThemeColors {
        background: rgb(0xf5f5f7),
        background_elevated: rgb(0xffffff),
        surface: rgb(0xffffff),
        surface_elevated: rgb(0xf2f2f7),
        surface_overlay: rgba(0xffffff, 235),
        border: rgb(0xd7d7dc),
        border_strong: rgb(0xc7c7cc),
        text: rgb(0x1c1c1e),
        muted_text: rgb(0x6e6e73),
        accent: rgb(0x0a84ff),
        accent_soft: rgba(0x0a84ff, 31),
        accent_text: rgb(0xffffff),
        success: rgb(0x248a3d),
        danger: rgb(0xc5281c),
        canvas_base: rgb(0xececf1),
        empty_tile: rgb(0xc8d3e0),
        grid_line: rgba(0x1c1c1e, 23),
        selection_overlay: rgba(0x000000, 36),
        shadow: rgba(0x0f172a, 26),
    }
}

/// Catppuccin Latte.
pub open spec fn catppuccin_latte_colors() -> ThemeColors {
    ThemeColors {
        background: rgb(0xeff1f5),
        background_elevated: rgb(0xe6e9ef),
        surface: rgb(0xffffff),
        surface_elevated: rgb(0xccd0da),
        surface_overlay: rgba(0xffffff, 235),
        border: rgb(0xbcc0cc),
        border_strong: rgb(0xacb0be),
        text: rgb(0x4c4f69),
        muted_text: rgb(0x5c5f77),
        accent: rgb(0x1e66f5),
        accent_soft: rgba(0x1e66f5, 36),
        accent_text: rgb(0xffffff),
        success: rgb(0x40a02b),
        danger: rgb(0xd20f39),
        canvas_base: rgb(0xdce0e8),
        empty_tile: rgb(0xbcc3d4),
        grid_line: rgba(0x4c4f69, 26),
        selection_overlay: rgba(0x4c4f69, 31),
        shadow: rgba(0x4c4f69, 31),
    }
}

/// Catppuccin Frappé.
pub open spec fn catppuccin_frappe_colors() -> ThemeColors {
    ThemeColors {
        background: rgb(0x292c3c),
        background_elevated: rgb(0x303446),
        surface: rgb(0x414559),
        surface_elevated: rgb(0x51576d),
        surface_overlay: rgba(0x303446, 235),
        border: rgb(0x626880),
        border_strong: rgb(0x737994),
        text: rgb(0xc6d0f5),
        muted_text: rgb(0xa5adce),
        accent: rgb(0x8caaee),
        accent_soft: rgba(0x8caaee, 41),
        accent_text: rgb(0x232634),
        success: rgb(0xa6d189),
        danger: rgb(0xe78284),
        canvas_base: rgb(0x51576d),
        empty_tile: rgb(0x303446),
        grid_line: rgba(0xc6d0f5, 22),
        selection_overlay: rgba(0x232634, 97),
        shadow: rgba(0x000000, 77),
    }
}

/// Catppuccin Macchiato.
pub open spec fn catppuccin_macchiato_colors() -> ThemeColors {
    ThemeColors {
        background: rgb(0x1e2030),
        background_elevated: rgb(0x24273a),
        surface: rgb(0x363a4f),
        surface_elevated: rgb(0x494d64),
        surface_overlay: rgba(0x24273a, 235),
        border: rgb(0x5b6078),
        border_strong: rgb(0x6e738d),
        text: rgb(0xcad3f5),
        muted_text: rgb(0xa5adcb),
        accent: rgb(0x8aadf4),
        accent_soft: rgba(0x8aadf4, 41),
        accent_text: rgb(0x181926),
        success: rgb(0xa6da95),
        danger: rgb(0xed8796),
        canvas_base: rgb(0x494d64),
        empty_tile: rgb(0x24273a),
        grid_line: rgba(0xcad3f5, 22),
        selection_overlay: rgba(0x181926, 97),
        shadow: rgba(0x000000, 77),
    }
}

/// Catppuccin Mocha.
pub open spec fn catppuccin_mocha_colors() -> ThemeColors {
    ThemeColors {
        background: rgb(0x181825),
        background_elevated: rgb(0x1e1e2e),
        surface: rgb(0x313244),
        surface_elevated: rgb(0x45475a),
        surface_overlay: rgba(0x1e1e2e, 235),
        border: rgb(0x585b70),
        border_strong: rgb(0x6c7086),
        text: rgb(0xcdd6f4),
        muted_text: rgb(0xa6adc8),
        accent: rgb(0x89b4fa),
        accent_soft: rgba(0x89b4fa, 41),
        accent_text: rgb(0x11111b),
        success: rgb(0xa6e3a1),
        danger: rgb(0xf38ba8),
        canvas_base: rgb(0x45475a),
        empty_tile: rgb(0x1e1e2e),
        grid_line: rgba(0xcdd6f4, 22),
        selection_overlay: rgba(0x11111b, 102),
        shadow: rgba(0x000000, 82),
    }
}

impl Theme {
    /// The default dark theme.
    pub fn taled_dark() -> (t: Theme)
        ensures
            t.name@ == "Taled Dark"@,
            t.appearance == ThemeAppearance::Dark,
            t.colors == taled_dark_colors(),
    {
        Theme {
            name: String::from_str("Taled Dark"),
            appearance: ThemeAppearance::Dark,
            colors: ThemeColors {
                background: hex(0x121214),
                background_elevated: hex(0x1f1f21),
                surface: hex(0x1c1c1e),
                surface_elevated: hex(0x242426),
                surface_overlay: hexa(0x1c1c1e, 230),
                border: hex(0x2c2c2e),
                border_strong: hex(0x3a3a3c),
                text: hex(0xf2f2f7),
                muted_text: hex(0x8f8f95),
                accent: hex(0x0a84ff),
                accent_soft: hexa(0x0a84ff, 41),
                accent_text: hex(0xffffff),
                success: hex(0x30d158),
                danger: hex(0xff453a),
                canvas_base: hex(0x2a2a2a),
                empty_tile: hex(0x142131),
                grid_line: hexa(0xffffff, 22),
                selection_overlay: hexa(0x000000, 97),
                shadow: hexa(0x000000, 71),
            },
        }
    }

    /// The light theme.
    pub fn taled_light() -> (t: Theme)
        ensures
            t.name@ == "Taled Light"@,
            t.appearance == ThemeAppearance::Light,
            t.colors == taled_light_colors(),
    {
        Theme {
            name: String::from_str("Taled Light"),
            appearance: ThemeAppearance::Light,
            colors: ThemeColors {
                background: hex(0xf5f5f7),
                background_elevated: hex(0xffffff),
                surface: hex(0xffffff),
                surface_elevated: hex(0xf2f2f7),
                surface_overlay: hexa(0xffffff, 235),
                border: hex(0xd7d7dc),
                border_strong: hex(0xc7c7cc),
                text: hex(0x1c1c1e),
                muted_text: hex(0x6e6e73),
                accent: hex(0x0a84ff),
                accent_soft: hexa(0x0a84ff, 31),
                accent_text: hex(0xffffff),
                success: hex(0x248a3d),
                danger: hex(0xc5281c),
                canvas_base: hex(0xececf1),
                empty_tile: hex(0xc8d3e0),
                grid_line: hexa(0x1c1c1e, 23),
                selection_overlay: hexa(0x000000, 36),
                shadow: hexa(0x0f172a, 26),
            },
        }
    }

    /// Catppuccin Latte.
    pub fn catppuccin_latte() -> (t: Theme)
        ensures
            t.name@ == "Catppuccin Latte"@,
            t.appearance == ThemeAppearance::Light,
            t.colors == catppuccin_latte_colors(),
    {
        Theme {
            name: String::from_str("Catppuccin Latte"),
            appearance: ThemeAppearance::Light,
            colors: ThemeColors {
                background: hex(0xeff1f5),
                background_elevated: hex(0xe6e9ef),
                surface: hex(0xffffff),
                surface_elevated: hex(0xccd0da),
                surface_overlay: hexa(0xffffff, 235),
                border: hex(0xbcc0cc),
                border_strong: hex(0xacb0be),
                text: hex(0x4c4f69),
                muted_text: hex(0x5c5f77),
                accent: hex(0x1e66f5),
                accent_soft: hexa(0x1e66f5, 36),
                accent_text: hex(0xffffff),
                success: hex(0x40a02b),
                danger: hex(0xd20f39),
                canvas_base: hex(0xdce0e8),
                empty_tile: hex(0xbcc3d4),
                grid_line: hexa(0x4c4f69, 26),
                selection_overlay: hexa(0x4c4f69, 31),
                shadow: hexa(0x4c4f69, 31),
            },
        }
    }

    /// Catppuccin Frappé.
    pub fn catppuccin_frappe() -> (t: Theme)
        ensures
            t.name@ == "Catppuccin Frappe"@,
            t.appearance == ThemeAppearance::Dark,
            t.colors == catppuccin_frappe_colors(),
    {
        Theme {
            name: String::from_str("Catppuccin Frappe"),
            appearance: ThemeAppearance::Dark,
            colors: ThemeColors {
                background: hex(0x292c3c),
                background_elevated: hex(0x303446),
                surface: hex(0x414559),
                surface_elevated: hex(0x51576d),
                surface_overlay: hexa(0x303446, 235),
                border: hex(0x626880),
                border_strong: hex(0x737994),
                text: hex(0xc6d0f5),
                muted_text: hex(0xa5adce),
                accent: hex(0x8caaee),
                accent_soft: hexa(0x8caaee, 41),
                accent_text: hex(0x232634),
                success: hex(0xa6d189),
                danger: hex(0xe78284),
                canvas_base: hex(0x51576d),
                empty_tile: hex(0x303446),
                grid_line: hexa(0xc6d0f5, 22),
                selection_overlay: hexa(0x232634, 97),
                shadow: hexa(0x000000, 77),
            },
        }
    }

    /// Catppuccin Macchiato.
    pub fn catppuccin_macchiato() -> (t: Theme)
        ensures
            t.name@ == "Catppuccin Macchiato"@,
            t.appearance == ThemeAppearance::Dark,
            t.colors == catppuccin_macchiato_colors(),
    {
        Theme {
            name: String::from_str("Catppuccin Macchiato"),
            appearance: ThemeAppearance::Dark,
            colors: ThemeColors {
                background: hex(0x1e2030),
                background_elevated: hex(0x24273a),
                surface: hex(0x363a4f),
                surface_elevated: hex(0x494d64),
                surface_overlay: hexa(0x24273a, 235),
                border: hex(0x5b6078),
                border_strong: hex(0x6e738d),
                text: hex(0xcad3f5),
                muted_text: hex(0xa5adcb),
                accent: hex(0x8aadf4),
                accent_soft: hexa(0x8aadf4, 41),
                accent_text: hex(0x181926),
                success: hex(0xa6da95),
                danger: hex(0xed8796),
                canvas_base: hex(0x494d64),
                empty_tile: hex(0x24273a),
                grid_line: hexa(0xcad3f5, 22),
                selection_overlay: hexa(0x181926, 97),
                shadow: hexa(0x000000, 77),
            },
        }
    }

    /// Catppuccin Mocha.
    pub fn catppuccin_mocha() -> (t: Theme)
        ensures
            t.name@ == "Catppuccin Mocha"@,
            t.appearance == ThemeAppearance::Dark,
            t.colors == catppuccin_mocha_colors(),
    {
        Theme {
            name: String::from_str("Catppuccin Mocha"),
            appearance: ThemeAppearance::Dark,
            colors: ThemeColors {
                background: hex(0x181825),
                background_elevated: hex(0x1e1e2e),
                surface: hex(0x313244),
                surface_elevated: hex(0x45475a),
                surface_overlay: hexa(0x1e1e2e, 235),
                border: hex(0x585b70),
                border_strong: hex(0x6c7086),
                text: hex(0xcdd6f4),
                muted_text: hex(0xa6adc8),
                accent: hex(0x89b4fa),
                accent_soft: hexa(0x89b4fa, 41),
                accent_text: hex(0x11111b),
                success: hex(0xa6e3a1),
                danger: hex(0xf38ba8),
                canvas_base: hex(0x45475a),
                empty_tile: hex(0x1e1e2e),
                grid_line: hexa(0xcdd6f4, 22),
                selection_overlay: hexa(0x11111b, 102),
                shadow: hexa(0x000000, 82),
            },
        }
    }

    /// The theme for a choice; the custom choice takes the custom theme.
    pub fn from_choice(choice: ThemeChoice, custom: &Theme) -> (t: Theme)
        ensures
            t.colors == theme_colors(choice, custom.colors),
            t.appearance == theme_appearance(choice, custom.appearance),
            t.name@ == theme_name(choice, custom.name@),
    {
        match choice {
            ThemeChoice::System => Theme::taled_dark(),
            ThemeChoice::Dark => Theme::taled_dark(),
            ThemeChoice::Light => Theme::taled_light(),
            ThemeChoice::CatppuccinLatte => Theme::catppuccin_latte(),
            ThemeChoice::CatppuccinFrappe => Theme::catppuccin_frappe(),
            ThemeChoice::CatppuccinMacchiato => Theme::catppuccin_macchiato(),
            ThemeChoice::CatppuccinMocha => Theme::catppuccin_mocha(),
            ThemeChoice::Custom => Theme { name: custom.name.clone(), appearance: custom.appearance, colors: custom.colors },
        }
    }
}

/// The colours of a choice, given the custom theme's colours.
pub open spec fn theme_colors(choice: ThemeChoice, custom: ThemeColors) -> ThemeColors {
    match choice {
        ThemeChoice::System => taled_dark_colors(),
        ThemeChoice::Dark => taled_dark_colors(),
        ThemeChoice::Light => taled_light_colors(),
        ThemeChoice::CatppuccinLatte => catppuccin_latte_colors(),
        ThemeChoice::CatppuccinFrappe => catppuccin_frappe_colors(),
        ThemeChoice::CatppuccinMacchiato => catppuccin_macchiato_colors(),
        ThemeChoice::CatppuccinMocha => catppuccin_mocha_colors(),
        ThemeChoice::Custom => custom,
    }
}

/// The name of a choice's theme, given the custom theme's name.
pub open spec fn theme_name(choice: ThemeChoice, custom: Seq<char>) -> Seq<char> {
    match choice {
        ThemeChoice::System => "Taled Dark"@,
        ThemeChoice::Dark => "Taled Dark"@,
        ThemeChoice::Light => "Taled Light"@,
        ThemeChoice::CatppuccinLatte => "Catppuccin Latte"@,
        ThemeChoice::CatppuccinFrappe => "Catppuccin Frappe"@,
        ThemeChoice::CatppuccinMacchiato => "Catppuccin Macchiato"@,
        ThemeChoice::CatppuccinMocha => "Catppuccin Mocha"@,
        ThemeChoice::Custom => custom,
    }
}

/// Whether a choice is light or dark, given the custom theme's appearance.
pub open spec fn theme_appearance(choice: ThemeChoice, custom: ThemeAppearance) -> ThemeAppearance {
    match choice {
        ThemeChoice::Light | ThemeChoice::CatppuccinLatte => ThemeAppearance::Light,
        ThemeChoice::Custom => custom,
        _ => ThemeAppearance::Dark,
    }
}

/// A theme as colour texts (`#rrggbb` or `rgba(r, g, b, a)`), the form in
/// which custom themes are imported and exported.
#[derive(Debug)]
pub struct ThemePaletteData {
    pub name: String,
    pub appearance: ThemeAppearance,
    pub background: String,
    pub background_elevated: String,
    pub surface: String,
    pub surface_elevated: String,
    pub surface_overlay: String,
    pub border: String,
    pub border_strong: String,
    pub text: String,
    pub muted_text: String,
    pub accent: String,
    pub accent_soft: String,
    pub accent_text: String,
    pub success: String,
    pub danger: String,
    pub canvas_base: String,
    pub empty_tile: String,
    pub grid_line: String,
    pub selection_overlay: String,
    pub shadow: String,
}

/// The texts of a palette.
pub struct PaletteView {
    pub name: Seq<char>,
    pub appearance: ThemeAppearance,
    pub background: Seq<char>,
    pub background_elevated: Seq<char>,
    pub surface: Seq<char>,
    pub surface_elevated: Seq<char>,
    pub surface_overlay: Seq<char>,
    pub border: Seq<char>,
    pub border_strong: Seq<char>,
    pub text: Seq<char>,
    pub muted_text: Seq<char>,
    pub accent: Seq<char>,
    pub accent_soft: Seq<char>,
    pub accent_text: Seq<char>,
    pub success: Seq<char>,
    pub danger: Seq<char>,
    pub canvas_base: Seq<char>,
    pub empty_tile: Seq<char>,
    pub grid_line: Seq<char>,
    pub selection_overlay: Seq<char>,
    pub shadow: Seq<char>,
}

impl View for ThemePaletteData {
    type V = PaletteView;

    open spec fn view(&self) -> PaletteView {
        PaletteView {
            name: self.name@,
            appearance: self.appearance,
            background: self.background@,
            background_elevated: self.background_elevated@,
            surface: self.surface@,
            surface_elevated: self.surface_elevated@,
            surface_overlay: self.surface_overlay@,
            border: self.border@,
            border_strong: self.border_strong@,
            text: self.text@,
            muted_text: self.muted_text@,
            accent: self.accent@,
            accent_soft: self.accent_soft@,
            accent_text: self.accent_text@,
            success: self.success@,
            danger: self.danger@,
            canvas_base: self.canvas_base@,
            empty_tile: self.empty_tile@,
            grid_line: self.grid_line@,
            selection_overlay: self.selection_overlay@,
            shadow: self.shadow@,
        }
    }
}

/// The texts of the default dark palette.
pub open spec fn taled_dark_palette() -> PaletteView {
    PaletteView {
        name: "Taled Dark"@,
        appearance: ThemeAppearance::Dark,
        background: "#121214"@,
        background_elevated: "#1f1f21"@,
        surface: "#1c1c1e"@,
        surface_elevated: "#242426"@,
        surface_overlay: "rgba(28, 28, 30, 0.90)"@,
        border: "#2c2c2e"@,
        border_strong: "#3a3a3c"@,
        text: "#f2f2f7"@,
        muted_text: "#8f8f95"@,
        accent: "#0a84ff"@,
        accent_soft: "rgba(10, 132, 255, 0.16)"@,
        accent_text: "#ffffff"@,
        success: "#30d158"@,
        danger: "#ff453a"@,
        canvas_base: "#2a2a2a"@,
        empty_tile: "#142131"@,
        grid_line: "rgba(255,255,255,0.085)"@,
        selection_overlay: "rgba(0,0,0,0.38)"@,
        shadow: "rgba(0,0,0,0.28)"@,
    }
}

impl ThemePaletteData {
    /// The default dark palette as colour texts.
    pub fn taled_dark() -> (d: ThemePaletteData)
        ensures
            d@ == taled_dark_palette(),
    {
        ThemePaletteData {
            name: String::from_str("Taled Dark"),
            appearance: ThemeAppearance::Dark,
            background: String::from_str("#121214"),
            background_elevated: String::from_str("#1f1f21"),
            surface: String::from_str("#1c1c1e"),
            surface_elevated: String::from_str("#242426"),
            surface_overlay: String::from_str("rgba(28, 28, 30, 0.90)"),
            border: String::from_str("#2c2c2e"),
            border_strong: String::from_str("#3a3a3c"),
            text: String::from_str("#f2f2f7"),
            muted_text: String::from_str("#8f8f95"),
            accent: String::from_str("#0a84ff"),
            accent_soft: String::from_str("rgba(10, 132, 255, 0.16)"),
            accent_text: String::from_str("#ffffff"),
            success: String::from_str("#30d158"),
            danger: String::from_str("#ff453a"),
            canvas_base: String::from_str("#2a2a2a"),
            empty_tile: String::from_str("#142131"),
            grid_line: String::from_str("rgba(255,255,255,0.085)"),
            selection_overlay: String::from_str("rgba(0,0,0,0.38)"),
            shadow: String::from_str("rgba(0,0,0,0.28)"),
        }
    }

    /// An independent copy of the palette.
    pub fn duplicate(&self) -> (d: ThemePaletteData)
        ensures
            d@ == self@,
    {
        ThemePaletteData {
            name: self.name.clone(),
            appearance: self.appearance,
            background: self.background.clone(),
            background_elevated: self.background_elevated.clone(),
            surface: self.surface.clone(),
            surface_elevated: self.surface_elevated.clone(),
            surface_overlay: self.surface_overlay.clone(),
            border: self.border.clone(),
            border_strong: self.border_strong.clone(),
            text: self.text.clone(),
            muted_text: self.muted_text.clone(),
            accent: self.accent.clone(),
            accent_soft: self.accent_soft.clone(),
            accent_text: self.accent_text.clone(),
            success: self.success.clone(),
            danger: self.danger.clone(),
            canvas_base: self.canvas_base.clone(),
            empty_tile: self.empty_tile.clone(),
            grid_line: self.grid_line.clone(),
            selection_overlay: self.selection_overlay.clone(),
            shadow: self.shadow.clone(),
        }
    }
}

/// The palette a custom theme starts from: the default dark one.
pub fn default_custom_theme() -> (d: ThemePaletteData)
    ensures
        d@ == taled_dark_palette(),
{
    ThemePaletteData::taled_dark()
}

/// The name an imported palette keeps: its own, or "Imported Theme" when
/// it is blank.
pub fn finish_imported_theme(theme: ThemePaletteData) -> (d: ThemePaletteData)
    ensures
        d@ == (PaletteView {
            name: if is_blank_seq(theme@.name) {
                "Imported Theme"@
            } else {
                theme@.name
            },
            ..theme@
        }),
{
    let mut theme = theme;
    if is_blank(theme.name.as_str()) {
        theme.name = String::from_str("Imported Theme");
    }
    theme
}

/// The message key of a choice's label.
pub open spec fn theme_label_key(choice: ThemeChoice) -> Seq<char> {
    match choice {
        ThemeChoice::System => "settings-theme-system"@,
        ThemeChoice::Dark => "settings-theme-dark"@,
        ThemeChoice::Light => "settings-theme-light"@,
        ThemeChoice::CatppuccinLatte => "settings-theme-catppuccin-latte"@,
        ThemeChoice::CatppuccinFrappe => "settings-theme-catppuccin-frappe"@,
        ThemeChoice::CatppuccinMacchiato => "settings-theme-catppuccin-macchiato"@,
        ThemeChoice::CatppuccinMocha => "settings-theme-catppuccin-mocha"@,
        ThemeChoice::Custom => "settings-theme-custom"@,
    }
}

/// The message key of a choice's label.
pub fn theme_label(choice: ThemeChoice) -> (key: &'static str)
    ensures
        key@ == theme_label_key(choice),
{
    match choice {
        ThemeChoice::System => "settings-theme-system",
        ThemeChoice::Dark => "settings-theme-dark",
        ThemeChoice::Light => "settings-theme-light",
        ThemeChoice::CatppuccinLatte => "settings-theme-catppuccin-latte",
        ThemeChoice::CatppuccinFrappe => "settings-theme-catppuccin-frappe",
        ThemeChoice::CatppuccinMacchiato => "settings-theme-catppuccin-macchiato",
        ThemeChoice::CatppuccinMocha => "settings-theme-catppuccin-mocha",
        ThemeChoice::Custom => "settings-theme-custom",
    }
}


/// The element id of a choice's card on the themes screen.
pub open spec fn card_id(choice: ThemeChoice) -> Seq<char> {
    match choice {
        ThemeChoice::System => "tc-system"@,
        ThemeChoice::Dark => "tc-dark"@,
        ThemeChoice::Light => "tc-light"@,
        ThemeChoice::CatppuccinLatte => "tc-latte"@,
        ThemeChoice::CatppuccinFrappe => "tc-frappe"@,
        ThemeChoice::CatppuccinMacchiato => "tc-macchiato"@,
        ThemeChoice::CatppuccinMocha => "tc-mocha"@,
        ThemeChoice::Custom => "tc-custom"@,
    }
}

/// The element id of a choice's card on the themes screen.
pub fn theme_card_id(choice: ThemeChoice) -> (id: &'static str)
    ensures
        id@ == card_id(choice),
{
    match choice {
        ThemeChoice::System => "tc-system",
        ThemeChoice::Dark => "tc-dark",
        ThemeChoice::Light => "tc-light",
        ThemeChoice::CatppuccinLatte => "tc-latte",
        ThemeChoice::CatppuccinFrappe => "tc-frappe",
        ThemeChoice::CatppuccinMacchiato => "tc-macchiato",
        ThemeChoice::CatppuccinMocha => "tc-mocha",
        ThemeChoice::Custom => "tc-custom",
    }
}

} // verus!
