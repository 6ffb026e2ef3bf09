use taled_editor::navigation::{
    MobileScreen, Navigation, PageTransition, TransitionDir, read_initial_screen,
};
use taled_editor::theme::{
    Rgba8, Theme, ThemeAppearance, ThemeChoice, ThemePaletteData, default_custom_theme,
    finish_imported_theme, hex, hexa, theme_label,
};

#[test]
fn screens_from_host_index() {
    assert_eq!(read_initial_screen(), MobileScreen::Dashboard);
    assert_eq!(MobileScreen::from_index(1), MobileScreen::Editor);
    assert_eq!(MobileScreen::from_index(5), MobileScreen::Properties);
    assert_eq!(MobileScreen::from_index(8), MobileScreen::About);
    assert_eq!(MobileScreen::from_index(0), MobileScreen::Dashboard);
    assert_eq!(MobileScreen::from_index(-3), MobileScreen::Dashboard);
    assert_eq!(MobileScreen::from_index(9), MobileScreen::Dashboard);
    assert!(MobileScreen::Layers.is_editor_subtab());
    assert!(!MobileScreen::Editor.is_editor_subtab());
    assert!(MobileScreen::Settings.is_dashboard_tab());
    assert!(!MobileScreen::Themes.is_dashboard_tab());
}

#[test]
fn forward_navigation_closes_popups() {
    let mut nav = Navigation::new(MobileScreen::Dashboard);
    nav.show_language_popup = true;
    nav.navigate(MobileScreen::Dashboard);
    assert!(nav.show_language_popup);
    assert_eq!(nav.transition, None);
    nav.navigate(MobileScreen::Editor);
    assert!(!nav.show_language_popup);
    assert_eq!(nav.screen, MobileScreen::Editor);
    assert_eq!(
        nav.transition,
        Some(PageTransition { from_screen: MobileScreen::Dashboard, dir: TransitionDir::Forward })
    );
    nav.navigate_up(MobileScreen::Layers);
    assert_eq!(nav.transition.map(|t| t.dir), Some(TransitionDir::Up));
    nav.navigate_tab(MobileScreen::Settings);
    assert_eq!(nav.transition, None);
    assert_eq!(nav.screen, MobileScreen::Settings);
}

#[test]
fn back_goes_to_the_parent_screen() {
    let mut nav = Navigation::new(MobileScreen::Tilesets);
    nav.navigate_back();
    assert_eq!(nav.screen, MobileScreen::Editor);
    assert_eq!(
        nav.transition,
        Some(PageTransition { from_screen: MobileScreen::Tilesets, dir: TransitionDir::Down })
    );
    nav.navigate_back();
    assert_eq!(nav.screen, MobileScreen::Dashboard);
    assert_eq!(nav.transition.map(|t| t.dir), Some(TransitionDir::Back));
    nav.transition = None;
    nav.navigate_back();
    assert_eq!(nav.screen, MobileScreen::Dashboard);
    assert_eq!(nav.transition, None);
    let mut nav = Navigation::new(MobileScreen::About);
    nav.navigate_back();
    assert_eq!(nav.screen, MobileScreen::Settings);
    nav.navigate_back();
    assert_eq!(nav.screen, MobileScreen::Dashboard);
    nav.navigate_back_to(MobileScreen::Editor);
    assert_eq!(nav.transition.map(|t| t.dir), Some(TransitionDir::Back));
    nav.navigate_down(MobileScreen::Dashboard);
    assert_eq!(nav.transition.map(|t| t.dir), Some(TransitionDir::Down));
}

#[test]
fn hex_colors_split_channels() {
    assert_eq!(hex(0x0a84ff), Rgba8 { r: 0x0a, g: 0x84, b: 0xff, a: 255 });
    assert_eq!(hexa(0x1c1c1e, 230), Rgba8 { r: 0x1c, g: 0x1c, b: 0x1e, a: 230 });
    assert_eq!(hex(0xff123456), Rgba8 { r: 0x12, g: 0x34, b: 0x56, a: 255 });
}

#[test]
fn themes_follow_the_choice() {
    let custom = Theme::catppuccin_mocha();
    let dark = Theme::from_choice(ThemeChoice::System, &custom);
    assert_eq!(dark.name, "Taled Dark");
    assert_eq!(dark.appearance, ThemeAppearance::Dark);
    assert_eq!(dark.colors.background, hex(0x121214));
    let light = Theme::from_choice(ThemeChoice::Light, &custom);
    assert_eq!(light.name, "Taled Light");
    assert_eq!(light.appearance, ThemeAppearance::Light);
    let latte = Theme::from_choice(ThemeChoice::CatppuccinLatte, &custom);
    assert_eq!(latte.colors.accent, hex(0x1e66f5));
    let mine = Theme::from_choice(ThemeChoice::Custom, &custom);
    assert_eq!(mine.name, "Catppuccin Mocha");
    assert_eq!(mine.colors, custom.colors);
    assert_eq!(Theme::catppuccin_frappe().colors.selection_overlay, hexa(0x232634, 97));
    assert_eq!(Theme::catppuccin_macchiato().name, "Catppuccin Macchiato");
}

#[test]
fn theme_labels_are_message_keys() {
    assert_eq!(theme_label(ThemeChoice::System), "settings-theme-system");
    assert_eq!(theme_label(ThemeChoice::CatppuccinMacchiato), "settings-theme-catppuccin-macchiato");
    assert_eq!(theme_label(ThemeChoice::Custom), "settings-theme-custom");
}

#[test]
fn default_custom_theme_is_taled_dark() {
    let d = default_custom_theme();
    assert_eq!(d.name, "Taled Dark");
    assert_eq!(d.appearance, ThemeAppearance::Dark);
    assert_eq!(d.background, "#121214");
    assert_eq!(d.surface_overlay, "rgba(28, 28, 30, 0.90)");
    assert_eq!(d.shadow, "rgba(0,0,0,0.28)");
    let again = ThemePaletteData::taled_dark();
    assert_eq!(again.accent, d.accent);
}

#[test]
fn imported_theme_gets_a_name_when_blank() {
    let mut t = default_custom_theme();
    t.name = "   ".to_string();
    assert_eq!(finish_imported_theme(t).name, "Imported Theme");
    let mut t = default_custom_theme();
    t.name = " Mine ".to_string();
    let kept = finish_imported_theme(t);
    assert_eq!(kept.name, " Mine ");
    assert_eq!(kept.background, "#121214");
}

use taled_editor::css::{CssColor, parse_css_color_parts};

fn solid(s: &str) -> Option<Rgba8> {
    match parse_css_color_parts(s) {
        CssColor::Solid(c) => Some(c),
        CssColor::Rgb { .. } => None,
    }
}

fn rgb_parts(s: &str) -> Option<(u8, u8, u8, String)> {
    match parse_css_color_parts(s) {
        CssColor::Solid(_) => None,
        CssColor::Rgb { r, g, b, alpha } => Some((r, g, b, alpha)),
    }
}

#[test]
fn hash_colors_read_six_hex_digits() {
    assert_eq!(solid("#0a84ff"), Some(hex(0x0a84ff)));
    assert_eq!(solid("  #0A84FF\n"), Some(hex(0x0a84ff)));
    assert_eq!(solid("#+abcde"), Some(hex(0x0abcde)));
    assert_eq!(solid("#12345"), Some(hex(0)));
    assert_eq!(solid("#1234567"), Some(hex(0)));
    assert_eq!(solid("#zzzzzz"), Some(hex(0)));
    assert_eq!(solid("#"), Some(hex(0)));
}

#[test]
fn rgba_colors_keep_the_alpha_text() {
    assert_eq!(rgb_parts("rgba(28, 28, 30, 0.90)"), Some((28, 28, 30, "0.90".to_string())));
    assert_eq!(rgb_parts("rgba(255,255,255,0.085)"), Some((255, 255, 255, "0.085".to_string())));
    assert_eq!(rgb_parts(" rgba( +7 , 8,9 , x ) "), Some((7, 8, 9, "x".to_string())));
    assert_eq!(rgb_parts("rgba(300, -1, 2, 0.5)"), Some((0, 0, 2, "0.5".to_string())));
    assert_eq!(rgb_parts("rgba(,,,)"), Some((0, 0, 0, "".to_string())));
}

#[test]
fn other_texts_read_as_black() {
    assert_eq!(solid("rgba(1,2,3)"), Some(hex(0)));
    assert_eq!(solid("rgba(1,2,3,4,5)"), Some(hex(0)));
    assert_eq!(solid("rgb(1,2,3,4)"), Some(hex(0)));
    assert_eq!(solid("RGBA(1,2,3,4)"), Some(hex(0)));
    assert_eq!(solid("rgba(1,2,3,4"), Some(hex(0)));
    assert_eq!(solid("blue"), Some(hex(0)));
    assert_eq!(solid(""), Some(hex(0)));
}

use taled_editor::workspace::{decimal_text, next_workspace_name, numbered_workspace_name};

#[test]
fn decimal_digits() {
    assert_eq!(decimal_text(0), "0");
    assert_eq!(decimal_text(7), "7");
    assert_eq!(decimal_text(1234), "1234");
    assert_eq!(decimal_text(u32::MAX as u64), "4294967295");
    assert_eq!(decimal_text(u64::MAX), "18446744073709551615");
    assert_eq!(numbered_workspace_name(12), "workspace-12");
}

#[test]
fn next_workspace_name_takes_the_first_free_number() {
    assert_eq!(next_workspace_name(&[]), "workspace-1");
    let taken = vec!["workspace-1".to_string(), "workspace-3".to_string(), "other".to_string()];
    assert_eq!(next_workspace_name(&taken), "workspace-2");
    let taken = vec!["workspace-2".to_string(), "workspace-1".to_string()];
    assert_eq!(next_workspace_name(&taken), "workspace-3");
}
