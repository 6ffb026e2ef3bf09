//! The user's settings: interface language and colour theme, with the
//! device locale they are resolved against.

use vstd::prelude::*;
use crate::locale::{AppLanguagePreference, SupportedLanguage, detect_device_locale_tag, resolve_language, resolved};
use crate::text::is_blank_seq;
use crate::theme::{ThemeChoice, ThemePaletteData, default_custom_theme, taled_dark_palette};

verus! {

/// The user's settings.
#[derive(Debug)]
pub struct Preferences {
    pub language_preference: AppLanguagePreference,
    pub theme_choice: ThemeChoice,
    pub custom_theme: ThemePaletteData,
    pub device_locale_tag: String,
}

impl Preferences {
    /// The settings of a fresh install on a device whose locale is
    /// `device_locale_tag`: automatic language, the dark theme and the
    /// default custom palette.
    pub fn new(device_locale_tag: String) -> (p: Preferences)
        ensures
            p.language_preference == AppLanguagePreference::Auto,
            p.theme_choice == ThemeChoice::Dark,
            p.custom_theme@ == taled_dark_palette(),
            p.device_locale_tag@ == device_locale_tag@,
    {
        Preferences {
            language_preference: AppLanguagePreference::Auto,
            theme_choice: ThemeChoice::Dark,
            custom_theme: default_custom_theme(),
            device_locale_tag,
        }
    }

    /// The settings of a fresh install on this device: those of
    /// [`Preferences::new`] for the locale the system reports (or "en-US").
    pub fn for_this_device() -> (p: Preferences)
        ensures
            p.language_preference == AppLanguagePreference::Auto,
            p.theme_choice == ThemeChoice::Dark,
            p.custom_theme@ == taled_dark_palette(),
            !is_blank_seq(p.device_locale_tag@),
    {
        Preferences::new(detect_device_locale_tag())
    }

    /// The language the interface is shown in.
    pub fn resolved_language(&self) -> (l: SupportedLanguage)
        ensures
            l == resolved(self.language_preference, self.device_locale_tag@),
    {
        resolve_language(self.language_preference, self.device_locale_tag.as_str())
    }
}

} // verus!
