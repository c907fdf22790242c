//! User configuration.

use vstd::prelude::*;

use crate::i18n::{language_for_code, Language};
use crate::text::{copy_string, lowercase};

verus! {

/// The user's settings.
#[derive(Debug)]
pub struct AppConfig {
    /// Directories searched for AppImages.
    pub appimage_dirs: Vec<String>,
    pub show_system_components: bool,
    /// Interface language code: en, zh, es, hi, ar, pt, ru.
    pub language: String,
}

impl Default for AppConfig {
    /// The default settings: the user's default AppImage directories,
    /// system components hidden, English interface.
    fn default() -> (r: AppConfig)
        ensures
            exists|h: Option<Seq<char>>|
                crate::text::views(r.appimage_dirs@) == crate::system::paths::appimage_dirs_in(h),
            !r.show_system_components,
            r.language@ == "en"@,
    {
        AppConfig::with_appimage_dirs(crate::system::paths::default_appimage_dirs())
    }
}

impl AppConfig {
    /// The default settings for the given AppImage directories: system
    /// components hidden, English interface.
    pub fn with_appimage_dirs(appimage_dirs: Vec<String>) -> (r: AppConfig)
        ensures
            r.appimage_dirs == appimage_dirs,
            !r.show_system_components,
            r.language@ == "en"@,
    {
        AppConfig {
            appimage_dirs,
            show_system_components: false,
            language: copy_string(Language::English.code()),
        }
    }

    /// The interface language the configuration names.
    pub fn language_enum(&self) -> (r: Language)
        ensures
            r == language_for_code(lowercase(self.language@)),
    {
        Language::from_code(self.language.as_str())
    }
}

} // verus!
