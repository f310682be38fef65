//! The options a window is opened with.

use crate::view::Theme;
use vstd::prelude::*;

verus! {

#[verifier::external_type_specification]
#[verifier::external_body]
pub struct ExNativeOptions(eframe::NativeOptions);

/// Relies on eframe's `NativeOptions::default`: the native window settings
/// eframe uses when none are given.
#[verifier::external_body]
fn default_native_options() -> eframe::NativeOptions {
    eframe::NativeOptions::default()
}

/// The title a window gets when none is given: the name of this library.
pub const DEFAULT_TITLE: &'static str = "sphinx";

/// The options to create the application window with.
pub struct WindowOptions {
    /// The window title.
    pub title: String,
    /// The initial theme; dark unless set.
    pub theme: Theme,
    /// Disable the top bar; it can be enabled again through the view.
    pub disable_top: bool,
    /// Disable the bottom bar; it can be enabled again through the view.
    pub disable_bottom: bool,
    /// The native integration options, passed through to the host.
    pub native: eframe::NativeOptions,
}

impl WindowOptions {
    /// A window with the main section only: both bars disabled, everything
    /// else as by default.
    pub fn single() -> (r: Self)
        ensures
            r.disable_top,
            r.disable_bottom,
            r.theme == Theme::Dark,
            r.title@ == DEFAULT_TITLE@,
    {
        let mut options = WindowOptions::default();
        options.disable_top = true;
        options.disable_bottom = true;
        options
    }

    /// Split into the title, the native options and the initial view, whose
    /// bars are shown unless disabled.
    pub fn collapse(self) -> (r: (String, eframe::NativeOptions, crate::view::View))
        ensures
            r.0 == self.title,
            r.1 == self.native,
            r.2.top() == !self.disable_top,
            r.2.bottom() == !self.disable_bottom,
            r.2.theme() == self.theme,
    {
        let view = crate::view::View::new(!self.disable_top, !self.disable_bottom, self.theme);
        (self.title, self.native, view)
    }
}

impl Default for WindowOptions {
    /// The library's name as title, the dark theme, both bars shown, eframe's
    /// default native options.
    fn default() -> (r: Self)
        ensures
            r.title@ == DEFAULT_TITLE@,
            r.theme == Theme::Dark,
            !r.disable_top,
            !r.disable_bottom,
    {
        WindowOptions {
            title: DEFAULT_TITLE.to_owned(),
            theme: Theme::Dark,
            disable_top: false,
            disable_bottom: false,
            native: default_native_options(),
        }
    }
}

} // verus!
