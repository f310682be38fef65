use vstd::prelude::*;

verus! {

#[verifier::external_type_specification]
#[verifier::external_body]
pub struct ExVisuals(eframe::egui::Visuals);

/// Relies on egui's `Visuals::dark`: the default dark style.
#[verifier::external_body]
fn dark_visuals() -> eframe::egui::Visuals {
    eframe::egui::Visuals::dark()
}

/// Relies on egui's `Visuals::light`: the default light style.
#[verifier::external_body]
fn light_visuals() -> eframe::egui::Visuals {
    eframe::egui::Visuals::light()
}

/// Relies on egui's `Context::set_visuals`: the context draws with `visuals`
/// from the next frame on.
#[verifier::external_body]
fn context_set_visuals(ctx: &eframe::egui::Context, visuals: eframe::egui::Visuals) {
    ctx.set_visuals(visuals);
}

/// A visual theme.
#[non_exhaustive]
#[derive(Debug, Clone, Copy, PartialEq, Eq, Structural)]
pub enum Theme {
    /// The light theme.
    Light,
    /// The dark theme.
    Dark,
}

impl Theme {
    /// The style the renderer draws this theme with.
    pub fn visuals(&self) -> eframe::egui::Visuals {
        match self {
            Theme::Dark => dark_visuals(),
            Theme::Light => light_visuals(),
        }
    }
}

impl Default for Theme {
    /// The dark theme.
    fn default() -> (r: Self)
        ensures
            r == Theme::Dark,
    {
        Theme::Dark
    }
}

/// Display flags of the application, independent of which page is current.
pub struct View {
    /// Whether the top bar is enabled.
    pub(crate) top_enabled: bool,
    /// Whether the bottom bar is enabled.
    pub(crate) bottom_enabled: bool,
    /// The current theme.
    pub(crate) theme: Theme,
}

impl View {
    /// Whether the top bar is shown.
    pub closed spec fn top(&self) -> bool {
        self.top_enabled
    }

    /// Whether the bottom bar is shown.
    pub closed spec fn bottom(&self) -> bool {
        self.bottom_enabled
    }

    /// The theme in use.
    pub closed spec fn theme(&self) -> Theme {
        self.theme
    }

    /// A view with the given flags and theme.
    pub fn new(top_enabled: bool, bottom_enabled: bool, theme: Theme) -> (r: View)
        ensures
            r.top() == top_enabled,
            r.bottom() == bottom_enabled,
            r.theme() == theme,
    {
        View { top_enabled, bottom_enabled, theme }
    }

    /// Enable the top bar.
    pub fn enable_top(&mut self)
        ensures
            final(self).top(),
            final(self).bottom() == old(self).bottom(),
            final(self).theme() == old(self).theme(),
    {
        self.top_enabled = true;
    }

    /// Disable the top bar.
    pub fn disable_top(&mut self)
        ensures
            !final(self).top(),
            final(self).bottom() == old(self).bottom(),
            final(self).theme() == old(self).theme(),
    {
        self.top_enabled = false;
    }

    /// Enable the bottom bar.
    pub fn enable_bottom(&mut self)
        ensures
            final(self).bottom(),
            final(self).top() == old(self).top(),
            final(self).theme() == old(self).theme(),
    {
        self.bottom_enabled = true;
    }

    /// Disable the bottom bar.
    pub fn disable_bottom(&mut self)
        ensures
            !final(self).bottom(),
            final(self).top() == old(self).top(),
            final(self).theme() == old(self).theme(),
    {
        self.bottom_enabled = false;
    }

    /// Whether the top bar is shown.
    pub fn top_enabled(&self) -> (r: bool)
        ensures
            r == self.top(),
    {
        self.top_enabled
    }

    /// Whether the bottom bar is shown.
    pub fn bottom_enabled(&self) -> (r: bool)
        ensures
            r == self.bottom(),
    {
        self.bottom_enabled
    }

    /// Update the current theme, and have the render context draw with it.
    pub fn set_theme(&mut self, theme: Theme, ctx: &eframe::egui::Context)
        ensures
            final(self).theme() == theme,
            final(self).top() == old(self).top(),
            final(self).bottom() == old(self).bottom(),
    {
        self.theme = theme;
        context_set_visuals(ctx, theme.visuals());
    }

    /// Get the current theme.
    pub fn current_theme(&self) -> (r: Theme)
        ensures
            r == self.theme(),
    {
        self.theme
    }
}

impl Default for View {
    /// Both bars shown, dark theme.
    fn default() -> (r: Self)
        ensures
            r.top(),
            r.bottom(),
            r.theme() == Theme::Dark,
    {
        View { top_enabled: true, bottom_enabled: true, theme: Theme::Dark }
    }
}

} // verus!
