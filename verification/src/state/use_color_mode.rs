use vstd::prelude::*;

verus! {

/// Available colour modes.
#[derive(Clone, Copy, Debug, PartialEq, Eq, Structural)]
pub enum ColorMode {
    /// Light mode
    Light,
    /// Dark mode
    Dark,
    /// Follow the system preference
    Auto,
}

impl Default for ColorMode {
    fn default() -> (m: Self)
        ensures
            m == ColorMode::Auto,
    {
        ColorMode::Auto
    }
}

/// Whether `mode` shows the dark theme, given whether the system prefers dark.
pub open spec fn spec_is_dark(mode: ColorMode, system_prefers_dark: bool) -> bool {
    match mode {
        ColorMode::Light => false,
        ColorMode::Dark => true,
        ColorMode::Auto => system_prefers_dark,
    }
}

/// The mode that a toggle switches to: Light and Dark swap, and Auto becomes
/// the explicit opposite of what the system currently shows.
pub open spec fn spec_toggled(mode: ColorMode, system_prefers_dark: bool) -> ColorMode {
    match mode {
        ColorMode::Light => ColorMode::Dark,
        ColorMode::Dark => ColorMode::Light,
        ColorMode::Auto => if system_prefers_dark { ColorMode::Light } else { ColorMode::Dark },
    }
}

/// Whether the dark theme is active for `mode` under the given system preference.
pub fn color_mode_is_dark(mode: ColorMode, system_prefers_dark: bool) -> (dark: bool)
    ensures
        dark == spec_is_dark(mode, system_prefers_dark),
{
    match mode {
        ColorMode::Light => false,
        ColorMode::Dark => true,
        ColorMode::Auto => system_prefers_dark,
    }
}

/// The mode that toggling from `mode` sets.
pub fn toggle_color_mode(mode: ColorMode, system_prefers_dark: bool) -> (next: ColorMode)
    ensures
        next == spec_toggled(mode, system_prefers_dark),
{
    match mode {
        ColorMode::Light => ColorMode::Dark,
        ColorMode::Dark => ColorMode::Light,
        ColorMode::Auto => {
            if system_prefers_dark {
                ColorMode::Light
            } else {
                ColorMode::Dark
            }
        },
    }
}

/// A toggle always flips whether the dark theme is shown, and always leaves an
/// explicit (non-Auto) mode.
pub proof fn lemma_toggle_flips_theme(mode: ColorMode, system_prefers_dark: bool)
    ensures
        spec_is_dark(spec_toggled(mode, system_prefers_dark), system_prefers_dark)
            == !spec_is_dark(mode, system_prefers_dark),
        spec_toggled(mode, system_prefers_dark) != ColorMode::Auto,
{
}

/// Toggling twice returns an explicit mode to itself, and leaves Auto on the
/// explicit mode that shows the same theme.
pub proof fn lemma_toggle_twice(mode: ColorMode, system_prefers_dark: bool)
    ensures
        mode != ColorMode::Auto ==> spec_toggled(spec_toggled(mode, system_prefers_dark), system_prefers_dark) == mode,
        spec_is_dark(spec_toggled(spec_toggled(mode, system_prefers_dark), system_prefers_dark), system_prefers_dark)
            == spec_is_dark(mode, system_prefers_dark),
{
}

/// Light never shows the dark theme, Dark always does, and Auto shows it
/// exactly when the system prefers dark.
pub proof fn lemma_theme_of_mode(system_prefers_dark: bool)
    ensures
        !spec_is_dark(ColorMode::Light, system_prefers_dark),
        spec_is_dark(ColorMode::Dark, system_prefers_dark),
        spec_is_dark(ColorMode::Auto, system_prefers_dark) == system_prefers_dark,
{
}

} // verus!
