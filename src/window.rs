use vstd::prelude::*;

use crate::platform::{spec_supports_effects, Platform};

verus! {

/// Label of the main window.
pub const MAIN_WINDOW_LABEL: &'static str = "main";

/// Title of the main window.
pub const MAIN_WINDOW_TITLE: &'static str = "lsar";

/// Inner width of the main window, in logical pixels.
pub const MAIN_WINDOW_WIDTH: u32 = 800;

/// Inner height on macOS, which leaves room for the overlaid title bar.
pub const MAIN_WINDOW_HEIGHT_MACOS: u32 = 628;

/// Inner height on every other platform.
pub const MAIN_WINDOW_HEIGHT: u32 = 600;

/// The shape of a window to build.
#[derive(Clone, Copy, Debug)]
pub struct WindowSpec {
    pub label: &'static str,
    pub title: &'static str,
    pub width: u32,
    pub height: u32,
    pub resizable: bool,
    pub maximizable: bool,
    pub visible: bool,
    pub transparent: bool,
}

pub open spec fn spec_main_window_height(platform: Platform) -> u32 {
    if platform == Platform::MacOs {
        MAIN_WINDOW_HEIGHT_MACOS
    } else {
        MAIN_WINDOW_HEIGHT
    }
}

/// Whether `w` is the main window for `platform` with the configured
/// transparency: fixed size, not resizable or maximizable, hidden at first,
/// and transparent only where the platform supports it.
pub open spec fn spec_is_main_window(w: WindowSpec, platform: Platform, transparent: bool) -> bool {
    &&& w.label@ == MAIN_WINDOW_LABEL@
    &&& w.title@ == MAIN_WINDOW_TITLE@
    &&& w.width == MAIN_WINDOW_WIDTH
    &&& w.height == spec_main_window_height(platform)
    &&& !w.resizable
    &&& !w.maximizable
    &&& !w.visible
    &&& w.transparent == (spec_supports_effects(platform) && transparent)
}

/// The main window's spec; `transparent` is the configured flag, which only
/// platforms with effect support honour.
pub fn main_window_spec(platform: Platform, transparent: bool) -> (r: WindowSpec)
    ensures
        spec_is_main_window(r, platform, transparent),
{
    let height = if matches!(platform, Platform::MacOs) {
        MAIN_WINDOW_HEIGHT_MACOS
    } else {
        MAIN_WINDOW_HEIGHT
    };
    WindowSpec {
        label: MAIN_WINDOW_LABEL,
        title: MAIN_WINDOW_TITLE,
        width: MAIN_WINDOW_WIDTH,
        height,
        resizable: false,
        maximizable: false,
        visible: false,
        transparent: platform.supports_effects() && transparent,
    }
}

/// A platform visual effect for the main window.
#[derive(Clone, Copy, Debug, PartialEq, Eq, Structural)]
pub enum WindowEffect {
    /// macOS: overlay title bar, then the HUD-window vibrancy material.
    HudVibrancy,
    /// Windows: acrylic blur tinted with the given RGBA colour.
    Acrylic { red: u8, green: u8, blue: u8, alpha: u8 },
}

/// The effect to apply after creating the main window, if any.
pub open spec fn spec_window_effect(platform: Platform, transparent: bool) -> Option<WindowEffect> {
    if !transparent {
        None
    } else {
        match platform {
            Platform::MacOs => Some(WindowEffect::HudVibrancy),
            Platform::Windows => Some(WindowEffect::Acrylic { red: 18, green: 18, blue: 18, alpha: 125 }),
            _ => None,
        }
    }
}

/// Chooses the effect for the main window: one exactly when the platform
/// supports effects and transparency is configured.
pub fn window_effect(platform: Platform, transparent: bool) -> (r: Option<WindowEffect>)
    ensures
        r == spec_window_effect(platform, transparent),
        r is Some <==> (spec_supports_effects(platform) && transparent),
{
    if !transparent {
        return None;
    }
    match platform {
        Platform::MacOs => Some(WindowEffect::HudVibrancy),
        Platform::Windows => Some(WindowEffect::Acrylic { red: 18, green: 18, blue: 18, alpha: 125 }),
        _ => None,
    }
}

} // verus!
