use vstd::prelude::*;

verus! {

/// How the binary was built: with debug assertions (development) or without.
#[derive(Clone, Copy, Debug, PartialEq, Eq, Structural)]
pub enum BuildMode {
    Development,
    Production,
}

/// The platform family the application runs on.
#[derive(Clone, Copy, Debug, PartialEq, Eq, Structural)]
pub enum Platform {
    MacOs,
    Windows,
    Linux,
    Mobile,
}

/// Desktop platforms own a config directory for a log file and take updates.
pub open spec fn spec_is_desktop(p: Platform) -> bool {
    p != Platform::Mobile
}

/// Platforms whose windows can be transparent and carry a visual effect.
pub open spec fn spec_supports_effects(p: Platform) -> bool {
    p == Platform::MacOs || p == Platform::Windows
}

impl Platform {
    pub fn is_desktop(&self) -> (r: bool)
        ensures
            r == spec_is_desktop(*self),
    {
        !matches!(self, Platform::Mobile)
    }

    pub fn supports_effects(&self) -> (r: bool)
        ensures
            r == spec_supports_effects(*self),
    {
        matches!(self, Platform::MacOs | Platform::Windows)
    }
}

} // verus!
