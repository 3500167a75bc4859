//! The RDP performance flags, as they cross the C API.

use vstd::prelude::*;

verus! {

/// Raw performance flags.
pub type RdwRdpPerformanceFlags = u32;

pub const RDW_RDP_PERFORMANCE_FLAGS_DISABLE_WALLPAPER: RdwRdpPerformanceFlags = 0x0000_0001;
pub const RDW_RDP_PERFORMANCE_FLAGS_DISABLE_FULLWINDOWDRAG: RdwRdpPerformanceFlags = 0x0000_0002;
pub const RDW_RDP_PERFORMANCE_FLAGS_DISABLE_MENUANIMATIONS: RdwRdpPerformanceFlags = 0x0000_0004;
pub const RDW_RDP_PERFORMANCE_FLAGS_DISABLE_THEMING: RdwRdpPerformanceFlags = 0x0000_0008;
pub const RDW_RDP_PERFORMANCE_FLAGS_RESERVED1: RdwRdpPerformanceFlags = 0x0000_0010;
pub const RDW_RDP_PERFORMANCE_FLAGS_DISABLE_CURSOR_SHADOW: RdwRdpPerformanceFlags = 0x0000_0020;
pub const RDW_RDP_PERFORMANCE_FLAGS_DISABLE_CURSORSETTINGS: RdwRdpPerformanceFlags = 0x0000_0040;
pub const RDW_RDP_PERFORMANCE_FLAGS_ENABLE_FONT_SMOOTHING: RdwRdpPerformanceFlags = 0x0000_0080;
pub const RDW_RDP_PERFORMANCE_FLAGS_ENABLE_DESKTOP_COMPOSITION: RdwRdpPerformanceFlags = 0x0000_0100;
pub const RDW_RDP_PERFORMANCE_FLAGS_RESERVED2: RdwRdpPerformanceFlags = 0x8000_0000;

/// The performance flags of the RDP client info, one variant per flag.
#[derive(Debug, PartialEq, Eq, Clone, Copy, Structural)]
pub enum RdpPerformanceFlags {
    DisableWallpaper,
    DisableFullwindowDrag,
    DisableMenuAnimations,
    DaibleTheming,
    Reserved1,
    DisableCursorShadow,
    DisableCursorSettings,
    EnableFontSmoothing,
    EnableDesktopComposition,
    Reserved2,
}

/// The bit of a performance flag.
pub open spec fn performance_flag_bits(f: RdpPerformanceFlags) -> u32 {
    match f {
        RdpPerformanceFlags::DisableWallpaper => RDW_RDP_PERFORMANCE_FLAGS_DISABLE_WALLPAPER,
        RdpPerformanceFlags::DisableFullwindowDrag => RDW_RDP_PERFORMANCE_FLAGS_DISABLE_FULLWINDOWDRAG,
        RdpPerformanceFlags::DisableMenuAnimations => RDW_RDP_PERFORMANCE_FLAGS_DISABLE_MENUANIMATIONS,
        RdpPerformanceFlags::DaibleTheming => RDW_RDP_PERFORMANCE_FLAGS_DISABLE_THEMING,
        RdpPerformanceFlags::Reserved1 => RDW_RDP_PERFORMANCE_FLAGS_RESERVED1,
        RdpPerformanceFlags::DisableCursorShadow => RDW_RDP_PERFORMANCE_FLAGS_DISABLE_CURSOR_SHADOW,
        RdpPerformanceFlags::DisableCursorSettings => RDW_RDP_PERFORMANCE_FLAGS_DISABLE_CURSORSETTINGS,
        RdpPerformanceFlags::EnableFontSmoothing => RDW_RDP_PERFORMANCE_FLAGS_ENABLE_FONT_SMOOTHING,
        RdpPerformanceFlags::EnableDesktopComposition => RDW_RDP_PERFORMANCE_FLAGS_ENABLE_DESKTOP_COMPOSITION,
        RdpPerformanceFlags::Reserved2 => RDW_RDP_PERFORMANCE_FLAGS_RESERVED2,
    }
}

impl RdpPerformanceFlags {
    /// The bit of the flag.
    pub fn bits(&self) -> (r: RdwRdpPerformanceFlags)
        ensures
            r == performance_flag_bits(*self),
    {
        match self {
            RdpPerformanceFlags::DisableWallpaper => RDW_RDP_PERFORMANCE_FLAGS_DISABLE_WALLPAPER,
            RdpPerformanceFlags::DisableFullwindowDrag => RDW_RDP_PERFORMANCE_FLAGS_DISABLE_FULLWINDOWDRAG,
            RdpPerformanceFlags::DisableMenuAnimations => RDW_RDP_PERFORMANCE_FLAGS_DISABLE_MENUANIMATIONS,
            RdpPerformanceFlags::DaibleTheming => RDW_RDP_PERFORMANCE_FLAGS_DISABLE_THEMING,
            RdpPerformanceFlags::Reserved1 => RDW_RDP_PERFORMANCE_FLAGS_RESERVED1,
            RdpPerformanceFlags::DisableCursorShadow => RDW_RDP_PERFORMANCE_FLAGS_DISABLE_CURSOR_SHADOW,
            RdpPerformanceFlags::DisableCursorSettings => RDW_RDP_PERFORMANCE_FLAGS_DISABLE_CURSORSETTINGS,
            RdpPerformanceFlags::EnableFontSmoothing => RDW_RDP_PERFORMANCE_FLAGS_ENABLE_FONT_SMOOTHING,
            RdpPerformanceFlags::EnableDesktopComposition => RDW_RDP_PERFORMANCE_FLAGS_ENABLE_DESKTOP_COMPOSITION,
            RdpPerformanceFlags::Reserved2 => RDW_RDP_PERFORMANCE_FLAGS_RESERVED2,
        }
    }
}

} // verus!
