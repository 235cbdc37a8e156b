use vstd::prelude::*;
use crate::config::{Platform, StartupConfig, NATIVE_ZOOM_PERCENT};
use crate::window::WindowAction;

verus! {

/// The zoom set on every page load: the configured boost on Linux in debug
/// builds, the native scale everywhere else.
pub open spec fn page_zoom(config: StartupConfig, platform: Platform) -> u32 {
    if platform == Platform::Linux && config.debug {
        config.zoom_boost_percent
    } else {
        NATIVE_ZOOM_PERCENT
    }
}

/// The zoom, in percent, to set on the window each time its content loads.
pub fn page_load_zoom(config: StartupConfig, platform: Platform) -> (r: u32)
    ensures
        r == page_zoom(config, platform),
{
    match platform {
        Platform::Linux => if config.debug {
            config.zoom_boost_percent
        } else {
            NATIVE_ZOOM_PERCENT
        },
        _ => NATIVE_ZOOM_PERCENT,
    }
}

/// The window mutation requested each time the content loads.
pub fn page_load_action(config: StartupConfig, platform: Platform) -> (r: WindowAction)
    ensures
        r == WindowAction::SetZoom(page_zoom(config, platform)),
{
    WindowAction::SetZoom(page_load_zoom(config, platform))
}

} // verus!
