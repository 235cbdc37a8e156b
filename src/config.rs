use vstd::prelude::*;

verus! {

/// Zoom factors are held as whole percentages: 100 is the native scale.
pub const NATIVE_ZOOM_PERCENT: u32 = 100;

/// The readability boost used when no other value is configured (a factor of 1.3).
pub const DEFAULT_ZOOM_BOOST_PERCENT: u32 = 130;

/// The target operating system, chosen by the host when it starts.
#[derive(Clone, Copy, Debug, PartialEq, Eq, Structural)]
pub enum Platform {
    MacOS,
    Windows,
    Linux,
    /// Any other target: no platform tuning applies.
    Other,
}

/// Why a startup configuration was refused.
#[derive(Clone, Copy, Debug, PartialEq, Eq, Structural)]
pub enum ConfigError {
    /// The zoom boost does not enlarge the content (it is 100% or less).
    BoostNotAboveNative,
}

/// The fixed behaviour profile of a process: the build profile and the zoom
/// boost applied on Linux in debug builds.
#[derive(Clone, Copy, Debug, PartialEq, Eq, Structural)]
pub struct StartupConfig {
    pub debug: bool,
    pub zoom_boost_percent: u32,
}

impl StartupConfig {
    /// A boost is a factor greater than 1.0.
    pub open spec fn wf(&self) -> bool {
        self.zoom_boost_percent > NATIVE_ZOOM_PERCENT
    }

    /// A configuration with the given profile and boost; refused when the
    /// boost is not above the native scale.
    pub fn new(debug: bool, zoom_boost_percent: u32) -> (r: Result<StartupConfig, ConfigError>)
        ensures
            zoom_boost_percent > NATIVE_ZOOM_PERCENT ==> r == Ok::<StartupConfig, ConfigError>(
                (StartupConfig { debug, zoom_boost_percent }),
            ),
            zoom_boost_percent <= NATIVE_ZOOM_PERCENT ==> r == Err::<StartupConfig, ConfigError>(
                ConfigError::BoostNotAboveNative,
            ),
    {
        if zoom_boost_percent > NATIVE_ZOOM_PERCENT {
            Ok(StartupConfig { debug, zoom_boost_percent })
        } else {
            Err(ConfigError::BoostNotAboveNative)
        }
    }

    /// A configuration with the given profile and the default boost.
    pub fn with_default_boost(debug: bool) -> (r: StartupConfig)
        ensures
            r.wf(),
            r.debug == debug,
            r.zoom_boost_percent == DEFAULT_ZOOM_BOOST_PERCENT,
    {
        StartupConfig { debug, zoom_boost_percent: DEFAULT_ZOOM_BOOST_PERCENT }
    }
}

} // verus!
