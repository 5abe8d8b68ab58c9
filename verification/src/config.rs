use vstd::prelude::*;

verus! {

/// Preferences of the launcher that persist between runs.
#[derive(Debug, Clone)]
pub struct LauncherConfig {
    /// Whether the application is started in fullscreen mode.
    pub fullscreen: bool,
}

impl Default for LauncherConfig {
    /// A fresh configuration starts the application in fullscreen mode.
    fn default() -> (config: Self)
        ensures
            config.fullscreen,
    {
        LauncherConfig { fullscreen: true }
    }
}

} // verus!
