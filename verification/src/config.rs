//! Startup configuration, passed explicitly instead of living in process-wide
//! constants: the window title and dimensions, and whether validation layers
//! are enabled.

use vstd::prelude::*;

verus! {

/// The walkthrough's startup configuration.
#[derive(Clone, Debug)]
pub struct AppConfig {
    pub window_title: String,
    pub window_width: u32,
    pub window_height: u32,
    pub validation_enabled: bool,
}

impl AppConfig {
    pub fn new(window_title: String, window_width: u32, window_height: u32, validation_enabled: bool) -> (c: AppConfig)
        ensures
            c.window_title == window_title,
            c.window_width == window_width,
            c.window_height == window_height,
            c.validation_enabled == validation_enabled,
    {
        AppConfig { window_title, window_width, window_height, validation_enabled }
    }

    /// How many validation layers the logical-device creation enables: all the
    /// configured ones when validation is on, none when it is off.
    pub fn enabled_layer_count(&self, configured_layers: u32) -> (n: u32)
        ensures
            self.validation_enabled ==> n == configured_layers,
            !self.validation_enabled ==> n == 0,
    {
        if self.validation_enabled {
            configured_layers
        } else {
            0
        }
    }
}

} // verus!
