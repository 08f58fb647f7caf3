//! The settings that outlive a run of the editor.

use crate::colors::{ColorPallet, Scheme};
use vstd::prelude::*;

verus! {

/// The settings of the editor.
#[derive(Debug, Clone, PartialEq, Eq)]
pub struct Config {
    pub show_arrows: bool,
    pub show_grid: bool,
    pub show_connection_count: bool,
    pub snap_to_grid: bool,
    pub show_fps: bool,
    /// The folder of the project that was open last.
    pub last_project: Option<String>,
    pub color_pallet: ColorPallet,
}

/// The settings as a plain value.
pub struct Settings {
    pub show_arrows: bool,
    pub show_grid: bool,
    pub show_connection_count: bool,
    pub snap_to_grid: bool,
    pub show_fps: bool,
    pub last_project: Option<Seq<char>>,
    pub color_pallet: Scheme,
}

impl View for Config {
    type V = Settings;

    open spec fn view(&self) -> Settings {
        Settings {
            show_arrows: self.show_arrows,
            show_grid: self.show_grid,
            show_connection_count: self.show_connection_count,
            snap_to_grid: self.snap_to_grid,
            show_fps: self.show_fps,
            last_project: match self.last_project {
                Some(path) => Some(path@),
                None => None,
            },
            color_pallet: self.color_pallet@,
        }
    }
}

impl Config {
    /// The settings of a first run: grid, snapping and connection counts on,
    /// wire arrows and the frame rate off, no project, the default colours.
    pub open spec fn initial() -> Settings {
        Settings {
            show_arrows: false,
            show_grid: true,
            show_connection_count: true,
            snap_to_grid: true,
            show_fps: false,
            last_project: None,
            color_pallet: ColorPallet::default_scheme(),
        }
    }
}

impl Default for Config {
    fn default() -> (config: Self)
        ensures
            config@ == Config::initial(),
    {
        Config {
            show_arrows: false,
            show_grid: true,
            show_connection_count: true,
            snap_to_grid: true,
            show_fps: false,
            last_project: None,
            color_pallet: ColorPallet::default_pallet(),
        }
    }
}

} // verus!
