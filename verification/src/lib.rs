//! Live-cloud wallpaper pipeline: the decisions behind fetching a mosaic of
//! cloud tiles, stitching it, and handing it to a planet renderer.
//!
//! Everything here is pure: network, file system and process work is carried
//! out by the caller, which feeds what happened back into the state machines
//! of this crate and performs the next action they ask for.

pub mod clouds;
pub mod grid;
pub mod mosaic;
pub mod power;
pub mod product;
pub mod raster;
pub mod request;
pub mod retry;
pub mod text;
pub mod xplanet;

pub mod workflow;

use vstd::prelude::*;

verus! {

/// Why a run ended without a new wallpaper.
#[derive(Clone, Copy, Debug, PartialEq, Eq, Structural)]
pub enum Down2EarthError {
    /// The battery is low and not charging.
    PowerStatusExit,
    /// The cloud map could not be downloaded.
    CloudDownloadError,
    /// The renderer could not be run.
    XPlanetError,
    /// The desktop refused the new wallpaper.
    SetWallpaperError,
}

} // verus!
