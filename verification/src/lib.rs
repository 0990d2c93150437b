//! Platform-independent logic of an app that embeds the Bevy engine in a
//! native iOS or Android view: the registry of native views, the rules of
//! asset and meta file paths and the answers of the Android asset reader,
//! turning device tilt into arrow-key input, and the choice of
//! plugins for each platform.

pub mod app_views;
pub mod asset_io;
pub mod asset_path;
pub mod motion;
pub mod plugins;
pub mod view_maps;
