//! Resolution and installation of pull-request builds for a local game
//! install: locating a downloadable artifact for a pull request, checking
//! the download's HTTP status, extracting the archive, and planning the
//! file operations that place the build into the game directory.

pub mod download;
pub mod errors;
pub mod extract;
pub mod install;
pub mod launcher_apply;
pub mod locate;
pub mod model;
pub mod mods_apply;
pub mod pipeline;
pub mod strutil;
pub mod urls;
