//! The manifest: the list of declared dependencies and their pins.

pub mod dependencies;
pub mod haxelib;
pub mod json;
pub mod record;
