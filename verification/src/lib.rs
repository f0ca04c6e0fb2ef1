//! A dependency manager for Haxe projects: the manifest model, the inspection of what is
//! installed under `.haxelib`, and the decisions that bring the two together.
//!
//! Nothing here touches the disk or the network. A caller gathers what it observes as plain
//! values, hands them in, and carries out the plans that come back.

pub mod commands;
pub mod hmm;
pub mod text;
