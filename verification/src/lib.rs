//! Installer planning library: the verified core of an Arch Linux
//! installer. It holds the installer's state, the popup and screen
//! state machines, and the builders that turn the chosen settings into
//! the shell commands that partition, install and configure a system.
use vstd::prelude::*;

pub mod text;
pub mod sets;
pub mod types;
pub mod state;
pub mod popups;
pub mod commands;
pub mod partitioning;
pub mod sysconfig;
pub mod system;
pub mod usersetup;
pub mod catalog;
pub mod space;
pub mod screens;
pub mod views;
pub mod options;

verus! {

} // verus!
