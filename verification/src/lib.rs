//! The core of the bot: the private voice rooms with their permission
//! overlays, timer wheel, lifecycle actor and control panel, and beside them
//! the plain records, role tables and command tables of the other features.

pub mod commands;
pub mod database;
pub mod guild;
pub mod interactions;
pub mod lob;
pub mod overlay;
pub mod panel;
pub mod permissions;
pub mod presence;
pub mod private_vc;
mod random;
pub mod ranks;
pub mod replies;
pub mod roles;
pub mod standby;
pub mod store;
pub mod structs;
pub mod task;
pub mod text;
pub mod timer;
