//! Named power-tuning presets: an ordered registry of presets, the argument
//! list that applies one through the power-control tool, and the tray menu
//! that mirrors the registry.

pub mod applier;
pub mod command;
pub mod commands;
pub mod decimal;
pub mod preset;
pub mod registry;
pub mod text;
pub mod tray;
