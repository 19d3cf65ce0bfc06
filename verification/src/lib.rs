//! Menu generation for group events.
//!
//! Team and league events, each with optional tips, are turned into one
//! nested menu document: team events are split by a level threshold, every
//! event's tips become an inline macro list, each event is rendered through a
//! sub-menu template, and the rendered blocks are bound into a top-level
//! template.

pub mod category;
pub mod composer;
pub mod config;
pub mod context;
pub mod error;
pub mod event;
pub mod json;
pub mod load;
pub mod order;
pub mod partition;
pub mod record;
pub mod render;
pub mod tip_macro;
pub mod tip_menu;
