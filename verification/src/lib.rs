//! A terminal cherry-blossom screensaver's logic: command-line settings,
//! keyboard controls, terrain and tree geometry, seasonal palettes, star
//! and weather bookkeeping. Everything here is integer, character and
//! string logic; the floating-point animation lives in the binary.

pub mod config;
pub mod text;
pub mod terrain;
pub mod tree;
pub mod palette;
pub mod shading;
pub mod calendar;
pub mod controls;
pub mod layout;
pub mod weather;
pub mod random;
pub mod stars;
pub mod physics;
pub mod scene;
pub mod art;
pub mod json;
