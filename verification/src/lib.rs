//! Runtime override layer for the Skyrim skill uncapper.
//!
//! The INI file gives the baseline configuration; the overrides kept here are
//! temporary values requested at run time, and clearing them falls back to
//! the baseline.

#![allow(non_snake_case)]

pub mod breakpoints;
pub mod ini;
pub mod laws;
pub mod legendary;
pub mod mcm_api;
pub mod runtime_settings;
pub mod skills;
pub mod tables;
