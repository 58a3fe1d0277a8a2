//! Core of a desktop status bar: the animated-value engine that drives every
//! visual transition, and the layer that turns what a compositor reports into
//! one consistent list of workspaces.

pub mod animation;
pub mod bar;
pub mod config;
pub mod desktop_environment;
pub mod message;
pub mod sections;
