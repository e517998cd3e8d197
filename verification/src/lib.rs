//! Renders one declarative colour theme into the theme files of several
//! applications: palette resolution per variant, and one encoder per target.

pub mod color;
pub mod config;
pub mod cursor;
pub mod ghostty;
pub mod json;
pub mod neovim;
pub mod output;
pub mod resolve;
pub mod samples;
pub mod targets;
pub mod text;
pub mod website;
pub mod zed;
