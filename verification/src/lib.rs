//! Core of a terminal git diff viewer with inline comments on the code.

pub mod actions;
pub mod app;
pub mod comments;
pub mod diff;
pub mod domain;
pub mod export;
pub mod highlight;
pub mod keys;
pub mod laws;
pub mod ports;
pub mod store;
pub mod text;
pub mod theme;
pub mod view;
