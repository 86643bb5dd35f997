#![allow(non_upper_case_globals)]

pub mod ghostty;
pub mod keys;
pub mod grid;
pub mod render;
pub mod strings;
pub mod effects;
pub mod logs;
pub mod pty;
pub mod resources;
