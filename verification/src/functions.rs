//! The logic of ZBR's built-in functions.
#![allow(non_snake_case)]
pub mod automod;
pub mod blacklists;
pub mod ai;
pub mod audit;
pub mod bot;
pub mod actions;
