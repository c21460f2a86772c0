//! Functions that act in Discord.
#![allow(non_snake_case)]
pub mod replyIn;
