//! Functions about the bot itself.
#![allow(non_snake_case)]
pub mod commandName;
pub mod currentShard;
pub mod totalShards;
pub mod enabled;
pub mod uptime;
pub mod serverCount;
pub mod serverNames;
pub mod allMembersCount;
pub mod botOwnerID;
pub mod botTyping;
pub mod slashID;
pub mod botCommands;
pub mod commandsCount;
pub mod slashCommandsCount;
