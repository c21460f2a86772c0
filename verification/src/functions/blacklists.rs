//! Blacklists that halt a command.
#![allow(non_snake_case)]
pub mod blackListRoles;
pub mod blackListServers;
pub mod blackListUsers;
