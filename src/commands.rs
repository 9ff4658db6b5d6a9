//! The plain option types of the command line's subcommands, and the id
//! helpers of the tunnel command.

pub mod containers;
pub mod link;
pub mod projects;
pub mod tokens;
pub mod tunnel;
