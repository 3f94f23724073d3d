//! The folden client: its subcommands and the requests they send.

pub mod subcommand_utils;
pub mod subcommands;
