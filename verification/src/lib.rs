use vstd::prelude::*;

pub mod bot_plugins;
pub mod bundles;
pub mod commands;
pub mod discord;
pub mod error;
pub mod fluent_plugin;
pub mod fmt;
pub mod framework;
pub mod laws;
pub mod lifecycle;
pub mod locale;
pub mod notices;
pub mod numbers;
pub mod pages;
pub mod plugins;
pub mod poise;
pub mod query;
pub mod schema;
pub mod sql;
pub mod statement_laws;
pub mod state;
pub mod statements;
pub mod sync;
pub mod steam_api;
pub mod steam_cmd;
pub mod steam_data;

verus! {
} // verus!
