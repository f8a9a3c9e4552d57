pub mod app_store;
pub mod config;
pub mod database;
pub mod db_commands;
pub mod exchange;
pub mod laws;
pub mod resolver;
