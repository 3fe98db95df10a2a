//! The pure parts of the server's tools.

pub mod read_env;
pub mod cargo_test;
pub mod cargo_build;
pub mod cargo_check;
pub mod file_stats;
pub mod markdown_query;
pub mod grep;
pub mod file_read;
pub mod json_query;
pub mod migration_list;
pub mod health;
pub mod sqlite_query;
pub mod system_info;
pub mod sqlite_schema;
pub mod find_files;
pub mod just_run;
pub mod check_command;
pub mod grep_project;
pub mod hello;
pub mod list_dir;
pub mod workspace_info;
pub mod read_toml;
pub mod schemas;
