pub mod error;
pub mod paths;
pub mod blocks;
pub mod decode;
pub mod variable_resolver;
pub mod directories;
pub mod config_type_descriptor;
pub mod filesystem;
pub mod utils;
pub mod labeled_storage;
pub mod config_type_storage;
pub mod config_storage;
pub mod cli;
