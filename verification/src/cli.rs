use vstd::prelude::*;

verus! {

/// The command that stores the live files of a config type under a label.
#[derive(Debug)]
pub struct StoreParams {
    pub config_type_name: String,
    pub label: String,
}

/// The command that loads the files of a label of a config type.
#[derive(Debug)]
pub struct LoadParams {
    pub config_type_name: String,
    pub label: String,
}

/// The command that lists the labels of a config type, or the config types where none
/// is named.
#[derive(Debug)]
pub struct ListParams {
    pub config_type_name: Option<String>,
}

/// The command that creates a config type.
#[derive(Debug)]
pub struct CreateTypeParams {
    pub config_type_name: String,
}

/// A command of the front end.
#[derive(Debug)]
pub enum Cli {
    Store(StoreParams),
    Load(LoadParams),
    List(ListParams),
    CreateType(CreateTypeParams),
}

} // verus!
