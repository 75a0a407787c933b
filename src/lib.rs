//! Conversion of an editable sandbox configuration into the strict
//! configuration document consumed by a sandbox host.
pub mod model;
pub mod transform;
pub mod generate;

pub use generate::generate_config;
pub use model::{
    Configuration, ConfigurationIn, LogonCommand, MappedFolder, MappedFolderItemIn, Switch,
};
pub use transform::trans_mapped_folders;
