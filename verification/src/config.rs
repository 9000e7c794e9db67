//! Persistence of configurations: what a configuration type offers so that
//! the file layer around this library can create, load, save and list its
//! instances. The file handling itself lives outside this crate.

use vstd::prelude::*;

verus! {

/// Creation, loading and saving of a named configuration.
pub trait ConfigIO where Self: core::marker::Sized {
    /// Creates a configuration with the default parameters under `name`.
    fn create_new(name: &str) -> Result<Self, String>;

    /// Loads the parameters of the existing configuration named `name`.
    fn create_from_existing(name: &str) -> Result<Self, String>;

    /// The name the configuration is kept under.
    fn get_config_name(&self) -> String;

    /// Saves the parameters under the configuration's name.
    fn save_parameters(&self) -> Result<(), String>;

    /// Reloads the parameters from the configuration's name.
    fn load_parameters(&mut self) -> Result<(), String>;

    /// The names of the configurations that exist.
    fn list_existing_configs() -> Result<Vec<String>, String>;
}

} // verus!
