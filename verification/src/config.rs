//! Application configuration.
//!
//! Plain configuration values, as the platform side hands them in after
//! reading and parsing whatever file or source it uses: the runtime itself
//! performs no input or output.

use vstd::prelude::*;

verus! {

/// Configured directories.
#[derive(Debug, Clone)]
pub struct Paths {
    /// Where texture assets live, if configured.
    pub texture_dir: Option<String>,
}

/// The application configuration.
#[derive(Debug, Clone)]
pub struct Config {
    /// The configured directories, if any were given.
    pub paths: Option<Paths>,
}

impl Config {
    /// The configured texture directory. Asking a configuration without a
    /// `paths` table is a caller error, so it is ruled out here.
    pub fn get_texture_dir(&self) -> (r: Option<String>)
        requires
            self.paths is Some,
        ensures
            match self.paths {
                Some(p) => r == p.texture_dir,
                None => false,
            },
    {
        match &self.paths {
            Some(p) => match &p.texture_dir {
                Some(dir) => Some(dir.clone()),
                None => None,
            },
            None => None,
        }
    }
}

/// Owns the application configuration and lends it out.
pub struct ConfigContainer {
    config: Config,
}

impl ConfigContainer {
    /// The held configuration.
    pub closed spec fn spec_config(&self) -> Config {
        self.config
    }

    /// Wraps an already parsed configuration.
    pub fn new(config: Config) -> (c: ConfigContainer)
        ensures
            c.spec_config() == config,
    {
        ConfigContainer { config }
    }

    /// The held configuration.
    pub fn get_config(&self) -> (r: &Config)
        ensures
            *r == self.spec_config(),
    {
        &self.config
    }
}

} // verus!
