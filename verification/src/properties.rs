//! The resolved project configuration read from the project's config file,
//! and the generator handle the scaffolding commands are driven through.

use vstd::prelude::*;

verus! {

/// The four choices a project is scaffolded with: implementation language,
/// database, routing style and API flavour.
#[derive(Clone, Debug)]
pub struct DefaultConfig {
    pub language: String,
    pub database: String,
    pub routing: String,
    pub api: String,
}

impl DefaultConfig {
    /// A copy of the given configuration, field for field.
    pub fn new(config: DefaultConfig) -> (c: Self)
        ensures
            c.language@ == config.language@,
            c.database@ == config.database@,
            c.routing@ == config.routing@,
            c.api@ == config.api@,
    {
        DefaultConfig {
            language: config.language.clone(),
            database: config.database.clone(),
            routing: config.routing.clone(),
            api: config.api.clone(),
        }
    }
}

/// Drives file generation for one project; it carries the resolved project
/// configuration and hands it to each generation step.
#[derive(Clone, Debug)]
pub struct Generator {
    config: DefaultConfig,
}

impl Generator {
    /// The configuration this generator was built with.
    pub closed spec fn spec_config(&self) -> DefaultConfig {
        self.config
    }

    /// A generator for the given project configuration.
    pub fn new(config: DefaultConfig) -> (g: Self)
        ensures
            g.spec_config() == config,
    {
        Generator { config }
    }

    /// The configuration this generator was built with.
    pub fn config(&self) -> (r: &DefaultConfig)
        ensures
            r == self.spec_config(),
    {
        &self.config
    }
}

} // verus!
