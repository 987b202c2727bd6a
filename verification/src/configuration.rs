//! The settings that are kept between runs.

use vstd::prelude::*;

use crate::supported_persistence::SupportedPersistence;

verus! {

/// The persisted settings: the backend in use and the task counter as it
/// stood when the settings were last saved.
#[derive(Clone, Copy, Debug, PartialEq, Eq, Structural)]
pub struct Configuration {
    pub persistence: SupportedPersistence,
    pub task_counter: usize,
}

impl Configuration {
    /// The settings of a first run: the CSV backend and a counter of 0.
    pub open spec fn initial() -> Configuration {
        Configuration { persistence: SupportedPersistence::CSV, task_counter: 0 }
    }

    /// The settings to run with and whether they are new, given what was
    /// found of earlier settings.
    pub open spec fn resolve(found: Option<Configuration>) -> (Configuration, bool) {
        match found {
            Some(configuration) => (configuration, false),
            None => (Self::initial(), true),
        }
    }

    /// Settings with the given backend and counter.
    pub fn new(persistence: SupportedPersistence, task_counter: usize) -> (res: Configuration)
        ensures
            res.persistence == persistence,
            res.task_counter == task_counter,
    {
        Configuration { persistence, task_counter }
    }

    /// Settles the settings of this run. Settings that were found are kept
    /// as they are. Where none were found, the settings of a first run are
    /// made, and the flag beside them is set: they have yet to be saved.
    pub fn load_or_create_configuration(found: Option<Configuration>) -> (res: (
        Configuration,
        bool,
    ))
        ensures
            res == Self::resolve(found),
    {
        match found {
            Some(configuration) => (configuration, false),
            None => (Configuration::new(SupportedPersistence::CSV, 0), true),
        }
    }
}

} // verus!
