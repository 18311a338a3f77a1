//! The switch of automatic instrumentation and its settings.

use crate::error::UntraceResult;
use crate::types::InstrumentationConfig;
use vstd::prelude::*;

verus! {

/// Automatic instrumentation: its settings and whether it is on.
#[derive(Debug, Clone)]
pub struct Instrumentation {
    config: InstrumentationConfig,
    enabled: bool,
}

impl Instrumentation {
    /// The settings.
    pub closed spec fn spec_config(&self) -> InstrumentationConfig {
        self.config
    }

    /// Whether instrumentation is on.
    pub closed spec fn spec_enabled(&self) -> bool {
        self.enabled
    }

    /// Instrumentation with the given settings, switched off.
    pub fn new(config: InstrumentationConfig) -> (r: Instrumentation)
        ensures
            r.spec_config() == config,
            !r.spec_enabled(),
    {
        Instrumentation { config, enabled: false }
    }

    /// Switches instrumentation on; switching it on again changes nothing.
    pub fn enable(&mut self) -> (r: UntraceResult<()>)
        ensures
            r is Ok,
            final(self).spec_enabled(),
            final(self).spec_config() == old(self).spec_config(),
    {
        self.enabled = true;
        Ok(())
    }

    /// Switches instrumentation off; switching it off again changes nothing.
    pub fn disable(&mut self) -> (r: UntraceResult<()>)
        ensures
            r is Ok,
            !final(self).spec_enabled(),
            final(self).spec_config() == old(self).spec_config(),
    {
        self.enabled = false;
        Ok(())
    }

    /// Whether instrumentation is on.
    pub fn is_enabled(&self) -> (r: bool)
        ensures
            r == self.spec_enabled(),
    {
        self.enabled
    }

    /// The settings.
    pub fn config(&self) -> (r: &InstrumentationConfig)
        ensures
            *r == self.spec_config(),
    {
        &self.config
    }

    /// Replaces the settings.
    pub fn update_config(&mut self, config: InstrumentationConfig)
        ensures
            final(self).spec_config() == config,
            final(self).spec_enabled() == old(self).spec_enabled(),
    {
        self.config = config;
    }
}

/// Instrumentation with default settings, switched off.
pub fn new_instrumentation() -> (r: Instrumentation)
    ensures
        !r.spec_enabled(),
        r.spec_config().providers@.len() == 0,
        r.spec_config().auto_instrument,
        r.spec_config().capture_body,
        r.spec_config().capture_errors,
{
    Instrumentation::new(InstrumentationConfig::default())
}

} // verus!
