//! The parts of an initialized SDK that do not depend on the telemetry
//! backend: the validated configuration, the resource attributes, the
//! instrumentation switch and the provider registry.

use crate::attributes::{
    attribute_views, entry_attributes, helpers, push_attribute, push_entry_attributes,
    Attribute, ValueModel,
};
use crate::config::{is_valid_config, validation_failure, Config};
use crate::error::UntraceResult;
use crate::instrumentation::Instrumentation;
use crate::provider::{default_provider_entries, register_default_providers, ProviderRegistry};
use crate::string_map::map_of;
use crate::types::InstrumentationConfig;
use vstd::prelude::*;

verus! {

/// The attributes of the reporting resource: service name, version and
/// environment, then the configured resource attributes.
pub open spec fn resource_attribute_model(c: Config) -> Seq<(Seq<char>, ValueModel)> {
    seq![
        ("service.name"@, ValueModel::Str(c.service_name@)),
        ("service.version"@, ValueModel::Str(c.service_version@)),
        ("service.environment"@, ValueModel::Str(c.environment@)),
    ] + entry_attributes(c.resource_attributes.spec_entries())
}

/// The attributes of the reporting resource.
pub fn resource_attributes(config: &Config) -> (r: Vec<Attribute>)
    ensures
        attribute_views(r@) == resource_attribute_model(*config),
{
    let mut out: Vec<Attribute> = Vec::new();
    push_attribute(&mut out, helpers::string("service.name", config.service_name.as_str()));
    push_attribute(&mut out, helpers::string("service.version", config.service_version.as_str()));
    push_attribute(
        &mut out,
        helpers::string("service.environment", config.environment.as_str()),
    );
    assert(attribute_views(out@) =~= seq![
        ("service.name"@, ValueModel::Str(config.service_name@)),
        ("service.version"@, ValueModel::Str(config.service_version@)),
        ("service.environment"@, ValueModel::Str(config.environment@)),
    ]);
    push_entry_attributes(&mut out, &config.resource_attributes);
    out
}

/// The backend-independent state of an initialized SDK.
#[derive(Debug, Clone)]
pub struct UntraceCore {
    config: Config,
    resource_attributes: Vec<Attribute>,
    instrumentation: Instrumentation,
    provider_registry: ProviderRegistry,
}

impl UntraceCore {
    pub closed spec fn spec_config(&self) -> Config {
        self.config
    }

    pub closed spec fn spec_resource_attributes(&self) -> Seq<Attribute> {
        self.resource_attributes@
    }

    pub closed spec fn spec_instrumentation(&self) -> Instrumentation {
        self.instrumentation
    }

    pub closed spec fn spec_provider_registry(&self) -> ProviderRegistry {
        self.provider_registry
    }

    /// Validates the configuration and builds the state: resource attributes,
    /// a registry holding the default providers, and instrumentation with
    /// default settings, switched on unless the configuration turns automatic
    /// instrumentation off.
    pub fn new(config: Config) -> (r: UntraceResult<UntraceCore>)
        ensures
            r is Ok <==> is_valid_config(config),
            r is Err ==> r->Err_0 is Validation && Some(r->Err_0.spec_message())
                == validation_failure(config),
            r is Ok ==> {
                let core = r->Ok_0;
                &&& core.spec_config() == config
                &&& attribute_views(core.spec_resource_attributes())
                    == crate::untrace::resource_attribute_model(config)
                &&& core.spec_instrumentation().spec_enabled()
                    == !config.disable_auto_instrumentation
                &&& core.spec_instrumentation().spec_config().providers@.len() == 0
                &&& core.spec_instrumentation().spec_config().auto_instrument
                &&& core.spec_instrumentation().spec_config().capture_body
                &&& core.spec_instrumentation().spec_config().capture_errors
                &&& core.spec_provider_registry()@ == map_of(default_provider_entries())
            },
    {
        match config.validate() {
            Ok(()) => {},
            Err(e) => {
                return Err(e);
            },
        }
        let resource_attributes = resource_attributes(&config);
        let mut instrumentation = Instrumentation::new(InstrumentationConfig::default());
        let mut provider_registry = ProviderRegistry::new();
        register_default_providers(&mut provider_registry);
        assert(provider_registry@ =~= map_of(default_provider_entries()));
        if !config.disable_auto_instrumentation {
            let _ = instrumentation.enable();
        }
        Ok(UntraceCore { config, resource_attributes, instrumentation, provider_registry })
    }

    /// The configuration.
    pub fn config(&self) -> (r: &Config)
        ensures
            *r == self.spec_config(),
    {
        &self.config
    }

    /// The attributes of the reporting resource.
    pub fn resource_attributes(&self) -> (r: &Vec<Attribute>)
        ensures
            r@ == self.spec_resource_attributes(),
    {
        &self.resource_attributes
    }

    /// The instrumentation switch.
    pub fn instrumentation(&self) -> (r: &Instrumentation)
        ensures
            *r == self.spec_instrumentation(),
    {
        &self.instrumentation
    }

    /// The provider registry.
    pub fn provider_registry(&self) -> (r: &ProviderRegistry)
        ensures
            *r == self.spec_provider_registry(),
    {
        &self.provider_registry
    }
}

} // verus!
