//! The settings of the SDK: defaults, builders, the environment variables that
//! override them, and validation.

use crate::error::{UntraceError, UntraceResult};
use crate::string_map::StringMap;
use crate::text::{
    parse_bool, parse_bool_spec, parse_u64, parse_unsigned, parse_usize, split_and_trim,
    split_trimmed, string_views,
};
use crate::types::{Float64, ONE_BITS};
use vstd::prelude::*;

verus! {

/// A span of time of whole seconds and nanoseconds.
#[derive(Clone, Copy, Debug, PartialEq, Eq, Hash)]
pub struct Interval {
    secs: u64,
    nanos: u32,
}

impl Interval {
    #[verifier::type_invariant]
    spec fn inv(&self) -> bool {
        self.nanos < 1_000_000_000
    }

    /// The whole seconds.
    pub closed spec fn spec_secs(&self) -> u64 {
        self.secs
    }

    /// The nanoseconds beyond the whole seconds.
    pub closed spec fn spec_nanos(&self) -> u32 {
        self.nanos
    }

    /// Whether the span is empty.
    pub open spec fn spec_is_zero(&self) -> bool {
        self.spec_secs() == 0 && self.spec_nanos() == 0
    }

    /// A span of whole seconds.
    pub fn from_secs(secs: u64) -> (r: Interval)
        ensures
            r.spec_secs() == secs,
            r.spec_nanos() == 0,
    {
        Interval { secs, nanos: 0 }
    }

    /// A span of seconds and nanoseconds.
    pub fn new(secs: u64, nanos: u32) -> (r: Interval)
        requires
            nanos < 1_000_000_000,
        ensures
            r.spec_secs() == secs,
            r.spec_nanos() == nanos,
    {
        Interval { secs, nanos }
    }

    /// The whole seconds.
    pub fn as_secs(&self) -> (r: u64)
        ensures
            r == self.spec_secs(),
    {
        self.secs
    }

    /// The nanoseconds beyond the whole seconds.
    pub fn subsec_nanos(&self) -> (r: u32)
        ensures
            r == self.spec_nanos(),
            r < 1_000_000_000,
    {
        proof {
            use_type_invariant(self);
        }
        self.nanos
    }

    /// Whether the span is empty.
    pub fn is_zero(&self) -> (r: bool)
        ensures
            r == self.spec_is_zero(),
    {
        self.secs == 0 && self.nanos == 0
    }
}

pub const ENV_API_KEY: &'static str = "UNTRACE_API_KEY";
pub const ENV_BASE_URL: &'static str = "UNTRACE_BASE_URL";
pub const ENV_SERVICE_NAME: &'static str = "UNTRACE_SERVICE_NAME";
pub const ENV_SERVICE_VERSION: &'static str = "UNTRACE_SERVICE_VERSION";
pub const ENV_ENVIRONMENT: &'static str = "UNTRACE_ENVIRONMENT";
pub const ENV_DEBUG: &'static str = "UNTRACE_DEBUG";
pub const ENV_SAMPLING_RATE: &'static str = "UNTRACE_SAMPLING_RATE";
pub const ENV_MAX_BATCH_SIZE: &'static str = "UNTRACE_MAX_BATCH_SIZE";
pub const ENV_EXPORT_INTERVAL: &'static str = "UNTRACE_EXPORT_INTERVAL";
pub const ENV_CAPTURE_BODY: &'static str = "UNTRACE_CAPTURE_BODY";
pub const ENV_CAPTURE_ERRORS: &'static str = "UNTRACE_CAPTURE_ERRORS";
pub const ENV_DISABLE_AUTO_INSTRUMENTATION: &'static str = "UNTRACE_DISABLE_AUTO_INSTRUMENTATION";
pub const ENV_PROVIDERS: &'static str = "UNTRACE_PROVIDERS";

/// The names of the environment variables that the configuration reads.
pub const ENV_VARIABLES: [&'static str; 13] = [
    ENV_API_KEY,
    ENV_BASE_URL,
    ENV_SERVICE_NAME,
    ENV_SERVICE_VERSION,
    ENV_ENVIRONMENT,
    ENV_DEBUG,
    ENV_SAMPLING_RATE,
    ENV_MAX_BATCH_SIZE,
    ENV_EXPORT_INTERVAL,
    ENV_CAPTURE_BODY,
    ENV_CAPTURE_ERRORS,
    ENV_DISABLE_AUTO_INSTRUMENTATION,
    ENV_PROVIDERS,
];

pub const DEFAULT_MAX_BATCH_SIZE: usize = 512;
pub const DEFAULT_EXPORT_INTERVAL_SECS: u64 = 5;

/// The settings of the SDK.
#[derive(Debug, Clone)]
pub struct Config {
    /// API key for authentication.
    pub api_key: String,
    /// Base URL of the API.
    pub base_url: String,
    /// Name of the reporting service.
    pub service_name: String,
    /// Version of the reporting service.
    pub service_version: String,
    /// Deployment environment, such as "production".
    pub environment: String,
    /// Whether debug logging is on.
    pub debug: bool,
    /// Fraction of traces kept, from 0.0 to 1.0.
    pub sampling_rate: Float64,
    /// Largest number of spans in one export.
    pub max_batch_size: usize,
    /// Time between exports.
    pub export_interval: Interval,
    /// Headers added to requests.
    pub headers: StringMap,
    /// Attributes of the reporting resource.
    pub resource_attributes: StringMap,
    /// Whether request and response bodies are captured.
    pub capture_body: bool,
    /// Whether errors are captured.
    pub capture_errors: bool,
    /// Whether automatic instrumentation is off.
    pub disable_auto_instrumentation: bool,
    /// Providers to instrument.
    pub providers: Vec<String>,
}

/// The settings of a configuration built from an API key alone.
pub open spec fn is_default_config(c: Config, api_key: Seq<char>) -> bool {
    &&& c.api_key@ == api_key
    &&& c.base_url@ == "https://untrace.dev"@
    &&& c.service_name@ == "untrace-app"@
    &&& c.service_version@ == "0.1.0"@
    &&& c.environment@ == "production"@
    &&& !c.debug
    &&& c.sampling_rate.bits == ONE_BITS
    &&& c.max_batch_size == DEFAULT_MAX_BATCH_SIZE
    &&& c.export_interval.spec_secs() == DEFAULT_EXPORT_INTERVAL_SECS
    &&& c.export_interval.spec_nanos() == 0
    &&& c.headers@ == Map::<Seq<char>, Seq<char>>::empty()
    &&& c.resource_attributes@ == Map::<Seq<char>, Seq<char>>::empty()
    &&& c.capture_body
    &&& c.capture_errors
    &&& !c.disable_auto_instrumentation
    &&& string_views(c.providers@) == seq!["all"@]
}

/// A text setting: the variable's value when it is set, else the default.
pub open spec fn env_text(vars: Map<Seq<char>, Seq<char>>, name: Seq<char>, default: Seq<char>) -> Seq<
    char,
> {
    if vars.contains_key(name) {
        vars[name]
    } else {
        default
    }
}

/// A boolean setting: the variable read as `true` or `false`, else the default.
pub open spec fn env_flag(vars: Map<Seq<char>, Seq<char>>, name: Seq<char>, default: bool) -> bool {
    if vars.contains_key(name) {
        match parse_bool_spec(vars[name]) {
            Some(b) => b,
            None => default,
        }
    } else {
        default
    }
}

/// A number setting: the variable read as an unsigned decimal of at most `max`,
/// else the default.
pub open spec fn env_number(
    vars: Map<Seq<char>, Seq<char>>,
    name: Seq<char>,
    max: int,
    default: int,
) -> int {
    if vars.contains_key(name) {
        match parse_unsigned(vars[name], max) {
            Some(v) => v,
            None => default,
        }
    } else {
        default
    }
}

/// The configuration that the environment `vars` gives, where `rate` is the
/// value of `UNTRACE_SAMPLING_RATE` read as a number, if it could be.
pub open spec fn is_env_config(c: Config, vars: Map<Seq<char>, Seq<char>>, rate: Option<Float64>) -> bool {
    &&& c.api_key@ == vars["UNTRACE_API_KEY"@]
    &&& c.base_url@ == env_text(vars, "UNTRACE_BASE_URL"@, "https://untrace.dev"@)
    &&& c.service_name@ == env_text(vars, "UNTRACE_SERVICE_NAME"@, "untrace-app"@)
    &&& c.service_version@ == env_text(vars, "UNTRACE_SERVICE_VERSION"@, "0.1.0"@)
    &&& c.environment@ == env_text(vars, "UNTRACE_ENVIRONMENT"@, "production"@)
    &&& c.debug == env_flag(vars, "UNTRACE_DEBUG"@, false)
    &&& c.sampling_rate == (if vars.contains_key("UNTRACE_SAMPLING_RATE"@) && rate is Some {
        rate.unwrap()
    } else {
        Float64 { bits: ONE_BITS }
    })
    &&& c.max_batch_size == env_number(
        vars,
        "UNTRACE_MAX_BATCH_SIZE"@,
        usize::MAX as int,
        DEFAULT_MAX_BATCH_SIZE as int,
    )
    &&& c.export_interval.spec_secs() == env_number(
        vars,
        "UNTRACE_EXPORT_INTERVAL"@,
        u64::MAX as int,
        DEFAULT_EXPORT_INTERVAL_SECS as int,
    )
    &&& c.export_interval.spec_nanos() == 0
    &&& c.headers@ == Map::<Seq<char>, Seq<char>>::empty()
    &&& c.resource_attributes@ == Map::<Seq<char>, Seq<char>>::empty()
    &&& c.capture_body == env_flag(vars, "UNTRACE_CAPTURE_BODY"@, true)
    &&& c.capture_errors == env_flag(vars, "UNTRACE_CAPTURE_ERRORS"@, true)
    &&& c.disable_auto_instrumentation == env_flag(
        vars,
        "UNTRACE_DISABLE_AUTO_INSTRUMENTATION"@,
        false,
    )
    &&& string_views(c.providers@) == (if vars.contains_key("UNTRACE_PROVIDERS"@) {
        split_trimmed(vars["UNTRACE_PROVIDERS"@])
    } else {
        seq!["all"@]
    })
}

/// The message of the first validation rule that the configuration breaks.
pub open spec fn validation_failure(c: Config) -> Option<Seq<char>> {
    if c.api_key@.len() == 0 {
        Some("API key cannot be empty"@)
    } else if !c.sampling_rate.spec_in_unit_interval() {
        Some("Sampling rate must be between 0.0 and 1.0"@)
    } else if c.max_batch_size == 0 {
        Some("Max batch size must be greater than 0"@)
    } else if c.export_interval.spec_is_zero() {
        Some("Export interval must be greater than 0"@)
    } else {
        None
    }
}

/// The configuration meets every validation rule.
pub open spec fn is_valid_config(c: Config) -> bool {
    &&& c.api_key@.len() > 0
    &&& c.sampling_rate.spec_in_unit_interval()
    &&& c.max_batch_size > 0
    &&& !c.export_interval.spec_is_zero()
}

/// The value of a text setting.
fn text_setting(vars: &StringMap, name: &str, current: String) -> (r: String)
    ensures
        r@ == env_text(vars@, name@, current@),
{
    match vars.get(name) {
        Some(v) => v.clone(),
        None => current,
    }
}

/// The value of a boolean setting.
fn flag_setting(vars: &StringMap, name: &str, default: bool) -> (r: bool)
    ensures
        r == env_flag(vars@, name@, default),
{
    match vars.get(name) {
        Some(v) => match parse_bool(v.as_str()) {
            Some(b) => b,
            None => default,
        },
        None => default,
    }
}

impl Config {
    /// A configuration with the given API key and default settings.
    pub fn new(api_key: String) -> (r: Config)
        ensures
            is_default_config(r, api_key@),
    {
        let mut providers: Vec<String> = Vec::new();
        providers.push("all".to_owned());
        let r = Config {
            api_key,
            base_url: "https://untrace.dev".to_owned(),
            service_name: "untrace-app".to_owned(),
            service_version: "0.1.0".to_owned(),
            environment: "production".to_owned(),
            debug: false,
            sampling_rate: Float64::one(),
            max_batch_size: DEFAULT_MAX_BATCH_SIZE,
            export_interval: Interval::from_secs(DEFAULT_EXPORT_INTERVAL_SECS),
            headers: StringMap::new(),
            resource_attributes: StringMap::new(),
            capture_body: true,
            capture_errors: true,
            disable_auto_instrumentation: false,
            providers,
        };
        assert(string_views(r.providers@) =~= seq!["all"@]);
        r
    }

    /// The configuration that the environment variables `vars` give: each set
    /// variable overrides its setting, an unreadable value falls back to the
    /// default, and `UNTRACE_API_KEY` must be set. `sampling_rate` is the
    /// value of `UNTRACE_SAMPLING_RATE` read as a number, `None` where it is
    /// not one.
    pub fn from_env(vars: &StringMap, sampling_rate: Option<Float64>) -> (r: UntraceResult<Config>)
        ensures
            vars@.contains_key("UNTRACE_API_KEY"@) <==> r is Ok,
            r is Ok ==> is_env_config(r->Ok_0, vars@, sampling_rate),
            r is Err ==> r->Err_0 is Config && r->Err_0.spec_message()
                == "UNTRACE_API_KEY environment variable is required"@,
    {
        let api_key = match vars.get(ENV_API_KEY) {
            Some(k) => k.clone(),
            None => {
                return Err(
                    UntraceError::config("UNTRACE_API_KEY environment variable is required"),
                );
            },
        };
        let mut config = Config::new(api_key);
        config.base_url = text_setting(vars, ENV_BASE_URL, config.base_url);
        config.service_name = text_setting(vars, ENV_SERVICE_NAME, config.service_name);
        config.service_version = text_setting(vars, ENV_SERVICE_VERSION, config.service_version);
        config.environment = text_setting(vars, ENV_ENVIRONMENT, config.environment);
        config.debug = flag_setting(vars, ENV_DEBUG, false);
        if vars.contains_key(ENV_SAMPLING_RATE) {
            config.sampling_rate = match sampling_rate {
                Some(rate) => rate,
                None => Float64::one(),
            };
        }
        if let Some(v) = vars.get(ENV_MAX_BATCH_SIZE) {
            config.max_batch_size = match parse_usize(v.as_str()) {
                Some(n) => n,
                None => DEFAULT_MAX_BATCH_SIZE,
            };
        }
        if let Some(v) = vars.get(ENV_EXPORT_INTERVAL) {
            let secs = match parse_u64(v.as_str()) {
                Some(n) => n,
                None => DEFAULT_EXPORT_INTERVAL_SECS,
            };
            config.export_interval = Interval::from_secs(secs);
        }
        config.capture_body = flag_setting(vars, ENV_CAPTURE_BODY, true);
        config.capture_errors = flag_setting(vars, ENV_CAPTURE_ERRORS, true);
        config.disable_auto_instrumentation = flag_setting(
            vars,
            ENV_DISABLE_AUTO_INSTRUMENTATION,
            false,
        );
        if let Some(v) = vars.get(ENV_PROVIDERS) {
            config.providers = split_and_trim(v.as_str());
        }
        Ok(config)
    }

    /// Checks the validation rules in order and reports the first one broken.
    pub fn validate(&self) -> (r: UntraceResult<()>)
        ensures
            r is Ok <==> validation_failure(*self) is None,
            r is Ok <==> is_valid_config(*self),
            r is Err ==> r->Err_0 is Validation && Some(r->Err_0.spec_message())
                == validation_failure(*self),
    {
        if self.api_key.as_str().is_empty() {
            return Err(UntraceError::validation("API key cannot be empty"));
        }
        if !self.sampling_rate.in_unit_interval() {
            return Err(UntraceError::validation("Sampling rate must be between 0.0 and 1.0"));
        }
        if self.max_batch_size == 0 {
            return Err(UntraceError::validation("Max batch size must be greater than 0"));
        }
        if self.export_interval.is_zero() {
            return Err(UntraceError::validation("Export interval must be greater than 0"));
        }
        Ok(())
    }

    /// The configuration with another service name.
    pub fn with_service_name(self, service_name: String) -> (r: Config)
        ensures
            r == (Config { service_name, ..self }),
    {
        Config { service_name, ..self }
    }

    /// The configuration with another service version.
    pub fn with_service_version(self, service_version: String) -> (r: Config)
        ensures
            r == (Config { service_version, ..self }),
    {
        Config { service_version, ..self }
    }

    /// The configuration with another environment.
    pub fn with_environment(self, environment: String) -> (r: Config)
        ensures
            r == (Config { environment, ..self }),
    {
        Config { environment, ..self }
    }

    /// The configuration with debug logging on or off.
    pub fn with_debug(self, debug: bool) -> (r: Config)
        ensures
            r == (Config { debug, ..self }),
    {
        Config { debug, ..self }
    }

    /// The configuration with another sampling rate.
    pub fn with_sampling_rate(self, sampling_rate: Float64) -> (r: Config)
        ensures
            r == (Config { sampling_rate, ..self }),
    {
        Config { sampling_rate, ..self }
    }

    /// The configuration with another base URL.
    pub fn with_base_url(self, base_url: String) -> (r: Config)
        ensures
            r == (Config { base_url, ..self }),
    {
        Config { base_url, ..self }
    }

    /// The configuration with one more header, or a header replaced.
    pub fn with_header(self, key: String, value: String) -> (r: Config)
        ensures
            r.headers@ == self.headers@.insert(key@, value@),
            (Config { headers: self.headers, ..r }) == self,
    {
        let mut config = self;
        config.headers.insert(key, value);
        config
    }

    /// The configuration with one more resource attribute, or one replaced.
    pub fn with_resource_attribute(self, key: String, value: String) -> (r: Config)
        ensures
            r.resource_attributes@ == self.resource_attributes@.insert(key@, value@),
            (Config { resource_attributes: self.resource_attributes, ..r }) == self,
    {
        let mut config = self;
        config.resource_attributes.insert(key, value);
        config
    }

    /// The configuration with another list of providers.
    pub fn with_providers(self, providers: Vec<String>) -> (r: Config)
        ensures
            r == (Config { providers, ..self }),
    {
        Config { providers, ..self }
    }
}

/// Validation succeeds on every configuration with a non-empty API key, a
/// sampling rate from 0.0 to 1.0, a positive batch size and a non-zero export
/// interval.
pub proof fn lemma_valid_settings_pass(c: Config)
    requires
        c.api_key@.len() > 0,
        c.sampling_rate.spec_in_unit_interval(),
        c.max_batch_size > 0,
        !c.export_interval.spec_is_zero(),
    ensures
        validation_failure(c) is None,
{
}

/// An empty API key fails validation with the API key message.
pub proof fn lemma_empty_api_key_fails(c: Config)
    requires
        c.api_key@.len() == 0,
    ensures
        validation_failure(c) == Some("API key cannot be empty"@),
{
}

/// A set `UNTRACE_SAMPLING_RATE` gives the rate it reads as, and one that does
/// not read as a number gives 1.0 rather than an error.
pub proof fn lemma_env_sampling_rate(c: Config, vars: Map<Seq<char>, Seq<char>>, rate: Option<Float64>)
    requires
        is_env_config(c, vars, rate),
        vars.contains_key("UNTRACE_SAMPLING_RATE"@),
    ensures
        rate is Some ==> c.sampling_rate == rate.unwrap(),
        rate is None ==> c.sampling_rate.bits == ONE_BITS,
{
}

} // verus!
