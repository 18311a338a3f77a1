//! Keys of application framework attributes.

use vstd::prelude::*;

verus! {

pub const NAME: &'static str = "framework.name";
pub const VERSION: &'static str = "framework.version";
pub const TYPE: &'static str = "framework.type";
pub const OPERATION: &'static str = "framework.operation";
pub const COMPONENT: &'static str = "framework.component";
pub const METHOD: &'static str = "framework.method";
pub const ROUTE: &'static str = "framework.route";
pub const STATUS_CODE: &'static str = "framework.status_code";
pub const DURATION_MS: &'static str = "framework.duration_ms";
pub const ERROR: &'static str = "framework.error";
pub const ERROR_TYPE: &'static str = "framework.error_type";

} // verus!
