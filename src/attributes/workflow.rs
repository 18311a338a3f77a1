//! Keys of workflow attributes.

use vstd::prelude::*;

verus! {

pub const ID: &'static str = "workflow.id";
pub const NAME: &'static str = "workflow.name";
pub const RUN_ID: &'static str = "workflow.run_id";
pub const USER_ID: &'static str = "workflow.user_id";
pub const SESSION_ID: &'static str = "workflow.session_id";
pub const VERSION: &'static str = "workflow.version";
pub const PARENT_ID: &'static str = "workflow.parent_id";
pub const STATUS: &'static str = "workflow.status";
pub const DURATION_MS: &'static str = "workflow.duration_ms";
pub const ERROR: &'static str = "workflow.error";
pub const ERROR_TYPE: &'static str = "workflow.error_type";
pub const METADATA: &'static str = "workflow.metadata";

} // verus!
