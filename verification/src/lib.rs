//! A permissioned call-forwarding gateway.
//!
//! A caller asks the gateway to invoke a named function on a target account,
//! optionally attaching descriptive tags. The gateway checks the tags and the
//! target against its policy store (an allowlist of approved targets plus two
//! blanket flags), and decides whether to forward the call. Once the forwarded
//! call's outcome is known, it decides whether to emit an audit record built
//! from the tags.
//!
//! The host environment performs the actual asynchronous invocation, the
//! durable storage, and the caller-authorization check; this crate holds the
//! policy and coordination logic as pure, verified functions over plain
//! values.

pub mod tags;
pub mod audit;
pub mod policy;
pub mod forward;

pub use audit::audit_record;
pub use forward::{CallOutcome, ForwardAction, ForwardOutcome, PromiseDecision};
pub use policy::NearApps;
pub use tags::{ContractArgs, ContractArgsView, Tags, TagsView};
