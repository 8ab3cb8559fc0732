//! Verified core of an LLM chat client that lets the model use the tools of
//! a recipe and shopping-list service.
//!
//! - [`pagination`]: the cursor that walks a paginated resource, fail-fast.
//! - [`mealie`] and [`shopping`]: the service's data and what the tools
//!   compute from it.
//! - [`json`]: JSON values, carried through as opaque data.
//! - [`tool_host`]: catalog advertising, argument checks, result text.
//! - [`conversation`]: the transcript of a session.
//! - [`orchestrator`]: the bounded tool-calling loop, as a state machine.
//! - [`config`]: model endpoint defaults.

pub mod config;
pub mod conversation;
pub mod json;
pub mod mealie;
pub mod orchestrator;
pub mod pagination;
pub mod shopping;
pub mod tool_host;
