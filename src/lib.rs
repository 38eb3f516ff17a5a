//! Configuration of the introspection tool group: option records for the
//! execute, introspect, search and validate tools, the rule that decides where
//! the execute tool's hint text comes from, and the test that decides whether
//! the group is offered at all.

pub mod introspection;

pub use introspection::{
    ExecuteConfig, IntrospectConfig, Introspection, SearchConfig, ValidateConfig,
};
