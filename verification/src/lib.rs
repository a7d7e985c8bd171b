//! A verified model of the bridge between a host program and an embedded
//! dynamic-language runtime: tagged values, ordered arrays and the lifecycle
//! of the single execution context.

pub mod sys;
pub mod value;
pub mod exec;
