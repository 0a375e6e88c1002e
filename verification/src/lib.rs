//! A source-to-source rewriting pass for directive-based durable workflows.
//!
//! A module of JavaScript-like syntax is first scanned by a read-only
//! collector, which records which functions carry a `"use workflow"` or
//! `"use step"` directive, which imports use relative paths, and which
//! reserved helper calls (`invoke`, `sleep`, `waitForCallback`) appear.
//! A transformer then rewrites the module: workflow functions become
//! durable-execution wrappers, step functions are deleted and inlined at
//! their call sites, and reserved helper calls become SDK primitives.
//! In client mode, relative imports are replaced by workflow descriptor
//! objects.

pub mod ast;
pub mod codegen;
pub mod collector;
pub mod config;
pub mod directive;
pub mod laws;
pub mod query;
pub mod transform;

use vstd::prelude::*;

use crate::ast::{view_module, Module};
use crate::collector::{collect_module, Collector};
use crate::config::{clone_config, view_config, PluginConfig};
use crate::transform::{transform_module, WorkflowTransformer};

verus! {

/// Run the two passes on one module: collect the fact sheet, then rewrite
/// the module body in place. The collector finishes before the transformer
/// starts, and the fact sheet is frozen in between.
pub fn apply_transform(config: &PluginConfig, module: &mut Module)
    ensures
        view_module(*final(module)) == transform_module(
            view_module(*old(module)),
            collect_module(view_module(*old(module))),
            view_config(*config),
        ),
{
    let mut collector = Collector::new(config);
    collector.visit_module(module);
    let mut transformer = WorkflowTransformer::new(clone_config(config), collector.info);
    transformer.visit_mut_module(module);
}

} // verus!
