//! Configuration for one transformation run.

use vstd::prelude::*;

verus! {

/// Which of the two rewrites is applied to a module.
#[derive(Debug, Clone, Copy, PartialEq, Eq, Structural)]
pub enum TransformMode {
    /// Rewrite workflow and step declarations into SDK calls.
    Workflow,
    /// Replace relative imports by workflow descriptor objects.
    Client,
}

/// Options of one transformation run; immutable while it runs.
#[derive(Debug)]
pub struct PluginConfig {
    pub mode: TransformMode,
    pub package_name: String,
    pub env_prefix: String,
}

#[verifier::ext_equal]
pub struct PluginConfigV {
    pub mode: TransformMode,
    pub package_name: Seq<char>,
    pub env_prefix: Seq<char>,
}

pub open spec fn view_config(c: PluginConfig) -> PluginConfigV {
    PluginConfigV {
        mode: c.mode,
        package_name: c.package_name@,
        env_prefix: c.env_prefix@,
    }
}

pub fn clone_config(c: &PluginConfig) -> (r: PluginConfig)
    ensures
        view_config(r) == view_config(*c),
{
    PluginConfig {
        mode: c.mode,
        package_name: c.package_name.clone(),
        env_prefix: c.env_prefix.clone(),
    }
}

/// The mode used when none is configured.
pub fn default_mode() -> (m: TransformMode)
    ensures
        m == TransformMode::Workflow,
{
    TransformMode::Workflow
}

/// The SDK package imported by rewritten workflow modules when none is
/// configured.
pub fn default_package_name() -> (s: String)
    ensures
        s@ == "@bento/aws-durable"@,
{
    "@bento/aws-durable".to_owned()
}

/// The prefix of the environment variables that client-mode descriptors
/// read, when none is configured.
pub fn default_env_prefix() -> (s: String)
    ensures
        s@ == "WORKFLOW_"@,
{
    "WORKFLOW_".to_owned()
}

impl Default for PluginConfig {
    fn default() -> (c: Self)
        ensures
            c.mode == TransformMode::Workflow,
            c.package_name@ == "@bento/aws-durable"@,
            c.env_prefix@ == "WORKFLOW_"@,
    {
        PluginConfig {
            mode: default_mode(),
            package_name: default_package_name(),
            env_prefix: default_env_prefix(),
        }
    }
}

} // verus!
