//! Example tool plugin: bash, one of the two tools of the minimal mode.
//! A real implementation runs commands inside a sandbox.

use vstd::prelude::*;
use crate::plugin::{Capability, Manifest, Plugin, PluginContext};
use crate::registry::ServiceRegistry;

verus! {

/// The bash tool plugin, with id `tool.bash`.
pub struct BashTool {
    manifest: Manifest,
}

impl BashTool {
    /// The bash tool, declaring the tool capability.
    pub fn new() -> (p: Self)
        ensures
            p.manifest_spec().id@ == "tool.bash"@,
            p.manifest_spec().version@ == "0.1.0"@,
            p.manifest_spec().dependencies@.len() == 0,
            p.manifest_spec().capabilities@ == seq![Capability::Tool],
    {
        let mut m = Manifest::new("tool.bash");
        let _ = m.add_capability(Capability::Tool);
        BashTool { manifest: m }
    }
}

impl Plugin for BashTool {
    closed spec fn manifest_spec(&self) -> Manifest {
        self.manifest
    }

    open spec fn activation(
        &self,
        before: ServiceRegistry,
        after: ServiceRegistry,
        result: Result<(), anyhow::Error>,
    ) -> bool {
        after == before && result is Ok
    }

    fn manifest(&self) -> (m: &Manifest) {
        &self.manifest
    }

    /// A real tool plugin registers its tool service here; this one has
    /// nothing to register.
    fn activate(&self, ctx: &mut PluginContext) -> (r: Result<(), anyhow::Error>)
        ensures
            r is Ok,
            final(ctx).services == old(ctx).services,
            final(ctx).tracing == old(ctx).tracing,
            final(ctx).scope == old(ctx).scope,
            final(ctx).events == old(ctx).events,
    {
        Ok(())
    }
}

} // verus!
