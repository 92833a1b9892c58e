//! Example model plugin: echo (answers with the user's input unchanged).
//! Models are plugins too; this one stands in for real providers.

use vstd::prelude::*;
use crate::plugin::{Capability, Manifest, Plugin, PluginContext};
use crate::registry::ServiceRegistry;

verus! {

/// The echo model plugin, with id `model.echo`.
pub struct EchoModel {
    manifest: Manifest,
}

impl EchoModel {
    /// The echo model, declaring the model-provider capability.
    pub fn new() -> (p: Self)
        ensures
            p.manifest_spec().id@ == "model.echo"@,
            p.manifest_spec().version@ == "0.1.0"@,
            p.manifest_spec().dependencies@.len() == 0,
            p.manifest_spec().capabilities@ == seq![Capability::ModelProvider],
    {
        let mut m = Manifest::new("model.echo");
        let _ = m.add_capability(Capability::ModelProvider);
        EchoModel { manifest: m }
    }
}

impl Plugin for EchoModel {
    closed spec fn manifest_spec(&self) -> Manifest {
        self.manifest
    }

    open spec fn activation(
        &self,
        before: ServiceRegistry,
        after: ServiceRegistry,
        result: Result<(), anyhow::Error>,
    ) -> bool {
        after == before && result is Ok
    }

    fn manifest(&self) -> (m: &Manifest) {
        &self.manifest
    }

    /// A real model plugin registers its provider service here; echo has
    /// nothing to register.
    fn activate(&self, ctx: &mut PluginContext) -> (r: Result<(), anyhow::Error>)
        ensures
            r is Ok,
            final(ctx).services == old(ctx).services,
            final(ctx).tracing == old(ctx).tracing,
            final(ctx).scope == old(ctx).scope,
            final(ctx).events == old(ctx).events,
    {
        Ok(())
    }
}

} // verus!
