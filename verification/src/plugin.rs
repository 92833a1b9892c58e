//! The plugin protocol: the compile-time contract that every plugin implements.

use vstd::prelude::*;
use crate::event_bus::EventBus;
use crate::registry::ServiceRegistry;
use crate::scope::Scope;
use crate::trace::{TraceCollector, TraceEntry};

verus! {

/// `anyhow::Error`, the error of a plugin's activation.
#[verifier::external_type_specification]
#[verifier::external_body]
pub struct ExAnyhowError(anyhow::Error);

/// A declared capability, used to resolve dependencies and detect conflicts.
#[derive(Debug, Clone, PartialEq, Eq, Hash, Structural)]
pub enum Capability {
    ModelProvider,
    Tool,
    Skill,
    Sandbox,
    AgentLoop,
    Storage,
    Scheduler,
    Tracer,
    Ui,
}

/// Plugin metadata: id, version, dependencies and declared capabilities.
/// Each capability is held once.
#[derive(Debug, Clone)]
pub struct Manifest {
    pub id: String,
    pub version: String,
    pub dependencies: Vec<String>,
    pub capabilities: Vec<Capability>,
}

impl Manifest {
    /// The set of declared capabilities.
    pub open spec fn capability_set(self) -> Set<Capability> {
        self.capabilities@.to_set()
    }

    /// A manifest for `id`, at version 0.1.0, with no dependencies and no
    /// capabilities.
    pub fn new(id: &str) -> (m: Manifest)
        ensures
            m.id@ == id@,
            m.version@ == "0.1.0"@,
            m.dependencies@.len() == 0,
            m.capabilities@.len() == 0,
    {
        Manifest {
            id: id.to_string(),
            version: "0.1.0".to_string(),
            dependencies: Vec::new(),
            capabilities: Vec::new(),
        }
    }

    /// Declares a capability; answers whether it was not declared before.
    /// A capability already declared is not added again.
    pub fn add_capability(&mut self, capability: Capability) -> (added: bool)
        ensures
            added == !old(self).capabilities@.contains(capability),
            final(self).capabilities@ == (if added {
                old(self).capabilities@.push(capability)
            } else {
                old(self).capabilities@
            }),
            final(self).capability_set() == old(self).capability_set().insert(capability),
            final(self).id == old(self).id,
            final(self).version == old(self).version,
            final(self).dependencies == old(self).dependencies,
    {
        let n = self.capabilities.len();
        let mut i: usize = 0;
        while i < n
            invariant
                n == self.capabilities@.len(),
                0 <= i <= n,
                forall|j: int| 0 <= j < i ==> self.capabilities@[j] != capability,
            decreases n - i,
        {
            if self.capabilities[i] == capability {
                assert(self.capabilities@.contains(capability));
                assert(self.capabilities@.to_set() =~= self.capabilities@.to_set().insert(capability));
                return false;
            }
            i = i + 1;
        }
        let ghost before = self.capabilities@;
        self.capabilities.push(capability);
        proof {
            assert(!before.contains(capability));
            before.lemma_push_to_set_commute(capability);
        }
        true
    }
}

/// The kernel capabilities handed to a plugin while it activates: the scope,
/// the kernel's service registry to register into (lent to the plugin for the
/// call and taken back afterwards), the event bus, and the trace to read.
pub struct PluginContext<'a> {
    pub scope: &'a Scope,
    pub services: ServiceRegistry,
    pub events: &'a EventBus,
    pub tracing: &'a TraceCollector,
}

/// The core plugin trait: the compile-time contract every plugin implements.
pub trait Plugin: Send + Sync {
    /// The manifest this plugin describes itself with: the one `manifest`
    /// gives on every call.
    spec fn manifest_spec(&self) -> Manifest;

    /// What this plugin's activation does to the service registry (`before`,
    /// `after`) and what it answers (`result`). Unless a plugin says more,
    /// anything may happen.
    open spec fn activation(
        &self,
        before: ServiceRegistry,
        after: ServiceRegistry,
        result: Result<(), anyhow::Error>,
    ) -> bool {
        true
    }

    /// What this plugin's activation makes of the subsystems it is handed (the
    /// scope, the event bus and the trace as it stood) and what it answers.
    /// Unless a plugin says more, anything may happen.
    open spec fn activated_with(
        &self,
        scope: Scope,
        events: EventBus,
        trace: Seq<TraceEntry>,
        result: Result<(), anyhow::Error>,
    ) -> bool {
        true
    }

    /// When this plugin's deactivation may fail with `error`, given the
    /// subsystems it is handed (the scope and the event bus) and what it does
    /// to the service registry (`before`, `after`). Unless a plugin says
    /// more, it may fail with any error.
    open spec fn refuses_deactivation(
        &self,
        scope: Scope,
        events: EventBus,
        before: ServiceRegistry,
        after: ServiceRegistry,
        error: anyhow::Error,
    ) -> bool {
        true
    }

    /// Plugin metadata; every call gives the same manifest.
    fn manifest(&self) -> (m: &Manifest)
        ensures
            *m == self.manifest_spec(),
    ;

    /// Activation: register services, subscribe to events, declare side effects.
    fn activate(&self, ctx: &mut PluginContext) -> (r: Result<(), anyhow::Error>)
        ensures
            self.activation(old(ctx).services, final(ctx).services, r),
            self.activated_with(*old(ctx).scope, *old(ctx).events, old(ctx).tracing@, r),
    ;

    /// Deactivation: undo what activation did. A plugin that does not define
    /// it has nothing to undo: it succeeds and leaves the context as it was.
    fn deactivate(&self, ctx: &mut PluginContext) -> (r: Result<(), anyhow::Error>)
        ensures
            r matches Err(e) ==> self.refuses_deactivation(
                *old(ctx).scope,
                *old(ctx).events,
                old(ctx).services,
                final(ctx).services,
                e,
            ),
        default_ensures
            r is Ok,
            final(ctx).services == old(ctx).services,
            final(ctx).tracing == old(ctx).tracing,
            final(ctx).scope == old(ctx).scope,
            final(ctx).events == old(ctx).events,
    {
        Ok(())
    }
}

} // verus!
