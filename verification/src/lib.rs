//! Cordis-RS: the kernel of a plugin-based agent framework.
//!
//! Everything is a plugin: the kernel only makes plugins compose safely. Plugins
//! live in nested scopes (space) and the kernel keeps an append-only trace of
//! their lifecycle (time). The kernel holds no agent logic of its own.

pub mod event_bus;
pub mod lifecycle;
pub mod loader;
pub mod model_echo;
pub mod plugin;
pub mod registry;
pub mod scope;
pub mod tool_bash;
pub mod trace;

pub use event_bus::{Event, EventBus};
pub use lifecycle::LifecycleManager;
pub use loader::{load_plugin_from_lib, PluginLoader};
pub use model_echo::EchoModel;
pub use plugin::{Capability, Manifest, Plugin, PluginContext};
pub use registry::ServiceRegistry;
pub use scope::Scope;
pub use tool_bash::BashTool;
pub use trace::{TraceCollector, TraceEntry};

use vstd::prelude::*;
use crate::lifecycle::activation_step;

verus! {

/// The kernel aggregate: owns every core subsystem.
pub struct Kernel {
    pub scope: Scope,
    pub services: ServiceRegistry,
    pub events: EventBus,
    pub lifecycle: LifecycleManager,
    pub trace: TraceCollector,
}

impl Kernel {
    /// An empty kernel: a root scope with no children, an empty service
    /// registry, an event bus, no active plugin and an empty trace.
    pub fn new() -> (k: Self)
        ensures
            k.scope.is_fresh("root"@, None),
            k.scope.wf(),
            k.services.count() == 0,
            k.events.capacity() == event_bus::EVENT_BUFFER_CAPACITY,
            k.lifecycle.ids() == Seq::<Seq<char>>::empty(),
            k.trace@ == Seq::<TraceEntry>::empty(),
    {
        Kernel {
            scope: Scope::root(),
            services: ServiceRegistry::new(),
            events: EventBus::new(),
            lifecycle: LifecycleManager::new(),
            trace: TraceCollector::new(),
        }
    }

    /// Loads a plugin and activates it with the kernel's own subsystems: the
    /// same operation as `LifecycleManager::activate` on the kernel's scope,
    /// registry, bus, active table and trace. The bus and the scope are left
    /// as they were.
    pub fn load<P: Plugin + 'static>(&mut self, plugin: P) -> (r: Result<(), anyhow::Error>)
        ensures
            plugin.activation(old(self).services, final(self).services, r),
            plugin.activated_with(old(self).scope, old(self).events, old(self).trace@, r),
            activation_step(
                old(self).lifecycle.ids(),
                final(self).lifecycle.ids(),
                old(self).trace@,
                final(self).trace@,
                plugin.manifest_spec().id,
                r,
            ),
            old(self).trace@.is_prefix_of(final(self).trace@),
            final(self).lifecycle.ids().no_duplicates(),
            final(self).scope == old(self).scope,
            final(self).events == old(self).events,
    {
        self.lifecycle.activate(plugin, &self.scope, &mut self.services, &self.events, &mut self.trace)
    }
}

impl Default for Kernel {
    fn default() -> (k: Self)
        ensures
            k.scope.is_fresh("root"@, None),
            k.scope.wf(),
            k.services.count() == 0,
            k.events.capacity() == event_bus::EVENT_BUFFER_CAPACITY,
            k.lifecycle.ids() == Seq::<Seq<char>>::empty(),
            k.trace@ == Seq::<TraceEntry>::empty(),
    {
        Self::new()
    }
}

} // verus!
