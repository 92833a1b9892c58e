use cordis_rs::{
    BashTool, EchoModel, EventBus, LifecycleManager, Manifest, Plugin, PluginContext, Scope,
    ServiceRegistry, TraceCollector, TraceEntry,
};

#[test]
fn failed_activation_changes_nothing() {
    let mut lm = LifecycleManager::new();
    let mut trace = TraceCollector::new();
    let r = lm.record_activation(
        Box::new(EchoModel::new()),
        std::any::TypeId::of::<EchoModel>(),
        "model.echo".to_string(),
        Err(anyhow::Error::msg("refused")),
        &mut trace,
    );
    assert_eq!(r.err().unwrap().to_string(), "refused");
    assert!(lm.active_ids().is_empty());
    assert!(trace.is_empty());
}

#[test]
fn successful_activation_is_recorded() {
    let mut lm = LifecycleManager::new();
    let mut trace = TraceCollector::new();
    let r = lm.record_activation(Box::new(BashTool::new()), std::any::TypeId::of::<u8>(), "p".to_string(), Ok(()), &mut trace);
    assert!(r.is_ok());
    assert_eq!(lm.active_ids(), vec!["p".to_string()]);
    assert!(matches!(&trace.snapshot()[0], TraceEntry::PluginLoaded(id) if id == "p"));
}

#[test]
fn deactivating_an_unknown_id_records_nothing() {
    let scope = Scope::root();
    let mut services = ServiceRegistry::new();
    let events = EventBus::new();
    let mut lm = LifecycleManager::new();
    let mut trace = TraceCollector::new();
    assert!(lm.deactivate("ghost", &scope, &mut services, &events, &mut trace).is_ok());
    assert!(trace.is_empty());
    let _ = lm.record_activation(Box::new(EchoModel::new()), std::any::TypeId::of::<u8>(), "a".to_string(), Ok(()), &mut trace);
    let _ = lm.record_activation(Box::new(BashTool::new()), std::any::TypeId::of::<u8>(), "b".to_string(), Ok(()), &mut trace);
    assert!(lm.deactivate("a", &scope, &mut services, &events, &mut trace).is_ok());
    assert!(lm.deactivate("a", &scope, &mut services, &events, &mut trace).is_ok());
    assert_eq!(lm.active_ids(), vec!["b".to_string()]);
    assert_eq!(trace.len(), 3);
}

struct Stubborn {
    manifest: Manifest,
    refuse: bool,
}

impl Plugin for Stubborn {
    fn manifest_spec(&self) -> Manifest {
        self.manifest.clone()
    }

    fn manifest(&self) -> &Manifest {
        &self.manifest
    }

    fn activate(&self, ctx: &mut PluginContext) -> Result<(), anyhow::Error> {
        ctx.services.register(1u8);
        Ok(())
    }

    fn deactivate(&self, ctx: &mut PluginContext) -> Result<(), anyhow::Error> {
        ctx.services.register(2u8);
        if self.refuse {
            Err(anyhow::Error::msg("busy"))
        } else {
            Ok(())
        }
    }
}

#[test]
fn deactivation_runs_the_plugins_own_deactivate() {
    let scope = Scope::root();
    let mut services = ServiceRegistry::new();
    let events = EventBus::new();
    let mut lm = LifecycleManager::new();
    let mut trace = TraceCollector::new();
    let p = Stubborn { manifest: Manifest::new("s"), refuse: false };
    assert!(lm.activate(p, &scope, &mut services, &events, &mut trace).is_ok());
    assert_eq!(*services.get::<u8>().unwrap(), 1);
    assert!(lm.deactivate("s", &scope, &mut services, &events, &mut trace).is_ok());
    assert_eq!(*services.get::<u8>().unwrap(), 2);
    assert!(lm.active_ids().is_empty());
    assert!(matches!(&trace.snapshot()[1], TraceEntry::PluginUnloaded(id) if id == "s"));
}

#[test]
fn refused_deactivation_keeps_the_plugin_active() {
    let scope = Scope::root();
    let mut services = ServiceRegistry::new();
    let events = EventBus::new();
    let mut lm = LifecycleManager::new();
    let mut trace = TraceCollector::new();
    let p = Stubborn { manifest: Manifest::new("s"), refuse: true };
    assert!(lm.activate(p, &scope, &mut services, &events, &mut trace).is_ok());
    let r = lm.deactivate("s", &scope, &mut services, &events, &mut trace);
    assert_eq!(r.err().unwrap().to_string(), "busy");
    assert_eq!(lm.active_ids(), vec!["s".to_string()]);
    assert_eq!(trace.len(), 1);
}
