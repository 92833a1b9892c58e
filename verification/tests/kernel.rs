use cordis_rs::{BashTool, EchoModel, Event, Kernel, TraceEntry};

#[test]
fn boot_loads_traces_and_unloads() {
    let mut kernel = Kernel::new();
    assert!(kernel.load(EchoModel::new()).is_ok());
    assert!(kernel.load(BashTool::new()).is_ok());
    assert_eq!(kernel.lifecycle.active_ids(), vec!["model.echo".to_string(), "tool.bash".to_string()]);

    kernel.events.publish(Event::Thought { agent: "main".into(), text: "hello from Cordis-RS".into() });
    kernel.trace.checkpoint("boot-done");
    assert_eq!(kernel.trace.len(), 3);

    assert!(kernel.lifecycle.deactivate("model.echo", &kernel.scope, &mut kernel.services, &kernel.events, &mut kernel.trace).is_ok());
    assert!(kernel.lifecycle.deactivate("tool.bash", &kernel.scope, &mut kernel.services, &kernel.events, &mut kernel.trace).is_ok());
    assert!(kernel.lifecycle.active_ids().is_empty());

    let trace = kernel.trace.snapshot();
    assert_eq!(trace.len(), 5);
    assert!(matches!(&trace[0], TraceEntry::PluginLoaded(id) if id == "model.echo"));
    assert!(matches!(&trace[1], TraceEntry::PluginLoaded(id) if id == "tool.bash"));
    assert!(matches!(&trace[2], TraceEntry::Checkpoint(label) if label == "boot-done"));
    assert!(matches!(&trace[3], TraceEntry::PluginUnloaded(id) if id == "model.echo"));
    assert!(matches!(&trace[4], TraceEntry::PluginUnloaded(id) if id == "tool.bash"));
}

#[test]
fn new_kernel_is_empty() {
    let kernel = Kernel::new();
    assert_eq!(kernel.scope.id(), "root");
    assert!(kernel.services.get::<u32>().is_none());
    assert!(kernel.services.get::<String>().is_none());
    assert!(kernel.trace.is_empty());
    assert!(kernel.lifecycle.active_ids().is_empty());
    let kernel = Kernel::default();
    assert_eq!(kernel.trace.len(), 0);
}

#[test]
fn publishing_does_not_write_the_trace() {
    let kernel = Kernel::new();
    kernel.events.publish(Event::SystemPrompt("be brief".into()));
    assert_eq!(kernel.trace.len(), 0);
}

#[test]
fn loading_the_same_plugin_twice_keeps_one_entry() {
    let mut kernel = Kernel::new();
    assert!(kernel.load(EchoModel::new()).is_ok());
    assert!(kernel.load(EchoModel::new()).is_ok());
    assert_eq!(kernel.lifecycle.active_ids(), vec!["model.echo".to_string()]);
    assert_eq!(kernel.trace.len(), 2);
}

struct Refusing {
    manifest: cordis_rs::Manifest,
}

impl cordis_rs::Plugin for Refusing {
    fn manifest_spec(&self) -> cordis_rs::Manifest {
        self.manifest.clone()
    }

    fn manifest(&self) -> &cordis_rs::Manifest {
        &self.manifest
    }

    fn activate(&self, ctx: &mut cordis_rs::PluginContext) -> Result<(), anyhow::Error> {
        ctx.services.register(String::from("half-registered"));
        assert_eq!(ctx.tracing.len(), 0);
        Err(anyhow::Error::msg("no"))
    }
}

#[test]
fn refused_activation_leaves_no_active_entry() {
    let mut kernel = Kernel::new();
    let r = kernel.load(Refusing { manifest: cordis_rs::Manifest::new("bad") });
    assert_eq!(r.err().unwrap().to_string(), "no");
    assert!(kernel.lifecycle.active_ids().is_empty());
    assert!(kernel.trace.is_empty());
    assert_eq!(kernel.services.get::<String>().unwrap().as_str(), "half-registered");
}

#[test]
fn plugins_register_services_through_the_context() {
    struct Registering {
        manifest: cordis_rs::Manifest,
    }
    impl cordis_rs::Plugin for Registering {
        fn manifest_spec(&self) -> cordis_rs::Manifest {
            self.manifest.clone()
        }
        fn manifest(&self) -> &cordis_rs::Manifest {
            &self.manifest
        }
        fn activate(&self, ctx: &mut cordis_rs::PluginContext) -> Result<(), anyhow::Error> {
            ctx.services.register(42u64);
            Ok(())
        }
    }
    let mut kernel = Kernel::new();
    assert!(kernel.load(Registering { manifest: cordis_rs::Manifest::new("svc") }).is_ok());
    assert_eq!(*kernel.services.get::<u64>().unwrap(), 42);
    assert_eq!(kernel.lifecycle.active_ids(), vec!["svc".to_string()]);
    assert!(matches!(&kernel.trace.snapshot()[0], TraceEntry::PluginLoaded(id) if id == "svc"));
}
