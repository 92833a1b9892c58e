use cordis_rs::{
    load_plugin_from_lib, BashTool, Capability, EchoModel, Manifest, Plugin, PluginLoader,
};

#[test]
fn manifest_defaults() {
    let m = Manifest::new("x.y");
    assert_eq!(m.id, "x.y");
    assert_eq!(m.version, "0.1.0");
    assert!(m.dependencies.is_empty());
    assert!(m.capabilities.is_empty());
}

#[test]
fn capability_is_declared_once() {
    let mut m = Manifest::new("x");
    assert!(m.add_capability(Capability::Tool));
    assert!(m.add_capability(Capability::Storage));
    assert!(!m.add_capability(Capability::Tool));
    assert_eq!(m.capabilities, vec![Capability::Tool, Capability::Storage]);
}

#[test]
fn example_plugins_describe_themselves() {
    let echo = EchoModel::new();
    assert_eq!(echo.manifest().id, "model.echo");
    assert_eq!(echo.manifest().capabilities, vec![Capability::ModelProvider]);
    let bash = BashTool::new();
    assert_eq!(bash.manifest().id, "tool.bash");
    assert_eq!(bash.manifest().version, "0.1.0");
    assert_eq!(bash.manifest().capabilities, vec![Capability::Tool]);
}

#[test]
fn loaders_refuse_artifacts() {
    assert!(PluginLoader::load_from_dylib("libplugin.so").is_err());
    assert!(PluginLoader::load_from_wasm(&[0, 97, 115, 109]).is_err());
    let msg = PluginLoader::load_from_wasm(&[]).err().unwrap().to_string();
    assert!(msg.contains("wasmtime"));
}

#[test]
fn prebuilt_plugin_passes_through() {
    let p = load_plugin_from_lib(Box::new(BashTool::new())).ok().unwrap();
    assert_eq!(p.manifest().id, "tool.bash");
}
