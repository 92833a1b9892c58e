//! Plugin loader: instantiates plugins from outside artifacts (dynamic
//! libraries, WASM modules). Neither format is supported yet; both loaders
//! refuse every artifact.

use vstd::prelude::*;
use crate::plugin::Plugin;

verus! {

/// `anyhow::Error::msg`: an error whose message is `message`. The message is
/// not stated: an `anyhow::Error` has no view here.
#[verifier::external_body]
fn error_with_message(message: &'static str) -> anyhow::Error {
    anyhow::Error::msg(message)
}

/// Loads plugins from external artifacts.
pub struct PluginLoader;

impl PluginLoader {
    /// Loads a plugin from a dynamic library (.so/.dylib/.dll) exporting
    /// `create_plugin() -> Box<dyn Plugin>`. Dynamic loading is not available,
    /// so this always fails. The library's path is given as text.
    pub fn load_from_dylib(_path: &str) -> (r: Result<Box<dyn Plugin>, anyhow::Error>)
        ensures
            r is Err,
    {
        Err(error_with_message("dylib loading requires `libloading`"))
    }

    /// Loads a plugin from a WASM module exporting `create_plugin`. WASM
    /// instantiation is not available, so this always fails.
    pub fn load_from_wasm(_bytes: &[u8]) -> (r: Result<Box<dyn Plugin>, anyhow::Error>)
        ensures
            r is Err,
    {
        Err(error_with_message("wasm loading requires `wasmtime`"))
    }
}

/// Passes an already constructed plugin through (built-in and test plugins).
pub fn load_plugin_from_lib(plugin: Box<dyn Plugin>) -> (r: Result<Box<dyn Plugin>, anyhow::Error>)
    ensures
        r == Ok::<Box<dyn Plugin>, anyhow::Error>(plugin),
{
    Ok(plugin)
}

} // verus!
