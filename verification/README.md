# cordis_rs

The kernel of a plugin-based agent framework, with its behaviour stated in
contracts and proved.

- `src/` is the library:
  - `trace`: the append-only trace log.
  - `scope`: the tree of scopes.
  - `lifecycle`: the active-plugin table, with its laws (`law_*`).
  - `plugin`: manifests, capabilities, the `Plugin` trait and its context.
  - `event_bus`: publish/subscribe over a tokio broadcast channel.
  - `registry`: the type-keyed service registry over `anymap2`.
  - `loader`: plugin loaders.
  - `model_echo`, `tool_bash`: the two example plugins.
  - `lib.rs`: the `Kernel` aggregate.
- `tests/` runs the library on concrete scenarios, the boot run among them.
- `app/` is the boot program, the C entry points of the example plugins and
  serialisable copies of the event and trace types.

Subsystems are owned by the `Kernel` and changed through `&mut`. A plugin gets
them through `PluginContext`: the kernel's service registry is lent to it for
the call (it may register services), it reads the trace, and the kernel alone
appends to the trace. Unloading runs the plugin's own `deactivate` first; a
scope's child stays until `release_child` releases it with its subtree.
