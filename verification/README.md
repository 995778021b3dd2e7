# ura_plugin

A Hachimi plugin for Umamusume that posts the game's HTTP requests and
responses to a local notifier, with a settings window in the plugin menu.

- `src/` is the verified library: the configuration and its store
  (`config`), decimal text for the timeout field (`decimal`), the settings
  window's state machine (`settings`), dotted class paths and class lookups
  (`class_path`), requests to the IL2CPP runtime (`host`), UTF-16 text
  (`utf16`), what the network
  hooks send (`notify`) and the entry point's result (`plugin_api`).
- `app/` is the plugin around it: the host's function table, the hooks, the
  egui window, the configuration file and the HTTP client.
- `tests/` runs the library on concrete values.
