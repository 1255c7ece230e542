# net_flow

The widget provider logic of Net Flow, a Windows 11 widget that shows live
network bandwidth, written in Verus and proved against its contracts.

- `src/registry.rs`: the registry of widgets on the board and the decisions of
  each provider callback (create, delete, activate, deactivate, resize,
  customization, card actions), the card and data push targets, and what the
  sampling worker publishes to.
- `src/publish.rs`: payload hashing, the heartbeat for unchanged payloads and
  the adaptive publication cadence.
- `src/ids.rs`: matching of widget ids (ASCII case and GUID braces ignored).
- `src/settings.rs`: reading the fields of the submitted settings form.
- `src/form.rs`: reading the submitted settings form as JSON and deciding
  what each setting becomes.
- `src/toast.rs`: the text and XML of bandwidth alert toasts.
- `src/tray.rs`: decisions of the notification-area host (window messages,
  tooltip buffer, named objects).
- `src/kinds.rs`, `src/activation.rs`: host enumerations and class-factory
  refusals.
- `app/`: the COM server, the tray host and the Windows calls around the
  library, with the Windows widget interfaces it uses (`app/bindings.rs`).
