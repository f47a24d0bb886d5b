# tauri_plugin_decoration

Native window controls for custom Tauri v2 titlebars, with the decision
logic verified in Verus.

- `src/` is the verified core:
  - `lifecycle` — the per-window activation lifecycle (window generations,
    document tokens, preparation, native application, restoration,
    teardown); `lifecycle_laws` states what holds across its operations.
  - `tokens` — the decimal codec of acknowledgement tokens.
  - `commands` — acknowledgement checks and the sequencing rules of native
    restoration and geometry transactions.
  - `frontend` — the scripts sent to the webview runtime.
  - `dconf`, `layout` — GNOME and GTK button layouts, window controls.
  - `snap` — the Windows snap-layout overlay registry and geometry.
  - `traffic` — the macOS traffic-light registry.
  - `protocol` — routing of the stylesheet URI scheme.
  - `text` — character helpers.
- `app/` is the Tauri plugin around it: commands, event hooks, the main-thread
  dispatcher, and the Win32, AppKit and GTK calls.
- `tests/` exercises the core on concrete values.
