# slimefun

Verified core of the Slimefun native engine, written in Verus.

- `src/block_storage.rs` — block storage with dirty tracking. A save is planned
  here (`pending_saves`) and its marks are cleared only once the caller reports the
  commit (`mark_saved`). Proof functions show that carrying out a plan brings a
  database that agreed on every clean place fully in line with the engine, and that
  every operation keeps that agreement.
- `src/energy.rs` — the energy-network solver. The report of a tick is proved equal to
  a closed form over the network's totals (so it does not depend on the map's visit
  order), and the nodes end up as charging or draining the capacitors one after the
  other leaves them.
- `src/ticker.rs`, `src/items.rs`, `src/addons/`, `src/cargo.rs`, `src/native.rs` —
  the tick counter, the item registry, the addon catalogue and dispatcher, cargo
  routing, and the saturating sum shared with the Java side.
- `src/shared_map.rs` — declaration of `dashmap::DashMap`; each engine reaches its map
  through small trusted wrappers next to it.
- `app/` — the HTTP server, SQLite persistence, the C/JNI exports, and the
  floating-point parts (market price, Supreme cards).
