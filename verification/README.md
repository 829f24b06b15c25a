# Singularity

A quick-settings applet for the COSMIC desktop: Wi-Fi and VPN (NetworkManager),
audio (PipeWire), media playback (MPRIS), Bluetooth (BlueZ), power profiles and
session actions (login1), display and keyboard backlights, and the battery.

## Layout

- `src/` — the library, verified with Verus. It holds the applet's state
  (`app::AppModel`) and what every message does to it (`app::step`, proved of
  `AppModel::update`), the Network Manager and Bluetooth models, what the popup
  pages show (`views`), the Bluetooth session's decisions (device order,
  rfkill lookup, retry backoff, scanning, pairing agent), known VPN
  connections, media player status, log-out steps and the Wi-Fi watcher.
  `laws` states properties that span several messages.
- `tests/` — tests of the library on concrete values.
- `app/` — the COSMIC runtime: subscriptions, D-Bus and process calls, widgets.
  It turns outside events into library messages and performs the actions that
  `AppModel::update` returns.
