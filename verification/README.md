# opentimesync

The core of OpenTimeSync, a desktop NTP time-synchronisation app, written in
Verus and proved against its contracts.

`src/` is the verified library:

- `servers` – the selectable NTP servers and lookup by host.
- `config` – saved settings, master-address normalization, pair codes.
- `calibration` – the calibration state machine (idle, calibrating, stable,
  degraded) and its laws.
- `state`, `commands`, `shell` – the application state and every step the UI,
  the refresh loop and the LAN master take on it.
- `payload` – refresh results, server latency tables, master/slave messages.
- `ntp` – request packet, response checks, timestamp fields, outlier window.
- `civil` – Unix milliseconds to broken-down UTC calendar fields.
- `widget` – widget scale, size and placement inside the work area.
- `update` – self-update status texts and error wording.
- `text`, `clock` – trimming, searching, decimal rendering; the wall clock.

`app/` is the Tauri shell around it: windows, tray, sockets, files, JSON,
the updater, the Windows system-clock call, and the floating-point NTP
arithmetic (offset, round-trip time, weighted average).

`tests/` exercises the library on concrete values.
