# btswitch

The verified core of a Linux desktop tool that keeps one Bluetooth audio
device exclusive: selecting a device frees and connects it and suppresses
every other paired audio device (BlueZ `Blocked` for classic devices,
`Trusted=false` plus a disconnect for LE devices), and the suppression is
remembered across restarts until "Release All".

- `src/` is the library, verified with Verus: device listing and status,
  the block list and its persistence, the steps of a switch, connection
  retries and waits, PipeWire/PulseAudio output parsing, and what the window
  and the tray show.
- `app/` is the program around it: D-Bus calls through `zbus`, the command
  line tools, files, the GTK 4 window and the `ksni` tray icon.
- `tests/` runs the library on concrete inputs.
