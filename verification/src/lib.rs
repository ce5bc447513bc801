//! Decision logic of an exclusive Bluetooth audio switcher: which paired
//! devices are audio devices, how their status is derived, which devices the
//! switcher keeps suppressed, how a switch proceeds and how the window and
//! tray present it. Everything that talks to D-Bus, PipeWire, the file
//! system or the desktop lives with the caller.

pub mod backend;
pub mod blocklist;
pub mod bluez;
pub mod connect;
pub mod connecting;
pub mod device;
pub mod exclusive;
pub mod order;
pub mod pipewire;
pub mod state;
pub mod switch;
pub mod text;
pub mod tray;
pub mod ui;
pub mod uuids;
