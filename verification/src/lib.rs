//! A server that shows X11 windows on a Wayland compositor: which of them there are, what is known
//! of them, and what is asked of the compositor and of the X server on their behalf.
//!
//! `state` holds the server, whose entities are kept in `world`. `clientside` adds the connection
//! to the X server. The other modules are what the server does. `laws` and the modules that are
//! named after it say what holds across its operations.
pub mod activation;
pub mod clientside;
pub mod connection;
pub mod create;
pub mod environ;
pub mod flush;
pub mod geometry;
pub mod globals;
pub mod laws;
pub mod laws_events;
pub mod laws_outputs;
pub mod laws_popups;
pub mod laws_roles;
pub mod laws_windows;
pub mod lifecycle;
mod lists;
pub mod metrics;
pub mod outputs;
pub mod popups;
pub mod properties;
pub mod request;
pub mod role;
pub mod scaling;
mod sealed;
pub mod state;
pub mod window;
pub mod world;
