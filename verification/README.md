# satellite

A server that shows X11 windows on a Wayland compositor, as Wayland clients of it.

`src/` is the library, verified with Verus. It keeps the windows, surfaces and outputs as entities
of a `hecs::World`, decides what follows from each event, and hands out what is to be asked of the
compositor as values (`request::Request`). What is asked of the X server goes through the
`connection::XConnection` trait.

- `state`, `world`: the server and its entities, and the model that contracts speak of
- `window`, `properties`, `lifecycle`, `environ`: windows, from their creation to their end
- `role`, `create`, `popups`: toplevels and popups, and how popups stay with their parents
- `outputs`, `scaling`, `globals`: the compositor's outputs and globals
- `clientside`, `activation`, `flush`: what is done once events have come
- `laws`: what holds across operations

Scale factors are held as keys in the library (`geometry::Scale`); the divisions by them are given
to it as functions (`metrics::Metrics`).

`app/` is the rest: sockets, protocol objects and floating point arithmetic. `tests/` runs the
library.
