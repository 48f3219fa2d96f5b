# sp_firmware

Parts of the firmware of a service processor, verified with Verus.

- `src/circq.rs`: a circular byte queue on borrowed memory; `src/ring.rs` models
  that memory.
- `src/dev.rs`, `src/bringup.rs`: the port devices of a VSC7448 switch, and the
  actions that bring up their ports.
- `src/mgs_common.rs`: the handling of requests from the management gateway.
  `src/messages.rs` holds what is exchanged with the gateway, `src/sprot.rs` what is
  exchanged with the root of trust.
- `src/sidecar.rs`: the board support of the Sidecar.
- `src/lpc55_update.rs`: updates of the LPC55 root of trust.

`app/` is the firmware around the library: it talks to the switch over SPI and to
other tasks, through the crates of those tasks and drivers.
