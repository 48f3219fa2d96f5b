//! Parts of the firmware of a service processor: a byte queue on borrowed memory, the
//! bring-up of the ports of a VSC7448 switch, the handling of requests from the
//! management gateway, and the board support of the Sidecar.

pub mod bringup;
pub mod circq;
pub mod dev;
pub mod lpc55_update;
pub mod messages;
pub mod mgs_common;
pub mod ring;
pub mod sidecar;
pub mod sprot;
