//! Bootstrap logic for a Vulkan rendering application.
//!
//! The crate decides what the bootstrap of the graphics API asks of the
//! driver and in which order: which layers and extensions the instance needs
//! ([`requirements`], [`instance`]), which messages the diagnostics channel
//! reports and how a line of them reads ([`diagnostics`]), which physical
//! device is used ([`physical_device`]), which queue families serve graphics
//! and transfer work ([`queue_family`]), what the logical device is asked for
//! ([`device`]), and in which order the created objects are destroyed
//! ([`teardown`]). The [`sequencer`] strings the stages together. The calls
//! into the driver and the windowing system are the caller's.

pub mod device;
pub mod diagnostics;
pub mod error;
pub mod instance;
pub mod physical_device;
pub mod queue_family;
pub mod requirements;
pub mod sequencer;
pub mod teardown;
pub mod version;
