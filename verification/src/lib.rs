//! Control plane of a screen recorder.
//!
//! * [`actor`] is the state machine that owns a recording session: every
//!   command and every failure arrives as an event and is handled in turn.
//! * [`pipeline`] is the coordinator between the capture sources and the
//!   sink: bounded queues, a merge by timestamp, and the valve that a pause
//!   closes.
//! * [`handle`] is what a caller holds to command a session.
//! * [`devices`] keeps track of which capture devices are held.
//! * [`session`] ties actor, pipeline, devices and completion signal
//!   together.
//! * [`recorder`] holds the rules of the embedding layer: what each of its
//!   calls does with the one recording that may be under way.
//! * [`config`], [`identity`] and [`error`] hold the values these speak of;
//!   [`displays`] and [`platform`] answer questions about monitors, windows
//!   and the cursor.
//!
//! Nothing here touches a device, a clock or a file; the one thing taken
//! from the machine is the randomness of a fresh recording id. Work that
//! only the outside world can do is handed to the caller as an effect and
//! comes back as an event, so every decision made here is a function of the
//! values it is given.

pub mod actor;
pub mod config;
pub mod devices;
pub mod displays;
pub mod error;
pub mod handle;
pub mod identity;
pub mod pipeline;
pub mod platform;
pub mod recorder;
pub mod session;
