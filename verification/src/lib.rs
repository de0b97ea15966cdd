//! Signals, coverage and probe decisions of a host transparency agent.
//!
//! The agent reports what runs on a machine during an interview and never judges it. This library
//! holds everything it decides: what a reading from the operating system means, which signal
//! reports it and at which tier, how honest a sample is about what it could not see, and what goes
//! out on the wire. It makes no OS calls. A host walks the machine, hands the readings over as plain
//! values, and ships what comes back.
//!
//! # Why the types are shaped the way they are
//!
//! * A `path` exists **iff** the image was readable. See [`ImagePath`].
//! * A hash or signer cannot exist without a readable image. See [`Signature`].
//! * A signal's `code` cannot disagree with its `detail`. See [`Observation`].
//!
//! That last one is why you build a [`Signal`] from an [`Observation`] rather than filling in a
//! struct: `code`, `scope` and the collector-side `tier` are all derived from the variant.
//!
//! # The invariants that are not types
//!
//! * `seq` is contiguous per `collector_instance_id`. **A gap means dropped samples** and must
//!   surface as reduced coverage, never be smoothed over.
//! * Absence never means good news — a missing signal, an unknown enum member and a dropped sample
//!   all degrade to "unknown", never to "clean".
//!
//! # The rule
//!
//! **Enumerate audio sessions. Never open a capture stream.** Enumeration does not trip the Windows
//! microphone consent prompt; opening a stream does, and a monitoring agent that itself asks for the
//! microphone is indefensible on its own terms.
//!
//! # Modules
//!
//! [`envelope`], [`detail`] and [`coverage`] are the message types. [`process`], [`signature`],
//! [`audio`], [`affinity`], [`foreground`] and [`platform`] make sense of one kind of reading each;
//! [`scan`] puts a sample together, [`capability`] a coverage report, and [`serve`] answers
//! commands. [`text`], [`time`], [`ident`], [`digest`], [`json`] and [`table`] are what they are
//! made of.

pub mod affinity;
pub mod audio;
pub mod capability;
pub mod coverage;
pub mod detail;
pub mod digest;
pub mod envelope;
pub mod foreground;
pub mod ident;
pub mod json;
pub mod platform;
pub mod process;
pub mod scan;
pub mod serve;
pub mod signature;
pub mod table;
pub mod text;
pub mod time;

pub use coverage::{Capability, CapabilityKey, CapabilityState, CoverageReason, CoverageReport};
pub use detail::{DetailS1, DetailS2, DetailS3, DetailS5, DetailS6, Observation};
pub use envelope::{
    AudioDevice, DeviceKind, Emission, Envelope, ImagePath, MessageType, ProbeErrorKind, SampleMeta,
    SessionEvent, Signal, Signature, Subject, TitleState, WindowRef,
};
pub use time::Timestamp;

use vstd::prelude::*;

verus! {

/// Wire version this build produces. A consumer accepts `1.x` and hard-rejects `2.x`.
pub const SCHEMA_VERSION: &'static str = "1.0";

/// `<family>/<semver>`. The family vocabulary is open; consumers must not infer capability from it.
pub const COLLECTOR_ID: &'static str = "host-agent/0.1.0";

} // verus!
