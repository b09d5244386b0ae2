//! Permission-state lifecycle for the audio capabilities of a desktop
//! recording application.
//!
//! The crate models two OS capabilities — microphone access and system
//! audio capture — as a small, fully specified state machine. It answers
//! "is the capability granted right now?", decides when the one allowed
//! consent request must be made, and exposes an idempotent "ensure
//! granted" composition that is safe to call repeatedly without producing
//! duplicate prompts.
//!
//! All OS interaction (device enumeration, opening a capture stream,
//! spawning the settings panel, background threads) is performed by the
//! embedding application, which reports each observed outcome back as a
//! plain value. Every decision taken on those values is verified here.

pub mod lifecycle;
pub mod model;
pub mod permission;
pub mod startup;
pub mod text;

pub use model::Capability;
pub use model::GrantState;
pub use model::Platform;
pub use model::RequestError;
