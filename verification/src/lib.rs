//! The logic of the bundled WPE `WebKit` engine used by `WaterUI`'s standard Linux
//! `WebView`.
//!
//! `water` stages an exact runtime next to the application, whose narrow,
//! versioned bridge the host loads. This crate judges what the host finds there
//! and decides what the host does about it; the calls on the bridge, on the file
//! system and on the GPU are the host's.
//!
//! - [`abi`] reads a frame as the bridge reports it.
//! - [`frame`] is the choice between the two buffer kinds, and the shared-memory
//!   one.
//! - [`format`] are the pixel formats of both kinds.
//! - [`lease`] is the protocol by which a buffer goes back to the engine.
//! - [`gpu`] and [`blit`] say what is done to the GPU for a frame.
//! - [`view`] draws a stream of frames.
//! - [`pump`] says when the engine's main loop has to run next.
//! - [`runtime`] is the staged runtime: where it lies and whether it is the right
//!   one.
//! - [`laws`] is what all of these promise, told by inputs and results alone.
//! - [`text`] spells numbers and comparisons for the messages.
//! - [`outside`] is what all of this takes on trust from other crates.

pub mod abi;
pub mod blit;
pub mod format;
pub mod frame;
pub mod gpu;
pub mod laws;
pub mod lease;
pub mod outside;
pub mod pump;
pub mod runtime;
pub mod text;
pub mod view;

pub use abi::{
    DmaBufDescription, DmaBufPlane, FrameFault, FrameRefusal, WaterWpeFrame, frame_from_abi,
};
pub use format::{PackedFormat, ShmFormat, TexelFormat, shm_format_from_abi};
pub use frame::{BrowserFrame, ShmFrame, ShmFrameFault};
pub use gpu::{DmaBufShape, FrameOp, GpuState, SourceTexture, TexturePlan, UploadPlan};
pub use lease::{BridgeCall, WpeFrameLease};
pub use pump::{
    MessagePump, PumpAction, PumpDeadline, PumpEvent, PumpTask, QueryOutcome, ReadinessQuery,
    WpePollFd, WpeReadiness,
};
pub use runtime::{
    ManifestContents, Mismatch, Probe, ProbeAnswer, RuntimeFault, RuntimeIdentity, RuntimeStart,
    SandboxTool, ValidationStep, WPE_WEBKIT_VERSION, WpeRuntimePaths, check_abi_version,
};
pub use view::{BrowserGpuView, RenderAction, RenderEvent};
