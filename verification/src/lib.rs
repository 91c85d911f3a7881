//! Host-side core of a binding to the Csound synthesis engine.
//!
//! The native engine talks to a host through two mechanisms: a set of
//! per-event callbacks, and named shared-memory channels plus a handful of
//! raw audio buffers.  This crate implements the host's half of both
//! mechanisms over plain data, with machine-checked contracts:
//!
//! * a callback registry and the per-event dispatch decisions a trampoline
//!   has to make (which closure to invoke, with which translated arguments,
//!   and which neutral value to answer when no closure is installed);
//! * a typed channel store and buffer views, where the content kind and the
//!   direction of a view are fixed at compile time by marker types.
//!
//! Audio samples cross these interfaces unchanged, so they are carried as
//! their IEEE-754 bit patterns (`u64` for the engine's double-precision
//! sample type, `u32` where the native structs use single precision); an
//! embedding converts at the boundary with `f64::to_bits`/`from_bits`.
//! The embedding that owns the actual closures and drives the native event
//! loop is ordinary (unverified) Rust around this crate.

pub mod callbacks;
pub mod channels;
pub mod circular;
pub mod csound;
pub mod enums;
pub mod rtaudio;

pub use callbacks::CallbackRegistry;
pub use callbacks::ChannelWrite;
pub use callbacks::Dispatch;
pub use callbacks::EventKind;
pub use callbacks::FileInfo;
pub use channels::AudioChannel;
pub use channels::ChannelBehavior;
pub use channels::ChannelError;
pub use channels::ChannelHints;
pub use channels::ChannelInfo;
pub use channels::ControlChannel;
pub use channels::InputChannel;
pub use channels::IsChannel;
pub use channels::OutputChannel;
pub use channels::PvsDataExt;
pub use channels::StrChannel;
pub use circular::CircularBuffer;
pub use csound::BufferPtr;
pub use csound::BufferTarget;
pub use csound::Channel;
pub use csound::ControlChannelPtr;
pub use csound::Csound;
pub use csound::Readable;
pub use csound::Writable;
pub use enums::ChannelData;
pub use enums::ControlChannelType;
pub use enums::FileTypes;
pub use enums::Language;
pub use enums::MessageType;
pub use enums::Status;
pub use rtaudio::CsAudioDevice;
pub use rtaudio::CsMidiDevice;
pub use rtaudio::RtAudioParams;
