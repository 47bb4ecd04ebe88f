//! Lifecycle and event-bridging engine for a native window driven on a
//! dedicated thread and polled from arbitrary caller threads.
//!
//! The crate verifies the sequential core of the bridge: the portable event
//! vocabulary, the pure translation of native window events into it, the
//! FIFO event queue with its polling discipline, the running flag's state
//! machine, and the extraction of a numeric OS handle from the supported
//! display-server handle kinds. The surrounding process machinery (the
//! dedicated event-loop thread, the per-cell locks, the windowing toolkit
//! calls) lives outside the verified library and drives it through the
//! decision functions exposed here.

pub mod bridge;
pub mod events;
pub mod handle;
pub mod laws;
pub mod translate;

pub use bridge::BridgeView;
pub use bridge::LoopDirective;
pub use bridge::Window;
pub use events::NativeEvent;
pub use events::ScrollDelta;
pub use events::WindowEvent;
pub use handle::HandleKind;
pub use handle::extract_handle;
pub use translate::translate;
