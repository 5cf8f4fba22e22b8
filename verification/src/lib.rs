//! Desktop-duplication screen capture.
//!
//! The library models the lifecycle of a duplication session — output
//! discovery, capture-source selection, acquisition, failure classification
//! and recovery — together with the rotation-aware extraction of a mapped
//! frame into a fixed 4-byte-per-pixel buffer. The graphics driver itself is
//! an external collaborator: its answers enter the library as plain values,
//! and every decision taken on them is verified.

use vstd::prelude::*;

pub mod frame;
pub mod manager;
pub mod output;
pub mod pixel;

pub use frame::Rotation;
pub use manager::AcquireFrameError;
pub use manager::CaptureError;
pub use manager::CaptureEvent;
pub use manager::DXGIManager;
pub use manager::DuplicatedOutput;
pub use manager::MappedFrame;
pub use output::OutputDescriptor;
pub use pixel::BGRA8;

verus! {

/// Check whether the HRESULT represents a failure.
pub fn hr_failed(hr: i32) -> (failed: bool)
    ensures
        failed == (hr < 0),
{
    hr < 0
}

} // verus!
