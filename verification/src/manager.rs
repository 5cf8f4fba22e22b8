//! The duplication-session lifecycle state machine.
//!
//! A manager is either unacquired or holds one acquired session. The driver
//! layer around the library performs the outside work — adapter enumeration,
//! device creation, duplication, frame acquisition, surface mapping — and
//! hands each outcome in as plain values; the manager takes every decision
//! on them: which error to surface, whether the session survives, and how a
//! delivered frame is extracted.

use vstd::prelude::*;

use crate::frame::Rotation;
use crate::frame::extract_spec;
use crate::frame::extract_frame;
use crate::frame::output_dimensions;
use crate::frame::rotated_height;
use crate::frame::rotated_width;
use crate::output::OutputDescriptor;
use crate::pixel::BGRA8;
use crate::pixel::bytes_of_pixels;
use crate::pixel::pixels_to_bytes;

verus! {

/// Possible errors when capturing.
#[derive(Copy, Clone, Debug, PartialEq, Eq)]
pub enum CaptureError {
    /// Could not duplicate output, access denied. Might be in protected
    /// fullscreen.
    AccessDenied,
    /// Access to the duplicated output was lost. Likely, the mode was
    /// changed, e.g. windowed to fullscreen.
    AccessLost,
    /// Error when trying to refresh outputs after some failure.
    RefreshFailure,
    /// Frame acquisition timed out.
    Timeout,
    /// General/unexpected failure.
    Fail(&'static str),
}

/// DXGI_ERROR_ACCESS_LOST (0x887A0026) as a signed status code.
pub const DXGI_ERROR_ACCESS_LOST: i32 = -2005270490;

/// E_ACCESSDENIED (0x80070005) as a signed status code.
pub const E_ACCESSDENIED: i32 = -2147024891;

/// DXGI_ERROR_WAIT_TIMEOUT (0x887A0027) as a signed status code.
pub const DXGI_ERROR_WAIT_TIMEOUT: i32 = -2005270489;

/// The failure classes of one frame acquisition. Raw driver status codes
/// become one of these at the session boundary and never cross it.
#[derive(Copy, Clone, Debug, PartialEq, Eq, Structural)]
pub enum AcquireFrameError {
    /// The duplication access was lost, e.g. after a mode switch.
    AccessLost,
    /// Access denied, e.g. protected fullscreen content.
    AccessDenied,
    /// No new frame arrived within the configured timeout.
    Timeout,
    /// Any other failing status code.
    Other,
}

/// The class of a raw driver status code.
pub open spec fn classify_spec(hr: i32) -> AcquireFrameError {
    if hr == DXGI_ERROR_ACCESS_LOST {
        AcquireFrameError::AccessLost
    } else if hr == E_ACCESSDENIED {
        AcquireFrameError::AccessDenied
    } else if hr == DXGI_ERROR_WAIT_TIMEOUT {
        AcquireFrameError::Timeout
    } else {
        AcquireFrameError::Other
    }
}

/// Sort a raw driver status code into the failure taxonomy; no raw code
/// crosses the session boundary.
pub fn classify_acquire_error(hr: i32) -> (class: AcquireFrameError)
    ensures
        class == classify_spec(hr),
{
    if hr == DXGI_ERROR_ACCESS_LOST {
        AcquireFrameError::AccessLost
    } else if hr == E_ACCESSDENIED {
        AcquireFrameError::AccessDenied
    } else if hr == DXGI_ERROR_WAIT_TIMEOUT {
        AcquireFrameError::Timeout
    } else {
        AcquireFrameError::Other
    }
}

/// Whether a failure class invalidates the session and forces a
/// re-acquisition attempt before the error is surfaced: access-lost and
/// generic failures do; access-denied and timeout leave the session alone.
pub open spec fn spec_error_forces_reacquire(class: AcquireFrameError) -> bool {
    class is AccessLost || class is Other
}

/// Exec twin of `spec_error_forces_reacquire`.
pub fn error_forces_reacquire(class: AcquireFrameError) -> (forces: bool)
    ensures
        forces == spec_error_forces_reacquire(class),
{
    match class {
        AcquireFrameError::AccessLost | AcquireFrameError::Other => true,
        AcquireFrameError::AccessDenied | AcquireFrameError::Timeout => false,
    }
}

/// One acquired duplication session, as the library sees it: the descriptor
/// of its output, and an identity distinguishing this acquisition from any
/// other. The driver layer that owns the native device, device-context,
/// output and duplication handles assigns a fresh identity to each
/// acquisition it performs.
#[derive(Copy, Clone, Debug, PartialEq, Eq, Structural)]
pub struct DuplicatedOutput {
    /// Identity of this acquisition.
    pub id: u64,
    /// Descriptor of the duplicated output.
    pub desc: OutputDescriptor,
}

impl DuplicatedOutput {
    /// The session's descriptor is one the driver can report.
    pub open spec fn wf(self) -> bool {
        self.desc.wf()
    }
}

/// One mapped surface, copied out of the driver's map/unmap scope: the
/// pixels of the captured frame, row-major in the source's unrotated
/// coordinate system, `stride` pixels per row. The row pitch may exceed the
/// image width; the padding pixels are never read.
#[derive(Debug)]
pub struct MappedFrame {
    /// The mapped pixels, `stride` per row.
    pub pixels: Vec<BGRA8>,
    /// Row pitch of the mapped surface, in pixels.
    pub stride: usize,
}

impl MappedFrame {
    /// The mapped data matches an output's geometry.
    pub open spec fn fits(self, desc: OutputDescriptor) -> bool {
        &&& desc.width() <= self.stride
        &&& self.stride * desc.height() == self.pixels@.len()
    }
}

/// What the driver layer answered during one capture call.
#[derive(Debug)]
pub enum CaptureEvent {
    /// The manager held no session, so a fresh acquisition pass was run at
    /// the current capture-source index; this is its outcome.
    Acquired(Option<DuplicatedOutput>),
    /// The session delivered a frame, copied out of the mapped surface.
    Frame(MappedFrame),
    /// Frame acquisition failed with raw status `hr`. Where the class of
    /// `hr` forces recovery, `reacquired` holds the outcome of the fresh
    /// acquisition pass that was run for it; otherwise no pass was run.
    FrameError { hr: i32, reacquired: Option<Option<DuplicatedOutput>> },
}

/// Manager of duplicated outputs: the capture-source index, the frame
/// timeout, and the currently acquired session, if any.
#[derive(Debug)]
pub struct DXGIManager {
    /// The acquired session, or `None` while unacquired.
    pub duplicated_output: Option<DuplicatedOutput>,
    /// 0 designates the primary output; k > 0 the k-th non-primary output.
    pub capture_source_index: usize,
    /// Timeout for one frame acquisition, in milliseconds.
    pub timeout_ms: u32,
}

/// The error surfaced for a failing frame acquisition, given the failure
/// class and the outcome of any re-acquisition run for it: the transient
/// classes pass through verbatim; the recovering classes report themselves
/// only where re-acquisition succeeded, and `RefreshFailure` where even
/// recovery failed.
pub open spec fn surfaced_error(
    class: AcquireFrameError,
    reacquired: Option<Option<DuplicatedOutput>>,
) -> CaptureError {
    match class {
        AcquireFrameError::AccessDenied => CaptureError::AccessDenied,
        AcquireFrameError::Timeout => CaptureError::Timeout,
        AcquireFrameError::AccessLost => match reacquired {
            Some(Some(_)) => CaptureError::AccessLost,
            _ => CaptureError::RefreshFailure,
        },
        AcquireFrameError::Other => match reacquired {
            Some(Some(_)) => CaptureError::Fail("Failure when acquiring frame"),
            _ => CaptureError::RefreshFailure,
        },
    }
}

/// The session held after a failing frame acquisition settles: untouched
/// for the transient classes, replaced by the re-acquisition outcome (or
/// gone) for the recovering ones.
pub open spec fn session_after_error(
    session: Option<DuplicatedOutput>,
    class: AcquireFrameError,
    reacquired: Option<Option<DuplicatedOutput>>,
) -> Option<DuplicatedOutput> {
    if spec_error_forces_reacquire(class) {
        match reacquired {
            Some(outcome) => outcome,
            None => session,
        }
    } else {
        session
    }
}

/// The error a capture call reports when it finds no session: acquisition
/// only prepares the next call, so the current call fails either way —
/// with a generic failure where acquisition succeeded, and with
/// `RefreshFailure` where it did not.
pub open spec fn unacquired_capture_error(outcome: Option<DuplicatedOutput>) -> CaptureError {
    match outcome {
        Some(_) => CaptureError::Fail("No valid duplicated output"),
        None => CaptureError::RefreshFailure,
    }
}

impl DXGIManager {
    /// Every session the manager holds was handed in well-formed.
    pub open spec fn wf(self) -> bool {
        self.duplicated_output matches Some(session) ==> session.wf()
    }

    /// The events a capture call can take in the current state: an
    /// acquisition outcome only while no session is held, frames and frame
    /// errors only while one is. A frame must fit the session's geometry,
    /// and a failing status comes with a re-acquisition outcome exactly
    /// when its class forces recovery.
    pub open spec fn valid_event(self, event: CaptureEvent) -> bool {
        match event {
            CaptureEvent::Acquired(outcome) => {
                &&& self.duplicated_output is None
                &&& (outcome matches Some(session) ==> session.wf())
            },
            CaptureEvent::Frame(frame) => {
                self.duplicated_output matches Some(session) && frame.fits(session.desc)
            },
            CaptureEvent::FrameError { hr, reacquired } => {
                &&& self.duplicated_output is Some
                &&& hr < 0
                &&& (reacquired is Some) == spec_error_forces_reacquire(classify_spec(hr))
                &&& (reacquired matches Some(Some(session)) ==> session.wf())
            },
        }
    }

    /// Construct a new manager with capture timeout. Construction
    /// immediately runs one acquisition pass (`acquisition` is its outcome,
    /// obtained at capture-source index 0): failure returns a descriptive
    /// error, not a partially-usable manager.
    pub fn new(timeout_ms: u32, acquisition: Option<DuplicatedOutput>) -> (result: Result<
        DXGIManager,
        &'static str,
    >)
        requires
            acquisition matches Some(session) ==> session.wf(),
        ensures
            match result {
                Ok(manager) => {
                    &&& acquisition is Some
                    &&& manager.duplicated_output == acquisition
                    &&& manager.capture_source_index == 0
                    &&& manager.timeout_ms == timeout_ms
                    &&& manager.wf()
                },
                Err(msg) => {
                    &&& acquisition is None
                    &&& msg@ == "Failed to acquire output duplication"@
                },
            },
    {
        match acquisition {
            Some(session) => Ok(
                DXGIManager {
                    duplicated_output: Some(session),
                    capture_source_index: 0,
                    timeout_ms,
                },
            ),
            None => Err("Failed to acquire output duplication"),
        }
    }

    /// Install the outcome of one acquisition pass over the adapters — the
    /// pass that enumerates desktop outputs, duplicates them and selects
    /// the target that `capture_source_index` designates. Any previously
    /// held session is dropped either way.
    pub fn acquire_output_duplication(&mut self, outcome: Option<DuplicatedOutput>) -> (result:
        Result<(), ()>)
        requires
            outcome matches Some(session) ==> session.wf(),
        ensures
            final(self).duplicated_output == outcome,
            final(self).capture_source_index == old(self).capture_source_index,
            final(self).timeout_ms == old(self).timeout_ms,
            final(self).wf(),
            result is Ok <==> outcome is Some,
    {
        self.duplicated_output = outcome;
        match &self.duplicated_output {
            Some(_) => Ok(()),
            None => Err(()),
        }
    }

    /// Set the index of the capture source to capture from, then install
    /// the outcome of the acquisition pass run for the new index. Where the
    /// pass found no selectable target, the manager is left unacquired and
    /// an error is returned — re-targeting never aborts.
    pub fn set_capture_source_index(&mut self, cs: usize, outcome: Option<DuplicatedOutput>) -> (
    result: Result<(), &'static str>)
        requires
            outcome matches Some(session) ==> session.wf(),
        ensures
            final(self).capture_source_index == cs,
            final(self).duplicated_output == outcome,
            final(self).timeout_ms == old(self).timeout_ms,
            final(self).wf(),
            result is Ok <==> outcome is Some,
            result matches Err(msg) ==> msg@ == "Failed to acquire output duplication"@,
    {
        self.capture_source_index = cs;
        self.duplicated_output = outcome;
        match &self.duplicated_output {
            Some(_) => Ok(()),
            None => Err("Failed to acquire output duplication"),
        }
    }

    /// Index of the capture source the manager targets.
    pub fn get_capture_source_index(&self) -> (cs: usize)
        ensures
            cs == self.capture_source_index,
    {
        self.capture_source_index
    }

    /// Set the timeout to use when capturing: a pure state update, no side
    /// effect.
    pub fn set_timeout_ms(&mut self, timeout_ms: u32)
        ensures
            final(self).timeout_ms == timeout_ms,
            final(self).duplicated_output == old(self).duplicated_output,
            final(self).capture_source_index == old(self).capture_source_index,
    {
        self.timeout_ms = timeout_ms;
    }

    /// Capture a frame.
    ///
    /// On success, return the pixels of the frame together with its width
    /// and height in the display's rotated orientation. On failure, return
    /// the `CaptureError` the failure taxonomy assigns: the session is
    /// untouched by `AccessDenied` and `Timeout`, and replaced by the
    /// re-acquisition outcome for `AccessLost` and generic failures.
    pub fn capture_frame(&mut self, event: CaptureEvent) -> (result: Result<
        (Vec<BGRA8>, (usize, usize)),
        CaptureError,
    >)
        requires
            old(self).wf(),
            old(self).valid_event(event),
        ensures
            final(self).wf(),
            final(self).capture_source_index == old(self).capture_source_index,
            final(self).timeout_ms == old(self).timeout_ms,
            match event {
                CaptureEvent::Acquired(outcome) => {
                    &&& final(self).duplicated_output == outcome
                    &&& result matches Err(e) && e == unacquired_capture_error(outcome)
                },
                CaptureEvent::Frame(frame) => {
                    &&& *final(self) == *old(self)
                    &&& old(self).duplicated_output matches Some(session)
                    &&& result matches Ok(r) && {
                        let desc = session.desc;
                        let sw = desc.width() as nat;
                        let sh = desc.height() as nat;
                        &&& r.0@ == extract_spec(
                            desc.rotation,
                            frame.pixels@,
                            frame.stride as nat,
                            sw,
                            sh,
                        )
                        &&& r.1.0 == rotated_width(desc.rotation, sw, sh)
                        &&& r.1.1 == rotated_height(desc.rotation, sw, sh)
                        &&& r.0@.len() == r.1.0 * r.1.1
                        &&& r.0@.len() <= frame.pixels@.len()
                    }
                },
                CaptureEvent::FrameError { hr, reacquired } => {
                    &&& final(self).duplicated_output == session_after_error(
                        old(self).duplicated_output,
                        classify_spec(hr),
                        reacquired,
                    )
                    &&& result matches Err(e) && e == surfaced_error(classify_spec(hr), reacquired)
                },
            },
    {
        match event {
            CaptureEvent::Acquired(outcome) => {
                self.duplicated_output = outcome;
                match &self.duplicated_output {
                    Some(_) => Err(CaptureError::Fail("No valid duplicated output")),
                    None => Err(CaptureError::RefreshFailure),
                }
            },
            CaptureEvent::Frame(frame) => {
                let desc = match &self.duplicated_output {
                    Some(session) => session.desc,
                    None => vstd::pervasive::unreached(),
                };
                let (src_width, src_height) = desc.dimensions();
                let pixels = extract_frame(
                    &frame.pixels,
                    frame.stride,
                    src_width,
                    src_height,
                    desc.rotation,
                );
                let (out_w, out_h) = output_dimensions(desc.rotation, src_width, src_height);
                proof {
                    vstd::arithmetic::mul::lemma_mul_is_commutative(
                        src_width as int,
                        src_height as int,
                    );
                    vstd::arithmetic::mul::lemma_mul_inequality(
                        src_width as int,
                        frame.stride as int,
                        src_height as int,
                    );
                }
                Ok((pixels, (out_w, out_h)))
            },
            CaptureEvent::FrameError { hr, reacquired } => {
                let class = classify_acquire_error(hr);
                if error_forces_reacquire(class) {
                    let outcome = match reacquired {
                        Some(outcome) => outcome,
                        None => vstd::pervasive::unreached(),
                    };
                    self.duplicated_output = outcome;
                    match (&self.duplicated_output, class) {
                        (Some(_), AcquireFrameError::AccessLost) => Err(CaptureError::AccessLost),
                        (Some(_), _) => Err(CaptureError::Fail("Failure when acquiring frame")),
                        (None, _) => Err(CaptureError::RefreshFailure),
                    }
                } else {
                    match class {
                        AcquireFrameError::AccessDenied => Err(CaptureError::AccessDenied),
                        _ => Err(CaptureError::Timeout),
                    }
                }
            },
        }
    }

    /// Capture a frame, byte-granular.
    ///
    /// On success, return the pixel components of the frame — the same
    /// bytes as `capture_frame`, four per pixel in channel order — together
    /// with its width and height. Failures behave exactly as in
    /// `capture_frame`.
    pub fn capture_frame_components(&mut self, event: CaptureEvent) -> (result: Result<
        (Vec<u8>, (usize, usize)),
        CaptureError,
    >)
        requires
            old(self).wf(),
            old(self).valid_event(event),
            event matches CaptureEvent::Frame(frame) ==> 4 * frame.pixels@.len() <= usize::MAX,
        ensures
            final(self).wf(),
            final(self).capture_source_index == old(self).capture_source_index,
            final(self).timeout_ms == old(self).timeout_ms,
            match event {
                CaptureEvent::Acquired(outcome) => {
                    &&& final(self).duplicated_output == outcome
                    &&& result matches Err(e) && e == unacquired_capture_error(outcome)
                },
                CaptureEvent::Frame(frame) => {
                    &&& *final(self) == *old(self)
                    &&& old(self).duplicated_output matches Some(session)
                    &&& result matches Ok(r) && {
                        let desc = session.desc;
                        let sw = desc.width() as nat;
                        let sh = desc.height() as nat;
                        &&& r.0@ == bytes_of_pixels(
                            extract_spec(
                                desc.rotation,
                                frame.pixels@,
                                frame.stride as nat,
                                sw,
                                sh,
                            ),
                        )
                        &&& r.1.0 == rotated_width(desc.rotation, sw, sh)
                        &&& r.1.1 == rotated_height(desc.rotation, sw, sh)
                        &&& r.0@.len() == 4 * r.1.0 * r.1.1
                    }
                },
                CaptureEvent::FrameError { hr, reacquired } => {
                    &&& final(self).duplicated_output == session_after_error(
                        old(self).duplicated_output,
                        classify_spec(hr),
                        reacquired,
                    )
                    &&& result matches Err(e) && e == surfaced_error(classify_spec(hr), reacquired)
                },
            },
    {
        let ghost frame_len: nat = match &event {
            CaptureEvent::Frame(frame) => frame.pixels@.len(),
            _ => 0,
        };
        match self.capture_frame(event) {
            Ok((pixels, dims)) => {
                proof {
                    assert(pixels@.len() <= frame_len);
                    assert(4 * pixels@.len() <= usize::MAX);
                }
                let bytes = pixels_to_bytes(&pixels);
                proof {
                    assert(4 * ((dims.0 * dims.1) as int) == 4 * dims.0 * dims.1)
                        by (nonlinear_arith);
                }
                Ok((bytes, dims))
            },
            Err(e) => Err(e),
        }
    }
}

/// After a capture surfaced `AccessLost`, the manager never holds the stale
/// session that produced the error: its session is exactly the outcome of
/// the fresh re-acquisition pass run for the failure — a fresh session or
/// none at all.
pub proof fn lemma_access_lost_never_stale(
    session: Option<DuplicatedOutput>,
    hr: i32,
    outcome: Option<DuplicatedOutput>,
)
    requires
        classify_spec(hr) is AccessLost,
    ensures
        session_after_error(session, classify_spec(hr), Some(outcome)) == outcome,
        surfaced_error(classify_spec(hr), Some(outcome)) == (match outcome {
            Some(_) => CaptureError::AccessLost,
            None => CaptureError::RefreshFailure,
        }),
{
}

/// A `Timeout` or `AccessDenied` result leaves the existing session
/// unchanged: the same identity before and after the call.
pub proof fn lemma_transient_error_keeps_session(
    session: Option<DuplicatedOutput>,
    hr: i32,
    reacquired: Option<Option<DuplicatedOutput>>,
)
    requires
        classify_spec(hr) is Timeout || classify_spec(hr) is AccessDenied,
    ensures
        session_after_error(session, classify_spec(hr), reacquired) == session,
        surfaced_error(classify_spec(hr), reacquired) == (if classify_spec(hr) is Timeout {
            CaptureError::Timeout
        } else {
            CaptureError::AccessDenied
        }),
{
}

} // verus!
