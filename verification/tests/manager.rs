//! Tests of the duplication-session state machine.

use dxgcap::manager::classify_acquire_error;
use dxgcap::manager::error_forces_reacquire;
use dxgcap::manager::AcquireFrameError;
use dxgcap::manager::DXGI_ERROR_ACCESS_LOST;
use dxgcap::manager::DXGI_ERROR_WAIT_TIMEOUT;
use dxgcap::manager::E_ACCESSDENIED;
use dxgcap::BGRA8;
use dxgcap::CaptureError;
use dxgcap::CaptureEvent;
use dxgcap::DXGIManager;
use dxgcap::DuplicatedOutput;
use dxgcap::MappedFrame;
use dxgcap::OutputDescriptor;
use dxgcap::Rotation;

fn descriptor(width: i32, height: i32, rotation: Rotation) -> OutputDescriptor {
    OutputDescriptor {
        left: 0,
        top: 0,
        right: width,
        bottom: height,
        rotation,
        attached_to_desktop: true,
        is_primary: true,
    }
}

fn session(id: u64) -> DuplicatedOutput {
    DuplicatedOutput {
        id,
        desc: descriptor(3, 2, Rotation::Identity),
    }
}

fn acquired_manager(id: u64) -> DXGIManager {
    DXGIManager::new(300, Some(session(id))).unwrap()
}

fn px(v: u8) -> BGRA8 {
    BGRA8 {
        b: v,
        g: v + 1,
        r: v + 2,
        a: v + 3,
    }
}

fn frame_3x2() -> MappedFrame {
    MappedFrame {
        pixels: (0..6).map(px).collect(),
        stride: 3,
    }
}

#[test]
fn construction_without_acquisition_fails() {
    let result = DXGIManager::new(300, None);
    assert_eq!(result.unwrap_err(), "Failed to acquire output duplication");
}

#[test]
fn construction_with_acquisition_targets_primary() {
    let manager = acquired_manager(1);
    assert_eq!(manager.get_capture_source_index(), 0);
    assert_eq!(manager.timeout_ms, 300);
    assert_eq!(manager.duplicated_output.unwrap().id, 1);
}

#[test]
fn set_timeout_is_a_pure_update() {
    let mut manager = acquired_manager(1);
    manager.set_timeout_ms(100);
    assert_eq!(manager.timeout_ms, 100);
    assert_eq!(manager.duplicated_output.unwrap().id, 1);
}

#[test]
fn retargeting_failure_reports_instead_of_aborting() {
    // An out-of-range capture-source index makes re-acquisition fail
    // deterministically: the manager reports it and is left unacquired.
    let mut manager = acquired_manager(1);
    let result = manager.set_capture_source_index(7, None);
    assert_eq!(result.unwrap_err(), "Failed to acquire output duplication");
    assert_eq!(manager.get_capture_source_index(), 7);
    assert!(manager.duplicated_output.is_none());
}

#[test]
fn retargeting_success_installs_the_new_session() {
    let mut manager = acquired_manager(1);
    let result = manager.set_capture_source_index(1, Some(session(2)));
    assert!(result.is_ok());
    assert_eq!(manager.get_capture_source_index(), 1);
    assert_eq!(manager.duplicated_output.unwrap().id, 2);
}

#[test]
fn unacquired_capture_fails_even_when_acquisition_succeeds() {
    // Acquisition only prepares the next call.
    let mut manager = DXGIManager {
        duplicated_output: None,
        capture_source_index: 0,
        timeout_ms: 300,
    };
    let result = manager.capture_frame(CaptureEvent::Acquired(Some(session(1))));
    assert_eq!(
        result.unwrap_err(),
        CaptureError::Fail("No valid duplicated output")
    );
    assert_eq!(manager.duplicated_output.unwrap().id, 1);
}

#[test]
fn unacquired_capture_reports_refresh_failure() {
    let mut manager = DXGIManager {
        duplicated_output: None,
        capture_source_index: 0,
        timeout_ms: 300,
    };
    let result = manager.capture_frame(CaptureEvent::Acquired(None));
    assert_eq!(result.unwrap_err(), CaptureError::RefreshFailure);
    assert!(manager.duplicated_output.is_none());
}

#[test]
fn access_lost_installs_the_fresh_session() {
    // The stale session that produced the error is never kept.
    let mut manager = acquired_manager(1);
    let result = manager.capture_frame(CaptureEvent::FrameError {
        hr: DXGI_ERROR_ACCESS_LOST,
        reacquired: Some(Some(session(2))),
    });
    assert_eq!(result.unwrap_err(), CaptureError::AccessLost);
    assert_eq!(manager.duplicated_output.unwrap().id, 2);
}

#[test]
fn access_lost_without_recovery_leaves_unacquired() {
    let mut manager = acquired_manager(1);
    let result = manager.capture_frame(CaptureEvent::FrameError {
        hr: DXGI_ERROR_ACCESS_LOST,
        reacquired: Some(None),
    });
    assert_eq!(result.unwrap_err(), CaptureError::RefreshFailure);
    assert!(manager.duplicated_output.is_none());
}

#[test]
fn timeout_leaves_the_session_untouched() {
    let mut manager = acquired_manager(1);
    let result = manager.capture_frame(CaptureEvent::FrameError {
        hr: DXGI_ERROR_WAIT_TIMEOUT,
        reacquired: None,
    });
    assert_eq!(result.unwrap_err(), CaptureError::Timeout);
    assert_eq!(manager.duplicated_output.unwrap().id, 1);
}

#[test]
fn access_denied_leaves_the_session_untouched() {
    let mut manager = acquired_manager(1);
    let result = manager.capture_frame(CaptureEvent::FrameError {
        hr: E_ACCESSDENIED,
        reacquired: None,
    });
    assert_eq!(result.unwrap_err(), CaptureError::AccessDenied);
    assert_eq!(manager.duplicated_output.unwrap().id, 1);
}

#[test]
fn generic_failure_with_recovery_reports_fail() {
    let mut manager = acquired_manager(1);
    let result = manager.capture_frame(CaptureEvent::FrameError {
        hr: -1,
        reacquired: Some(Some(session(2))),
    });
    assert_eq!(
        result.unwrap_err(),
        CaptureError::Fail("Failure when acquiring frame")
    );
    assert_eq!(manager.duplicated_output.unwrap().id, 2);
}

#[test]
fn generic_failure_without_recovery_reports_refresh_failure() {
    let mut manager = acquired_manager(1);
    let result = manager.capture_frame(CaptureEvent::FrameError {
        hr: -1,
        reacquired: Some(None),
    });
    assert_eq!(result.unwrap_err(), CaptureError::RefreshFailure);
    assert!(manager.duplicated_output.is_none());
}

#[test]
fn classification_of_raw_status_codes() {
    assert_eq!(
        classify_acquire_error(DXGI_ERROR_ACCESS_LOST),
        AcquireFrameError::AccessLost
    );
    assert_eq!(
        classify_acquire_error(E_ACCESSDENIED),
        AcquireFrameError::AccessDenied
    );
    assert_eq!(
        classify_acquire_error(DXGI_ERROR_WAIT_TIMEOUT),
        AcquireFrameError::Timeout
    );
    assert_eq!(classify_acquire_error(-1), AcquireFrameError::Other);
}

#[test]
fn recovery_classes_force_reacquisition() {
    assert!(error_forces_reacquire(AcquireFrameError::AccessLost));
    assert!(error_forces_reacquire(AcquireFrameError::Other));
    assert!(!error_forces_reacquire(AcquireFrameError::AccessDenied));
    assert!(!error_forces_reacquire(AcquireFrameError::Timeout));
}

#[test]
fn successful_capture_returns_pixels_and_dims() {
    let mut manager = acquired_manager(1);
    let result = manager.capture_frame(CaptureEvent::Frame(frame_3x2()));
    let (pixels, (width, height)) = result.unwrap();
    assert_eq!((width, height), (3, 2));
    assert_eq!(pixels, (0..6).map(px).collect::<Vec<_>>());
    // The session survives a successful capture.
    assert_eq!(manager.duplicated_output.unwrap().id, 1);
}

#[test]
fn rotated_session_swaps_the_reported_dims() {
    let mut manager = DXGIManager::new(
        300,
        Some(DuplicatedOutput {
            id: 1,
            desc: descriptor(3, 2, Rotation::Rotate90),
        }),
    )
    .unwrap();
    let result = manager.capture_frame(CaptureEvent::Frame(frame_3x2()));
    let (pixels, (width, height)) = result.unwrap();
    assert_eq!((width, height), (2, 3));
    assert_eq!(pixels.len(), 6);
}
