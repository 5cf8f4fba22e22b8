//! Tests of the rotation-aware frame extraction.

use dxgcap::frame::extract_frame;
use dxgcap::BGRA8;
use dxgcap::Rotation;

fn px(v: u8) -> BGRA8 {
    BGRA8 {
        b: v,
        g: v.wrapping_add(1),
        r: v.wrapping_add(2),
        a: v.wrapping_add(3),
    }
}

fn markers(n: u8) -> Vec<BGRA8> {
    (0..n).map(px).collect()
}

#[test]
fn identity_extraction_returns_buffer() {
    // 3x2 source, no pitch padding.
    let mapped = markers(6);
    let out = extract_frame(&mapped, 3, 3, 2, Rotation::Identity);
    assert_eq!(out, mapped);
}

#[test]
fn unspecified_behaves_like_identity() {
    let mapped = markers(6);
    let out = extract_frame(&mapped, 3, 3, 2, Rotation::Unspecified);
    assert_eq!(out, mapped);
}

#[test]
fn identity_skips_pitch_padding() {
    // 2x2 image inside rows of pitch 3: the third pixel of each row is padding.
    let mapped = vec![px(0), px(1), px(99), px(2), px(3), px(98)];
    let out = extract_frame(&mapped, 3, 2, 2, Rotation::Identity);
    assert_eq!(out, vec![px(0), px(1), px(2), px(3)]);
}

#[test]
fn rotate90_exact_transform() {
    // Source 3 wide, 2 high: rows [a b c] / [d e f].
    let mapped = markers(6);
    let (a, b, c, d, e, f) = (px(0), px(1), px(2), px(3), px(4), px(5));
    let out = extract_frame(&mapped, 3, 3, 2, Rotation::Rotate90);
    // Destination is 2 wide, 3 high: dst[r][c] == src[src_h - 1 - c][r].
    assert_eq!(out, vec![d, a, e, b, f, c]);
}

#[test]
fn rotate180_exact_transform() {
    let mapped = markers(6);
    let (a, b, c, d, e, f) = (px(0), px(1), px(2), px(3), px(4), px(5));
    let out = extract_frame(&mapped, 3, 3, 2, Rotation::Rotate180);
    // Full reverse in both axes.
    assert_eq!(out, vec![f, e, d, c, b, a]);
}

#[test]
fn rotate270_exact_transform() {
    let mapped = markers(6);
    let (a, b, c, d, e, f) = (px(0), px(1), px(2), px(3), px(4), px(5));
    let out = extract_frame(&mapped, 3, 3, 2, Rotation::Rotate270);
    // Destination is 2 wide, 3 high: dst[r][c] == src[c][src_w - 1 - r].
    assert_eq!(out, vec![c, f, b, e, a, d]);
}

#[test]
fn rotate180_twice_is_identity() {
    let mapped = markers(12);
    let once = extract_frame(&mapped, 4, 4, 3, Rotation::Rotate180);
    let twice = extract_frame(&once, 4, 4, 3, Rotation::Rotate180);
    assert_eq!(twice, mapped);
}

#[test]
fn rotate90_then_270_is_identity_on_square() {
    let mapped = markers(9);
    let turned = extract_frame(&mapped, 3, 3, 3, Rotation::Rotate90);
    let back = extract_frame(&turned, 3, 3, 3, Rotation::Rotate270);
    assert_eq!(back, mapped);
}

#[test]
fn rotate270_then_90_is_identity_on_square() {
    let mapped = markers(9);
    let turned = extract_frame(&mapped, 3, 3, 3, Rotation::Rotate270);
    let back = extract_frame(&turned, 3, 3, 3, Rotation::Rotate90);
    assert_eq!(back, mapped);
}

#[test]
fn rotate90_then_270_is_identity_on_rectangle() {
    // The quarter turns invert each other on rectangles too: the turned
    // frame is 2 wide and 3 high, and turning it back restores the source.
    let mapped = markers(6);
    let turned = extract_frame(&mapped, 3, 3, 2, Rotation::Rotate90);
    let back = extract_frame(&turned, 2, 2, 3, Rotation::Rotate270);
    assert_eq!(back, mapped);
}

#[test]
fn extraction_of_empty_frame() {
    let mapped: Vec<BGRA8> = Vec::new();
    let out = extract_frame(&mapped, 0, 0, 0, Rotation::Rotate90);
    assert_eq!(out.len(), 0);
}
