//! Rotation-aware extraction of a mapped frame.
//!
//! A mapped surface is laid out row-major in the source's unrotated
//! coordinate system, with a row pitch (`stride`) that may exceed the image
//! width. Extraction reindexes it into the display's rotated orientation,
//! one of four quarter-turn states.

use vstd::arithmetic::div_mod::lemma_fundamental_div_mod;
use vstd::arithmetic::div_mod::lemma_fundamental_div_mod_converse;
use vstd::prelude::*;

use crate::pixel::BGRA8;

verus! {

/// Rotation state of an output, as the driver reports it. `Unspecified` is
/// treated exactly like `Identity` during extraction.
#[derive(Copy, Clone, Debug, PartialEq, Eq, Structural)]
pub enum Rotation {
    Unspecified,
    Identity,
    Rotate90,
    Rotate180,
    Rotate270,
}

/// Width of the extracted frame: a quarter-turn rotation swaps the source
/// axes, so the logical orientation reports the source height as its width.
pub open spec fn rotated_width(rotation: Rotation, src_width: nat, src_height: nat) -> nat {
    match rotation {
        Rotation::Rotate90 | Rotation::Rotate270 => src_height,
        _ => src_width,
    }
}

/// Height of the extracted frame; see `rotated_width`.
pub open spec fn rotated_height(rotation: Rotation, src_width: nat, src_height: nat) -> nat {
    match rotation {
        Rotation::Rotate90 | Rotation::Rotate270 => src_width,
        _ => src_height,
    }
}

/// Index into the mapped buffer of the source pixel that lands at
/// destination coordinate (`row`, `col`). `stride` is the mapped row pitch
/// in pixels and `src_width`/`src_height` are the unrotated source
/// dimensions; the destination coordinates are in the rotated orientation,
/// whose dimensions are the `rotated_width`/`rotated_height` of the source.
pub open spec fn source_index(
    rotation: Rotation,
    stride: nat,
    src_width: nat,
    src_height: nat,
    row: int,
    col: int,
) -> int {
    match rotation {
        Rotation::Unspecified | Rotation::Identity => row * stride + col,
        Rotation::Rotate90 => (src_height - 1 - col) * stride + row,
        Rotation::Rotate180 => (src_height - 1 - row) * stride + (src_width - 1 - col),
        Rotation::Rotate270 => col * stride + (src_width - 1 - row),
    }
}

/// The extracted frame: a row-major buffer in the rotated orientation whose
/// pixel at (row, col) is the mapped pixel the rotation sends there.
pub open spec fn extract_spec(
    rotation: Rotation,
    mapped: Seq<BGRA8>,
    stride: nat,
    src_width: nat,
    src_height: nat,
) -> Seq<BGRA8> {
    let out_w = rotated_width(rotation, src_width, src_height) as int;
    Seq::new(
        src_width * src_height,
        |i: int|
            mapped[source_index(
                rotation,
                stride,
                src_width,
                src_height,
                i / out_w,
                i % out_w,
            )],
    )
}

/// The rotated output dimensions, as a pair (width, height).
pub fn output_dimensions(rotation: Rotation, src_width: usize, src_height: usize) -> (dims: (
    usize,
    usize,
))
    ensures
        dims.0 == rotated_width(rotation, src_width as nat, src_height as nat),
        dims.1 == rotated_height(rotation, src_width as nat, src_height as nat),
{
    match rotation {
        Rotation::Rotate90 | Rotation::Rotate270 => (src_height, src_width),
        _ => (src_width, src_height),
    }
}

/// Index into the mapped buffer for destination coordinate (`row`, `col`),
/// bounded by the mapped rows it may touch.
fn mapped_index(
    rotation: Rotation,
    stride: usize,
    src_width: usize,
    src_height: usize,
    row: usize,
    col: usize,
) -> (idx: usize)
    requires
        src_width <= stride,
        stride * src_height <= usize::MAX,
        row < rotated_height(rotation, src_width as nat, src_height as nat),
        col < rotated_width(rotation, src_width as nat, src_height as nat),
    ensures
        idx == source_index(
            rotation,
            stride as nat,
            src_width as nat,
            src_height as nat,
            row as int,
            col as int,
        ),
        idx < stride * src_height,
{
    match rotation {
        Rotation::Unspecified | Rotation::Identity => {
            proof {
                assert(row * stride + col < stride * src_height) by (nonlinear_arith)
                    requires
                        row < src_height,
                        col < src_width,
                        src_width <= stride,
                ;
            }
            row * stride + col
        },
        Rotation::Rotate90 => {
            proof {
                assert((src_height - 1 - col) * stride + row < stride * src_height)
                    by (nonlinear_arith)
                    requires
                        col < src_height,
                        row < src_width,
                        src_width <= stride,
                ;
            }
            (src_height - 1 - col) * stride + row
        },
        Rotation::Rotate180 => {
            proof {
                assert((src_height - 1 - row) * stride + (src_width - 1 - col) < stride
                    * src_height) by (nonlinear_arith)
                    requires
                        row < src_height,
                        col < src_width,
                        src_width <= stride,
                ;
            }
            (src_height - 1 - row) * stride + (src_width - 1 - col)
        },
        Rotation::Rotate270 => {
            proof {
                assert(col * stride + (src_width - 1 - row) < stride * src_height)
                    by (nonlinear_arith)
                    requires
                        col < src_height,
                        row < src_width,
                        src_width <= stride,
                ;
            }
            col * stride + (src_width - 1 - row)
        },
    }
}

/// Extract a mapped frame into the display's rotated orientation.
///
/// Only the leading `src_width` pixels of each of the `src_height` mapped
/// rows are image content; the rest of each `stride`-sized row is pitch
/// padding and is never read.
pub fn extract_frame(
    mapped: &Vec<BGRA8>,
    stride: usize,
    src_width: usize,
    src_height: usize,
    rotation: Rotation,
) -> (frame: Vec<BGRA8>)
    requires
        src_width <= stride,
        stride * src_height <= mapped@.len(),
    ensures
        frame@ == extract_spec(
            rotation,
            mapped@,
            stride as nat,
            src_width as nat,
            src_height as nat,
        ),
        frame@.len() == src_width * src_height,
{
    let ghost goal = extract_spec(
        rotation,
        mapped@,
        stride as nat,
        src_width as nat,
        src_height as nat,
    );
    let (out_w, out_h) = output_dimensions(rotation, src_width, src_height);
    let mapped_len = mapped.len();
    proof {
        // The mapped rows all fit in the vector, so their total size fits
        // the machine word.
        assert(stride * src_height <= mapped_len);
        vstd::arithmetic::mul::lemma_mul_is_commutative(src_width as int, src_height as int);
        assert(out_w * out_h == src_width * src_height);
    }
    let mut frame: Vec<BGRA8> = Vec::new();
    let mut row: usize = 0;
    while row < out_h
        invariant
            src_width <= stride,
            stride * src_height <= mapped@.len(),
            stride * src_height <= usize::MAX,
            out_w == rotated_width(rotation, src_width as nat, src_height as nat),
            out_h == rotated_height(rotation, src_width as nat, src_height as nat),
            out_w * out_h == src_width * src_height,
            goal == extract_spec(
                rotation,
                mapped@,
                stride as nat,
                src_width as nat,
                src_height as nat,
            ),
            row <= out_h,
            frame@.len() == row * out_w,
            forall|i: int| 0 <= i < frame@.len() ==> frame@[i] == goal[i],
        decreases out_h - row,
    {
        let mut col: usize = 0;
        while col < out_w
            invariant
                src_width <= stride,
                stride * src_height <= mapped@.len(),
                stride * src_height <= usize::MAX,
                out_w == rotated_width(rotation, src_width as nat, src_height as nat),
                out_h == rotated_height(rotation, src_width as nat, src_height as nat),
                out_w * out_h == src_width * src_height,
                goal == extract_spec(
                    rotation,
                    mapped@,
                    stride as nat,
                    src_width as nat,
                    src_height as nat,
                ),
                row < out_h,
                col <= out_w,
                frame@.len() == row * out_w + col,
                forall|i: int| 0 <= i < frame@.len() ==> frame@[i] == goal[i],
            decreases out_w - col,
        {
            let idx = mapped_index(rotation, stride, src_width, src_height, row, col);
            frame.push(mapped[idx]);
            proof {
                let i = row * out_w + col;
                assert(i < out_w * out_h) by (nonlinear_arith)
                    requires
                        i == row * out_w + col,
                        row < out_h,
                        col < out_w,
                ;
                lemma_fundamental_div_mod_converse(i, out_w as int, row as int, col as int);
                assert(goal[i] == mapped@[idx as int]);
            }
            col = col + 1;
        }
        proof {
            assert((row + 1) * out_w == row * out_w + out_w) by (nonlinear_arith);
        }
        row = row + 1;
    }
    proof {
        assert(frame@ =~= goal);
    }
    frame
}

/// Decompose a flat index of a row-major buffer of width `w` and height `h`
/// into its (row, col) coordinate.
proof fn lemma_index_decompose(i: int, w: nat, h: nat)
    requires
        0 < w,
        0 <= i < w * h,
    ensures
        0 <= i / (w as int) < h,
        0 <= i % (w as int) < w,
        i == (i / (w as int)) * w + i % (w as int),
{
    lemma_fundamental_div_mod(i, w as int);
    assert((w as int) * (i / (w as int)) == (i / (w as int)) * (w as int)) by (nonlinear_arith);
    assert(0 <= i % (w as int) < w) by (nonlinear_arith)
        requires
            0 < w,
            i == (w as int) * (i / (w as int)) + i % (w as int),
            0 <= i,
    ;
    assert(0 <= i / (w as int) < h) by (nonlinear_arith)
        requires
            0 < w,
            0 <= i < w * h,
            i == (w as int) * (i / (w as int)) + i % (w as int),
            0 <= i % (w as int) < w,
    ;
}

/// Extraction with the identity rotation and no pitch padding is the
/// identity: the frame comes back unchanged.
pub proof fn lemma_extract_identity(mapped: Seq<BGRA8>, src_width: nat, src_height: nat)
    requires
        mapped.len() == src_width * src_height,
    ensures
        extract_spec(Rotation::Identity, mapped, src_width, src_width, src_height) == mapped,
{
    let e = extract_spec(Rotation::Identity, mapped, src_width, src_width, src_height);
    assert forall|i: int| 0 <= i < e.len() implies e[i] == mapped[i] by {
        assert(0 < src_width && 0 < src_height) by (nonlinear_arith)
            requires
                0 <= i < src_width * src_height,
        ;
        lemma_index_decompose(i, src_width, src_height);
        let r = i / (src_width as int);
        let c = i % (src_width as int);
        assert(source_index(Rotation::Identity, src_width, src_width, src_height, r, c) == i);
    }
    assert(e =~= mapped);
}

/// Rotating a frame by 180 degrees twice returns the original frame.
pub proof fn lemma_rotate180_twice(mapped: Seq<BGRA8>, src_width: nat, src_height: nat)
    requires
        mapped.len() == src_width * src_height,
    ensures
        extract_spec(
            Rotation::Rotate180,
            extract_spec(Rotation::Rotate180, mapped, src_width, src_width, src_height),
            src_width,
            src_width,
            src_height,
        ) == mapped,
{
    let a = extract_spec(Rotation::Rotate180, mapped, src_width, src_width, src_height);
    let b = extract_spec(Rotation::Rotate180, a, src_width, src_width, src_height);
    assert forall|i: int| 0 <= i < b.len() implies b[i] == mapped[i] by {
        assert(0 < src_width && 0 < src_height) by (nonlinear_arith)
            requires
                0 <= i < src_width * src_height,
        ;
        lemma_index_decompose(i, src_width, src_height);
        let r = i / (src_width as int);
        let c = i % (src_width as int);
        let j = (src_height - 1 - r) * src_width + (src_width - 1 - c);
        assert(0 <= j < src_width * src_height) by (nonlinear_arith)
            requires
                j == (src_height - 1 - r) * src_width + (src_width - 1 - c),
                0 <= r < src_height,
                0 <= c < src_width,
        ;
        assert(b[i] == a[j]);
        lemma_fundamental_div_mod_converse(
            j,
            src_width as int,
            src_height - 1 - r,
            src_width - 1 - c,
        );
        assert(a[j] == mapped[source_index(
            Rotation::Rotate180,
            src_width,
            src_width,
            src_height,
            src_height - 1 - r,
            src_width - 1 - c,
        )]);
        assert(source_index(
            Rotation::Rotate180,
            src_width,
            src_width,
            src_height,
            src_height - 1 - r,
            src_width - 1 - c,
        ) == r * src_width + c);
        assert(b[i] == mapped[i]);
    }
    assert(b =~= mapped);
}

/// A 90-degree extraction followed by a 270-degree extraction of the result
/// returns the original frame: the two quarter turns are mutual inverses.
pub proof fn lemma_rotate90_then_270(mapped: Seq<BGRA8>, src_width: nat, src_height: nat)
    requires
        mapped.len() == src_width * src_height,
    ensures
        extract_spec(
            Rotation::Rotate270,
            extract_spec(Rotation::Rotate90, mapped, src_width, src_width, src_height),
            src_height,
            src_height,
            src_width,
        ) == mapped,
{
    let a = extract_spec(Rotation::Rotate90, mapped, src_width, src_width, src_height);
    let b = extract_spec(
        Rotation::Rotate270,
        a,
        src_height,
        src_height,
        src_width,
    );
    assert(b.len() == src_height * src_width);
    assert(src_height * src_width == src_width * src_height) by (nonlinear_arith);
    assert forall|i: int| 0 <= i < b.len() implies b[i] == mapped[i] by {
        assert(0 < src_width && 0 < src_height) by (nonlinear_arith)
            requires
                0 <= i < src_width * src_height,
        ;
        lemma_index_decompose(i, src_width, src_height);
        let r = i / (src_width as int);
        let c = i % (src_width as int);
        let j = c * src_height + (src_height - 1 - r);
        assert(0 <= j < src_width * src_height) by (nonlinear_arith)
            requires
                j == c * src_height + (src_height - 1 - r),
                0 <= r < src_height,
                0 <= c < src_width,
        ;
        assert(b[i] == a[j]);
        lemma_fundamental_div_mod_converse(j, src_height as int, c, src_height - 1 - r);
        assert(a[j] == mapped[source_index(
            Rotation::Rotate90,
            src_width,
            src_width,
            src_height,
            c,
            src_height - 1 - r,
        )]);
        assert(source_index(
            Rotation::Rotate90,
            src_width,
            src_width,
            src_height,
            c,
            src_height - 1 - r,
        ) == r * src_width + c);
        assert(b[i] == mapped[i]);
    }
    assert(b =~= mapped);
}

/// A 270-degree extraction followed by a 90-degree extraction of the result
/// returns the original frame: the inverse composition of
/// `lemma_rotate90_then_270`.
pub proof fn lemma_rotate270_then_90(mapped: Seq<BGRA8>, src_width: nat, src_height: nat)
    requires
        mapped.len() == src_width * src_height,
    ensures
        extract_spec(
            Rotation::Rotate90,
            extract_spec(Rotation::Rotate270, mapped, src_width, src_width, src_height),
            src_height,
            src_height,
            src_width,
        ) == mapped,
{
    let a = extract_spec(Rotation::Rotate270, mapped, src_width, src_width, src_height);
    let b = extract_spec(Rotation::Rotate90, a, src_height, src_height, src_width);
    assert(src_height * src_width == src_width * src_height) by (nonlinear_arith);
    assert forall|i: int| 0 <= i < b.len() implies b[i] == mapped[i] by {
        assert(0 < src_width && 0 < src_height) by (nonlinear_arith)
            requires
                0 <= i < src_width * src_height,
        ;
        lemma_index_decompose(i, src_width, src_height);
        let r = i / (src_width as int);
        let c = i % (src_width as int);
        let j = (src_width - 1 - c) * src_height + r;
        assert(0 <= j < src_width * src_height) by (nonlinear_arith)
            requires
                j == (src_width - 1 - c) * src_height + r,
                0 <= r < src_height,
                0 <= c < src_width,
        ;
        assert(b[i] == a[j]);
        lemma_fundamental_div_mod_converse(j, src_height as int, src_width - 1 - c, r);
        assert(a[j] == mapped[source_index(
            Rotation::Rotate270,
            src_width,
            src_width,
            src_height,
            src_width - 1 - c,
            r,
        )]);
        assert(source_index(
            Rotation::Rotate270,
            src_width,
            src_width,
            src_height,
            src_width - 1 - c,
            r,
        ) == r * src_width + c);
        assert(b[i] == mapped[i]);
    }
    assert(b =~= mapped);
}

} // verus!
