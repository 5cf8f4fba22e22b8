//! The pixel layout shared by every captured frame.

use vstd::prelude::*;

verus! {

/// Color represented by additive channels: Blue (b), Green (g), Red (r), and
/// Alpha (a). Four bytes, in that channel order; the byte layout is part of
/// the external contract.
#[derive(Copy, Clone, Debug, PartialOrd, PartialEq, Eq, Ord, Structural)]
pub struct BGRA8 {
    pub b: u8,
    pub g: u8,
    pub r: u8,
    pub a: u8,
}

/// The `k`-th byte of a pixel, in channel order b, g, r, a.
pub open spec fn pixel_byte(p: BGRA8, k: int) -> u8 {
    if k == 0 {
        p.b
    } else if k == 1 {
        p.g
    } else if k == 2 {
        p.r
    } else {
        p.a
    }
}

/// The flat byte sequence that encodes a pixel sequence: four bytes per
/// pixel, each pixel's bytes in channel order.
pub open spec fn bytes_of_pixels(pixels: Seq<BGRA8>) -> Seq<u8> {
    Seq::new(pixels.len() * 4, |i: int| pixel_byte(pixels[i / 4], i % 4))
}

/// The byte sequence groups back into the pixel sequence: it is four times
/// as long, and the `i`-th group of four bytes holds exactly the channels of
/// the `i`-th pixel. Applied to an extracted frame, this relates the two
/// capture encodings: the components buffer holds byte for byte the pixels
/// that the pixel buffer holds.
pub proof fn lemma_bytes_group_into_pixels(pixels: Seq<BGRA8>)
    ensures
        bytes_of_pixels(pixels).len() == 4 * pixels.len(),
        forall|i: int|
            0 <= i < pixels.len() ==> {
                &&& bytes_of_pixels(pixels)[4 * i] == pixels[i].b
                &&& bytes_of_pixels(pixels)[4 * i + 1] == pixels[i].g
                &&& bytes_of_pixels(pixels)[4 * i + 2] == pixels[i].r
                &&& bytes_of_pixels(pixels)[4 * i + 3] == pixels[i].a
            },
{
    assert forall|i: int| 0 <= i < pixels.len() implies {
        &&& bytes_of_pixels(pixels)[4 * i] == pixels[i].b
        &&& bytes_of_pixels(pixels)[4 * i + 1] == pixels[i].g
        &&& bytes_of_pixels(pixels)[4 * i + 2] == pixels[i].r
        &&& bytes_of_pixels(pixels)[4 * i + 3] == pixels[i].a
    } by {
        assert((4 * i) / 4 == i && (4 * i) % 4 == 0) by (nonlinear_arith);
        assert((4 * i + 1) / 4 == i && (4 * i + 1) % 4 == 1) by (nonlinear_arith);
        assert((4 * i + 2) / 4 == i && (4 * i + 2) % 4 == 2) by (nonlinear_arith);
        assert((4 * i + 3) / 4 == i && (4 * i + 3) % 4 == 3) by (nonlinear_arith);
    }
}

/// Flatten a pixel buffer into the byte buffer with the same content,
/// differing only in element width.
pub fn pixels_to_bytes(pixels: &Vec<BGRA8>) -> (bytes: Vec<u8>)
    requires
        4 * pixels@.len() <= usize::MAX,
    ensures
        bytes@ == bytes_of_pixels(pixels@),
{
    let mut bytes: Vec<u8> = Vec::new();
    let mut i: usize = 0;
    while i < pixels.len()
        invariant
            i <= pixels@.len(),
            4 * pixels@.len() <= usize::MAX,
            bytes@.len() == 4 * i,
            forall|j: int| 0 <= j < bytes@.len() ==> bytes@[j] == pixel_byte(pixels@[j / 4], j % 4),
        decreases pixels@.len() - i,
    {
        let p = pixels[i];
        bytes.push(p.b);
        bytes.push(p.g);
        bytes.push(p.r);
        bytes.push(p.a);
        proof {
            assert forall|j: int| 0 <= j < bytes@.len() implies bytes@[j] == pixel_byte(
                pixels@[j / 4],
                j % 4,
            ) by {
                if j >= 4 * i {
                    vstd::arithmetic::div_mod::lemma_fundamental_div_mod_converse(
                        j,
                        4,
                        i as int,
                        j - 4 * i,
                    );
                }
            }
        }
        i = i + 1;
    }
    proof {
        assert(bytes@ =~= bytes_of_pixels(pixels@));
    }
    bytes
}

} // verus!
