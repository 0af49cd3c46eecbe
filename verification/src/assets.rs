//! Grouping a decoded texture's flat bytes into pixels.
//!
//! The driver decodes the image file; what arrives here is the flat
//! row-major byte buffer together with its dimensions. This module checks
//! that the buffer's length matches the dimensions and groups every four
//! bytes into one red-green-blue-alpha pixel, in order.

use vstd::prelude::*;

verus! {

/// A decoded texture: row-major pixels, top row first, four bytes each.
pub struct Assets {
    pub tex: Vec<[u8; 4]>,
    pub width: u32,
    pub height: u32,
}

/// Whether `tex` is exactly the pixels of the flat buffer `bytes`: one pixel
/// per four consecutive bytes, in order.
pub open spec fn pixels_match(tex: Seq<[u8; 4]>, bytes: Seq<u8>) -> bool {
    &&& bytes.len() == 4 * tex.len()
    &&& forall|p: int|
        0 <= p < tex.len() ==> #[trigger] tex[p][0] == bytes[4 * p] && tex[p][1] == bytes[4 * p + 1]
            && tex[p][2] == bytes[4 * p + 2] && tex[p][3] == bytes[4 * p + 3]
}

impl Assets {
    /// Whether the pixel buffer agrees with the recorded dimensions.
    pub open spec fn well_formed(self) -> bool {
        self.tex.len() == self.width * self.height
    }

    /// Groups a flat red-green-blue-alpha byte buffer of the given
    /// dimensions into pixels. Returns the texture exactly when the buffer
    /// holds four bytes per pixel of a `width` by `height` image, and
    /// nothing otherwise.
    pub fn from_rgba_bytes(bytes: &Vec<u8>, width: u32, height: u32) -> (r: Option<Assets>)
        ensures
            r is Some <==> bytes@.len() == 4 * ((width as int) * (height as int)),
            r matches Some(a) ==> {
                &&& a.width == width
                &&& a.height == height
                &&& a.well_formed()
                &&& pixels_match(a.tex@, bytes@)
            },
    {
        proof {
            assert((width as int) * (height as int) < 0x1_0000_0000_0000_0000) by (nonlinear_arith)
                requires
                    width < 0x1_0000_0000,
                    height < 0x1_0000_0000,
            ;
        }
        let pixel_count: u128 = (width as u128) * (height as u128);
        if (bytes.len() as u128) != 4 * pixel_count {
            return None;
        }
        let n: usize = bytes.len() / 4;
        let mut tex: Vec<[u8; 4]> = Vec::new();
        let mut p: usize = 0;
        while p < n
            invariant
                4 * n == bytes@.len(),
                4 * n <= usize::MAX,
                p <= n,
                tex@.len() == p,
                forall|q: int|
                    0 <= q < p ==> #[trigger] tex@[q][0] == bytes@[4 * q] && tex@[q][1] == bytes@[
                        4 * q + 1
                    ] && tex@[q][2] == bytes@[4 * q + 2] && tex@[q][3] == bytes@[4 * q + 3],
            decreases n - p,
        {
            let pixel: [u8; 4] = [bytes[4 * p], bytes[4 * p + 1], bytes[4 * p + 2], bytes[4 * p
                + 3]];
            tex.push(pixel);
            p = p + 1;
        }
        let out = Assets { tex, width, height };
        proof {
            assert(out.well_formed());
            assert(pixels_match(out.tex@, bytes@));
        }
        Some(out)
    }
}

} // verus!
