//! The two image values that cross the extraction boundary: the raw bitmap
//! read from the platform handle, and the encoded payload returned to callers.

use vstd::prelude::*;

verus! {

/// Mathematical model of a raw bitmap: its dimensions and its RGBA bytes.
pub struct SnapshotV {
    pub width: nat,
    pub height: nat,
    pub rgba: Seq<u8>,
}

/// A bitmap is consistent when it holds exactly four bytes (one RGBA pixel)
/// per cell of its `width * height` grid.
pub open spec fn snapshot_consistent(s: SnapshotV) -> bool {
    s.rgba.len() == 4 * s.width * s.height
}

/// A raw bitmap read from the platform handle at a point in time.
///
/// A snapshot is transient: it exists for the duration of one extraction call
/// and is never shared outside it.  Every value of this type is consistent
/// (four bytes per pixel); the constructor rejects anything else.
pub struct IconSnapshot {
    width: u32,
    height: u32,
    rgba: Vec<u8>,
}

impl View for IconSnapshot {
    type V = SnapshotV;

    closed spec fn view(&self) -> SnapshotV {
        SnapshotV { width: self.width as nat, height: self.height as nat, rgba: self.rgba@ }
    }
}

impl IconSnapshot {
    /// Holds of every value of the type: a snapshot cannot be constructed
    /// torn.
    #[verifier::type_invariant]
    pub open spec fn type_inv(self) -> bool {
        snapshot_consistent(self@)
    }

    /// Accepts the bitmap if and only if the byte count matches the declared
    /// dimensions.
    pub fn new(width: u32, height: u32, rgba: Vec<u8>) -> (r: Option<IconSnapshot>)
        ensures
            r is Some <==> rgba@.len() == 4 * width * height,
            r matches Some(s) ==> s@ == (SnapshotV {
                width: width as nat,
                height: height as nat,
                rgba: rgba@,
            }),
    {
        proof {
            assert(4 * (width as int) * (height as int) <= 4 * 0xffff_ffff * 0xffff_ffff)
                by (nonlinear_arith)
                requires
                    width <= 0xffff_ffffu32,
                    height <= 0xffff_ffffu32,
            ;
        }
        let expected: u128 = 4u128 * (width as u128) * (height as u128);
        if (rgba.len() as u128) == expected {
            Some(IconSnapshot { width, height, rgba })
        } else {
            None
        }
    }

    /// Width of the bitmap in pixels.
    pub fn width(&self) -> (r: u32)
        ensures
            r == self@.width,
    {
        self.width
    }

    /// Height of the bitmap in pixels.
    pub fn height(&self) -> (r: u32)
        ensures
            r == self@.height,
    {
        self.height
    }

    /// The raw RGBA bytes, row-major, four per pixel.
    pub fn rgba(&self) -> (r: &Vec<u8>)
        ensures
            r@ == self@.rgba,
    {
        &self.rgba
    }
}

/// Mathematical model of an encoded payload: the encoded bytes and the
/// dimensions declared beside them.
pub struct PayloadV {
    pub bytes: Seq<u8>,
    pub width: nat,
    pub height: nat,
}

/// A structurally valid payload carries at least one encoded byte.
pub open spec fn payload_valid(p: PayloadV) -> bool {
    p.bytes.len() > 0
}

/// The encoded icon returned across the boundary: an image-format byte
/// sequence plus enough metadata for the caller to decode it without prior
/// knowledge.  Each extraction produces a fresh, independent instance.
#[derive(Debug, PartialEq, Eq)]
pub struct IconPayload {
    pub bytes: Vec<u8>,
    pub width: u32,
    pub height: u32,
}

impl View for IconPayload {
    type V = PayloadV;

    open spec fn view(&self) -> PayloadV {
        PayloadV { bytes: self.bytes@, width: self.width as nat, height: self.height as nat }
    }
}

} // verus!
