use vstd::prelude::*;

use crate::settings::OldTvSettings;

verus! {

/// Byte stride of one settings record inside the shared uniform buffer: five
/// 32-bit controls, padded up to the strictest uniform-buffer struct
/// alignment a supported target requires (16 bytes). The padding is purely a
/// memory-layout concern and carries no meaning.
pub const UNIFORM_STRIDE: u32 = 32;

/// One camera as the simulation side hands it over for a frame: its stable
/// identifier and the settings record currently attached to it.
#[derive(Clone, Copy, PartialEq, Eq, Structural, Debug)]
pub struct ExtractedCamera {
    /// Stable identifier of the camera entity.
    pub camera: u64,
    /// The effect controls attached to this camera, read fresh this frame.
    pub settings: OldTvSettings,
}

/// One frame's upload result: the shared uniform buffer, holding one record
/// per camera, and the byte offset at which each camera's record was
/// written, in hand-over order.
///
/// The value is built once per frame, before any pass runs, and is not
/// mutated afterwards, so every offset stays valid through the frame; it is
/// recomputed from scratch the next frame, since cameras may come and go
/// between frames.
pub struct FrameUniforms {
    /// The records written to the uniform buffer, in hand-over order.
    pub records: Vec<OldTvSettings>,
    /// `offsets[i]` is the byte offset of `records[i]`, the record of the
    /// `i`-th handed-over camera.
    pub offsets: Vec<u32>,
}

/// Whether byte offset `off` addresses record `k` of a buffer laid out at
/// `UNIFORM_STRIDE` bytes per record.
pub open spec fn offset_addresses(off: u32, k: int) -> bool {
    off == k * UNIFORM_STRIDE
}

impl FrameUniforms {
    /// The upload is faithful to the handed-over cameras: one record per
    /// camera, equal to that camera's settings, and one offset per camera
    /// addressing exactly that record.
    pub open spec fn faithful_to(self, cameras: Seq<ExtractedCamera>) -> bool {
        &&& self.records@.len() == cameras.len()
        &&& self.offsets@.len() == cameras.len()
        &&& (forall|i: int|
            0 <= i < cameras.len() ==> #[trigger] self.records@[i] == cameras[i].settings)
        &&& (forall|i: int|
            0 <= i < cameras.len() ==> offset_addresses(#[trigger] self.offsets@[i], i))
    }
}

/// Copies each camera's settings record into one shared uniform buffer and
/// returns, per camera, the byte offset at which its record was written.
///
/// Offsets are pairwise distinct across the cameras of the frame, and each
/// addresses its own camera's record. With no cameras handed over, the
/// buffer is empty and no offsets are produced.
pub fn prepare_uniforms(cameras: &Vec<ExtractedCamera>) -> (r: FrameUniforms)
    requires
        cameras@.len() * UNIFORM_STRIDE <= u32::MAX,
    ensures
        r.faithful_to(cameras@),
        forall|i: int, j: int|
            0 <= i < j < cameras@.len() ==> r.offsets@[i] != r.offsets@[j],
{
    let mut records: Vec<OldTvSettings> = Vec::new();
    let mut offsets: Vec<u32> = Vec::new();
    let n: usize = cameras.len();
    let mut i: usize = 0;
    while i < n
        invariant
            i <= n,
            n == cameras@.len(),
            n * UNIFORM_STRIDE <= u32::MAX,
            records@.len() == i,
            offsets@.len() == i,
            forall|k: int| 0 <= k < i ==> #[trigger] records@[k] == cameras@[k].settings,
            forall|k: int| 0 <= k < i ==> offset_addresses(#[trigger] offsets@[k], k),
        decreases n - i,
    {
        records.push(cameras[i].settings);
        offsets.push((i as u32) * UNIFORM_STRIDE);
        i = i + 1;
    }
    let r = FrameUniforms { records, offsets };
    proof {
        assert forall|a: int, b: int| 0 <= a < b < cameras@.len() implies r.offsets@[a]
            != r.offsets@[b] by {
            assert(offset_addresses(r.offsets@[a], a));
            assert(offset_addresses(r.offsets@[b], b));
        }
    }
    r
}

} // verus!
