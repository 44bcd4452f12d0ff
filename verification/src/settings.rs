use vstd::prelude::*;

verus! {

/// Per-camera controls for the old-television effect.
///
/// Each field stores the raw bit pattern of the 32-bit floating-point control
/// value that the fragment shader consumes. The controller never does
/// arithmetic on the controls — it only copies whole records into uniform
/// memory — so the bit pattern is the faithful unit of transport, and record
/// equality is exactly field-wise bit equality.
///
/// The nominal ranges below are documentation only: out-of-range values give
/// a visually degenerate but not erroneous picture, and no runtime range
/// check is made.
#[derive(Clone, Copy, PartialEq, Eq, Structural, Debug)]
pub struct OldTvSettings {
    /// Corner-rounding amount, nominally in `[0, 1]`; `0` means no rounding.
    pub screen_shape_factor: u32,
    /// Number of simulated scanline rows, nominally `> 0`; the column count
    /// is derived from the rows and the output aspect ratio.
    pub rows: u32,
    /// Overall multiplicative brightness gain, nominally `>= 0`.
    pub brightness: u32,
    /// Width of the vignette falloff at the screen edges, nominally `>= 0`.
    pub edges_transition_size: u32,
    /// Minimum visibility floor for the non-dominant color sub-channels in
    /// the simulated sub-pixel mask, nominally in `[0, 1]`.
    pub channels_mask_min: u32,
}

impl OldTvSettings {
    /// Builds a record from the five control bit patterns, in declared order.
    pub fn new(
        screen_shape_factor: u32,
        rows: u32,
        brightness: u32,
        edges_transition_size: u32,
        channels_mask_min: u32,
    ) -> (r: Self)
        ensures
            r == (OldTvSettings {
                screen_shape_factor,
                rows,
                brightness,
                edges_transition_size,
                channels_mask_min,
            }),
    {
        OldTvSettings {
            screen_shape_factor,
            rows,
            brightness,
            edges_transition_size,
            channels_mask_min,
        }
    }
}

impl Default for OldTvSettings {
    /// All controls zeroed: the bit pattern of `0.0` in every field.
    fn default() -> (r: Self)
        ensures
            r == (OldTvSettings {
                screen_shape_factor: 0u32,
                rows: 0u32,
                brightness: 0u32,
                edges_transition_size: 0u32,
                channels_mask_min: 0u32,
            }),
    {
        OldTvSettings {
            screen_shape_factor: 0,
            rows: 0,
            brightness: 0,
            edges_transition_size: 0,
            channels_mask_min: 0,
        }
    }
}

} // verus!
