//! The camera block of the uniform buffer, and the limits of the field of view.

use vstd::prelude::*;

verus! {

/// A snapshot of the camera as the rendering kernel reads it: the eye position
/// and the three basis vectors, already scaled for the field of view.
///
/// Each component is the bit pattern of an IEEE-754 single-precision value.
/// In the uniform block every vector fills a slot of four words, the fourth
/// being reserved and zero.
#[derive(Clone, Copy, Debug, PartialEq, Eq)]
pub struct CameraUniforms {
    /// Eye position.
    pub origin: [u32; 3],
    /// Right axis, scaled by the tangent of half the field of view.
    pub u: [u32; 3],
    /// Up axis, scaled by the tangent of half the field of view.
    pub v: [u32; 3],
    /// Forward direction, unit length.
    pub w: [u32; 3],
}

/// The slot of four words that a vector of three components fills.
pub open spec fn vector_slot(vector: [u32; 3]) -> Seq<u32> {
    seq![vector[0], vector[1], vector[2], 0u32]
}

/// The pattern of the value with the opposite sign.
pub open spec fn negated(bits: u32) -> u32 {
    if bits >= SIGN_BIT {
        (bits - SIGN_BIT) as u32
    } else {
        (bits + SIGN_BIT) as u32
    }
}

impl CameraUniforms {
    /// The sixteen words of the camera block: origin, `u`, `v`, `w`, one slot
    /// each.
    pub open spec fn words(self) -> Seq<u32> {
        vector_slot(self.origin) + vector_slot(self.u) + vector_slot(self.v) + vector_slot(
            self.w,
        )
    }

    /// The camera block for an eye at `origin` that looks against `w_view`:
    /// `u` and `v` are taken as they are, and `w` is the forward direction,
    /// `w_view` with the sign of every component turned.
    pub fn from_basis(origin: [u32; 3], u: [u32; 3], v: [u32; 3], w_view: [u32; 3]) -> (camera:
        Self)
        ensures
            camera.origin == origin,
            camera.u == u,
            camera.v == v,
            camera.w@ == seq![negated(w_view[0]), negated(w_view[1]), negated(w_view[2])],
    {
        let w = [negate(w_view[0]), negate(w_view[1]), negate(w_view[2])];
        assert(w@ =~= seq![negated(w_view[0]), negated(w_view[1]), negated(w_view[2])]);
        CameraUniforms { origin, u, v, w }
    }

    /// The camera block whose words are all zero.
    pub fn zeroed() -> (camera: Self)
        ensures
            camera.words() == Seq::new(16, |i: int| 0u32),
            camera.origin@ == seq![0u32, 0u32, 0u32],
            camera.u@ == seq![0u32, 0u32, 0u32],
            camera.v@ == seq![0u32, 0u32, 0u32],
            camera.w@ == seq![0u32, 0u32, 0u32],
    {
        let camera = CameraUniforms { origin: [0, 0, 0], u: [0, 0, 0], v: [0, 0, 0], w: [0, 0, 0] };
        assert(camera.words() =~= Seq::new(16, |i: int| 0u32));
        assert(camera.origin@ =~= seq![0u32, 0u32, 0u32]);
        assert(camera.u@ =~= seq![0u32, 0u32, 0u32]);
        assert(camera.v@ =~= seq![0u32, 0u32, 0u32]);
        assert(camera.w@ =~= seq![0u32, 0u32, 0u32]);
        camera
    }
}

/// The sign bit of a single-precision bit pattern.
pub const SIGN_BIT: u32 = 0x8000_0000;

/// The bit pattern of positive infinity.  A pattern whose other bits, the
/// sign bit aside, are greater than this is not a number.
pub const INFINITY_BITS: u32 = 0x7f80_0000;

/// The bit pattern of 1.0, the narrowest vertical field of view in degrees.
pub const MIN_VFOV_BITS: u32 = 0x3f80_0000;

/// The bit pattern of 179.0, the widest vertical field of view in degrees.
pub const MAX_VFOV_BITS: u32 = 0x4333_0000;

/// The bits of a pattern without its sign bit.
pub open spec fn magnitude_bits(bits: u32) -> int {
    if bits >= SIGN_BIT {
        bits - SIGN_BIT
    } else {
        bits as int
    }
}

/// Whether the pattern is not a number.
pub open spec fn is_nan(bits: u32) -> bool {
    magnitude_bits(bits) > INFINITY_BITS
}

/// Where the value of a pattern that is a number stands among all such
/// values: patterns of greater values have greater ranks, and the two zeros
/// share rank zero.
pub open spec fn rank(bits: u32) -> int {
    if bits >= SIGN_BIT {
        -magnitude_bits(bits)
    } else {
        magnitude_bits(bits)
    }
}

/// The single-precision comparison `a < b` on bit patterns: false as soon as
/// one side is not a number.
pub open spec fn less_than(a: u32, b: u32) -> bool {
    !is_nan(a) && !is_nan(b) && rank(a) < rank(b)
}

/// The field of view that a zoom settles on: 1.0 where `raw` is less than
/// 1.0 or not a number, 179.0 where it is greater than 179.0, else `raw`
/// itself.
pub open spec fn clamped_vfov(raw: u32) -> u32 {
    if is_nan(raw) || less_than(raw, MIN_VFOV_BITS) {
        MIN_VFOV_BITS
    } else if less_than(MAX_VFOV_BITS, raw) {
        MAX_VFOV_BITS
    } else {
        raw
    }
}

/// Whether the pattern is a field of view from 1.0 to 179.0 degrees.
pub open spec fn is_valid_vfov(bits: u32) -> bool {
    !is_nan(bits) && rank(MIN_VFOV_BITS) <= rank(bits) <= rank(MAX_VFOV_BITS)
}

/// Turns the sign of a single-precision value, given and returned as its bit
/// pattern.
pub fn negate(bits: u32) -> (turned: u32)
    ensures
        turned == negated(bits),
        negated(turned) == bits,
{
    if bits >= SIGN_BIT {
        bits - SIGN_BIT
    } else {
        bits + SIGN_BIT
    }
}

/// Brings the field of view that a zoom arrived at back into the range from
/// 1.0 to 179.0 degrees.  Whatever comes in, a valid field of view comes out,
/// so that the tangent of half of it is finite: a value in the range is kept,
/// one outside it becomes the nearer limit, and a pattern that is not a
/// number becomes 1.0.
pub fn clamp_vfov(raw: u32) -> (vfov: u32)
    ensures
        vfov == clamped_vfov(raw),
        is_valid_vfov(vfov),
        is_valid_vfov(raw) ==> vfov == raw,
{
    let magnitude = if raw >= SIGN_BIT {
        raw - SIGN_BIT
    } else {
        raw
    };
    if magnitude > INFINITY_BITS || raw >= SIGN_BIT || raw < MIN_VFOV_BITS {
        MIN_VFOV_BITS
    } else if raw > MAX_VFOV_BITS {
        MAX_VFOV_BITS
    } else {
        raw
    }
}

/// The bit pattern of a whole number of degrees from 0 to 255.
pub open spec fn whole_degrees(degrees: int) -> u32 {
    if degrees < 1 {
        0
    } else if degrees < 2 {
        0x3f80_0000
    } else if degrees < 4 {
        (0x4000_0000 + (degrees - 2) * 0x40_0000) as u32
    } else if degrees < 8 {
        (0x4080_0000 + (degrees - 4) * 0x20_0000) as u32
    } else if degrees < 16 {
        (0x4100_0000 + (degrees - 8) * 0x10_0000) as u32
    } else if degrees < 32 {
        (0x4180_0000 + (degrees - 16) * 0x8_0000) as u32
    } else if degrees < 64 {
        (0x4200_0000 + (degrees - 32) * 0x4_0000) as u32
    } else if degrees < 128 {
        (0x4280_0000 + (degrees - 64) * 0x2_0000) as u32
    } else {
        (0x4300_0000 + (degrees - 128) * 0x1_0000) as u32
    }
}

/// The bit pattern of a whole number of degrees, for a caller that holds the
/// field of view as a number of degrees.
pub fn whole_degrees_bits(degrees: u8) -> (bits: u32)
    ensures
        bits == whole_degrees(degrees as int),
        1 <= degrees <= 179 ==> is_valid_vfov(bits),
{
    let n: u32 = degrees as u32;
    if n < 1 {
        0
    } else if n < 2 {
        0x3f80_0000
    } else if n < 4 {
        0x4000_0000 + (n - 2) * 0x40_0000
    } else if n < 8 {
        0x4080_0000 + (n - 4) * 0x20_0000
    } else if n < 16 {
        0x4100_0000 + (n - 8) * 0x10_0000
    } else if n < 32 {
        0x4180_0000 + (n - 16) * 0x8_0000
    } else if n < 64 {
        0x4200_0000 + (n - 32) * 0x4_0000
    } else if n < 128 {
        0x4280_0000 + (n - 64) * 0x2_0000
    } else {
        0x4300_0000 + (n - 128) * 0x1_0000
    }
}

/// The whole number of degrees from 0 to 255 that a pattern stands for, where
/// it stands for one.
pub open spec fn degrees_of(bits: u32) -> int {
    choose|degrees: int| 0 <= degrees <= 255 && whole_degrees(degrees) == bits
}

/// The field of view after `k` zooms in a row that each take one degree off,
/// starting from `start` whole degrees.  The subtraction of each zoom is
/// taken to arrive at the pattern of one degree less than the field of view
/// before it, which is what single precision gives on whole numbers of
/// degrees; the clamp follows.
pub open spec fn vfov_after_zooms_in(start: int, k: nat) -> u32
    decreases k,
{
    if k == 0 {
        whole_degrees(start)
    } else {
        clamped_vfov(whole_degrees(degrees_of(vfov_after_zooms_in(start, (k - 1) as nat)) - 1))
    }
}

/// The field of view after `k` zooms in a row that each add one degree,
/// starting from `start` whole degrees; as `vfov_after_zooms_in`, the other
/// way.
pub open spec fn vfov_after_zooms_out(start: int, k: nat) -> u32
    decreases k,
{
    if k == 0 {
        whole_degrees(start)
    } else {
        clamped_vfov(whole_degrees(degrees_of(vfov_after_zooms_out(start, (k - 1) as nat)) + 1))
    }
}

/// Whatever a zoom arrived at, the clamp settles on a valid field of view,
/// and clamping once more changes nothing.
pub proof fn lemma_clamped_vfov_is_valid(raw: u32)
    ensures
        is_valid_vfov(clamped_vfov(raw)),
        clamped_vfov(clamped_vfov(raw)) == clamped_vfov(raw),
{
}

/// Greater whole numbers of degrees have greater patterns, so a pattern
/// stands for one whole number of degrees at most.
pub proof fn lemma_whole_degrees_are_ordered(a: int, b: int)
    requires
        0 <= a < b <= 255,
    ensures
        whole_degrees(a) < whole_degrees(b),
        degrees_of(whole_degrees(a)) == a,
        degrees_of(whole_degrees(b)) == b,
{
    lemma_degrees_of_whole_degrees(a);
    lemma_degrees_of_whole_degrees(b);
}

/// The pattern of a whole number of degrees stands for that number.
proof fn lemma_degrees_of_whole_degrees(degrees: int)
    requires
        0 <= degrees <= 255,
    ensures
        degrees_of(whole_degrees(degrees)) == degrees,
{
    let found = degrees_of(whole_degrees(degrees));
    assert(0 <= found <= 255 && whole_degrees(found) == whole_degrees(degrees));
}

/// Zooming in by one degree a time from `start` whole degrees: after the
/// `k`-th zoom the field of view is `start - k` degrees as long as that is at
/// least one degree, and one degree ever after.  It is valid after every
/// zoom, never below one degree, and stays at one degree once it is there.
pub proof fn lemma_zoom_in_by_degrees(start: int, k: nat)
    requires
        1 <= start <= 179,
    ensures
        vfov_after_zooms_in(start, k) == whole_degrees(
            if k < start {
                start - k
            } else {
                1
            },
        ),
        is_valid_vfov(vfov_after_zooms_in(start, k)),
        k >= start - 1 ==> vfov_after_zooms_in(start, k) == MIN_VFOV_BITS,
    decreases k,
{
    if k > 0 {
        let before = (k - 1) as nat;
        lemma_zoom_in_by_degrees(start, before);
        lemma_degrees_of_whole_degrees(
            if before < start {
                start - before
            } else {
                1
            },
        );
    }
}

/// Zooming out by one degree a time from `start` whole degrees: after the
/// `k`-th zoom the field of view is `start + k` degrees as long as that is at
/// most 179 degrees, and 179 degrees ever after.
pub proof fn lemma_zoom_out_by_degrees(start: int, k: nat)
    requires
        1 <= start <= 179,
    ensures
        vfov_after_zooms_out(start, k) == whole_degrees(
            if start + k <= 179 {
                start + k
            } else {
                179
            },
        ),
        is_valid_vfov(vfov_after_zooms_out(start, k)),
        start + k >= 179 ==> vfov_after_zooms_out(start, k) == MAX_VFOV_BITS,
    decreases k,
{
    if k > 0 {
        let before = (k - 1) as nat;
        lemma_zoom_out_by_degrees(start, before);
        lemma_degrees_of_whole_degrees(
            if start + before <= 179 {
                start + before
            } else {
                179
            },
        );
    }
}

} // verus!
