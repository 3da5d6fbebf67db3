//! Rendition planning: the bitrate ladder and the aspect-ratio preserving
//! scaling of a source to each profile of the ladder.

use vstd::prelude::*;

verus! {

/// One rung of the bitrate ladder.
pub struct RenditionProfile {
    pub quality: String,
    pub max_width: i32,
    pub max_height: i32,
    pub video_bitrate: String,
    pub audio_bitrate: String,
}

/// A profile resolved against a concrete source: the dimensions that are
/// actually encoded.
pub struct ResolvedRendition {
    pub quality: String,
    pub width: i32,
    pub height: i32,
    pub video_bitrate: String,
}

/// Raises `v` to at least 2 and then clears its lowest bit: the nearest
/// even number that is at least 2 and, where `v >= 2`, at most `v`.
pub open spec fn clamp_even(v: int) -> int {
    if v < 2 {
        2
    } else {
        v - v % 2
    }
}

/// `n / d` rounded to the nearest integer, ties away from zero (`d > 0`).
pub open spec fn round_ratio(n: int, d: int) -> int {
    if n >= 0 {
        (2 * n + d) / (2 * d)
    } else {
        -((2 * (-n) + d) / (2 * d))
    }
}

/// The scale factor `min(mw / sw, mh / sh, 1)` as a fraction with a positive
/// denominator, for a source of positive width and height.
pub open spec fn scale_ratio(sw: int, sh: int, mw: int, mh: int) -> (int, int) {
    if mw >= sw && mh >= sh {
        (1, 1)
    } else if mw * sh <= mh * sw {
        (mw, sw)
    } else {
        (mh, sh)
    }
}

/// Whether the source dimensions are usable for scaling.
pub open spec fn source_known(sw: int, sh: int) -> bool {
    sw > 0 && sh > 0
}

/// Target width of a source `sw x sh` under the caps `mw x mh`.
pub open spec fn target_width(sw: int, sh: int, mw: int, mh: int) -> int {
    if source_known(sw, sh) {
        let (n, d) = scale_ratio(sw, sh, mw, mh);
        clamp_even(round_ratio(sw * n, d))
    } else {
        clamp_even(mw)
    }
}

/// Target height of a source `sw x sh` under the caps `mw x mh`.
pub open spec fn target_height(sw: int, sh: int, mw: int, mh: int) -> int {
    if source_known(sw, sh) {
        let (n, d) = scale_ratio(sw, sh, mw, mh);
        clamp_even(round_ratio(sh * n, d))
    } else {
        clamp_even(mh)
    }
}

/// The product of two 32-bit values stays within 63 bits.
proof fn lemma_product_fits(a: int, b: int)
    requires
        -0x8000_0000 <= a <= 0x7fff_ffff,
        -0x8000_0000 <= b <= 0x7fff_ffff,
    ensures
        -0x4000_0000_0000_0000 <= a * b <= 0x4000_0000_0000_0000,
{
    assert(-0x4000_0000_0000_0000 <= a * b <= 0x4000_0000_0000_0000) by (nonlinear_arith)
        requires
            -0x8000_0000 <= a <= 0x7fff_ffff,
            -0x8000_0000 <= b <= 0x7fff_ffff,
    ;
}

/// The scale factor has a positive denominator, is at most one, and keeps
/// both sides of the source within the caps.
pub proof fn lemma_scale_ratio_below_one(sw: int, sh: int, mw: int, mh: int)
    requires
        source_known(sw, sh),
    ensures
        scale_ratio(sw, sh, mw, mh).1 > 0,
        scale_ratio(sw, sh, mw, mh).0 <= scale_ratio(sw, sh, mw, mh).1,
        sw * scale_ratio(sw, sh, mw, mh).0 <= mw * scale_ratio(sw, sh, mw, mh).1,
        sh * scale_ratio(sw, sh, mw, mh).0 <= mh * scale_ratio(sw, sh, mw, mh).1,
{
    let n = scale_ratio(sw, sh, mw, mh).0;
    let d = scale_ratio(sw, sh, mw, mh).1;
    if mw >= sw && mh >= sh {
        assert(n == 1 && d == 1);
    } else if mw * sh <= mh * sw {
        assert(n == mw && d == sw);
        assert(mw <= sw) by (nonlinear_arith)
            requires
                mw * sh <= mh * sw,
                !(mw >= sw && mh >= sh),
                sw > 0,
                sh > 0,
        ;
        assert(sw * mw <= mw * sw) by (nonlinear_arith);
        assert(sh * mw <= mh * sw) by (nonlinear_arith)
            requires
                mw * sh <= mh * sw,
        ;
    } else {
        assert(n == mh && d == sh);
        assert(mh <= sh) by (nonlinear_arith)
            requires
                mw * sh > mh * sw,
                !(mw >= sw && mh >= sh),
                sw > 0,
                sh > 0,
        ;
        assert(sw * mh <= mw * sh) by (nonlinear_arith)
            requires
                mw * sh > mh * sw,
        ;
        assert(sh * mh <= mh * sh) by (nonlinear_arith);
    }
}

/// Rounding `n / d` never exceeds an integer `k >= 0` with `n <= k * d`.
pub proof fn lemma_round_ratio_at_most(n: int, d: int, k: int)
    requires
        d > 0,
        k >= 0,
        n <= k * d,
    ensures
        round_ratio(n, d) <= k,
{
    if n >= 0 {
        assert((2 * n + d) / (2 * d) <= k) by (nonlinear_arith)
            requires
                d > 0,
                n >= 0,
                n <= k * d,
        ;
    } else {
        assert((2 * (-n) + d) / (2 * d) >= 0) by (nonlinear_arith)
            requires
                d > 0,
                n < 0,
        ;
    }
}

/// Rounding an exact multiple `k * d` over `d` gives `k`.
pub proof fn lemma_round_ratio_exact(k: int, d: int)
    requires
        d > 0,
        k >= 0,
    ensures
        round_ratio(k * d, d) == k,
{
    assert(k * d >= 0) by (nonlinear_arith)
        requires
            d > 0,
            k >= 0,
    ;
    assert((2 * (k * d) + d) / (2 * d) == k) by (nonlinear_arith)
        requires
            d > 0,
            k >= 0,
    ;
}

/// `clamp_even` yields an even number of at least 2.
pub proof fn lemma_clamp_even_shape(v: int)
    ensures
        clamp_even(v) >= 2,
        clamp_even(v) % 2 == 0,
        v >= 2 ==> v - 1 <= clamp_even(v) <= v,
{
}

/// Executable `clamp_even` on a value already known to fit.
fn clamp_even_exec(v: i128) -> (r: i32)
    requires
        v <= i32::MAX,
    ensures
        r == clamp_even(v as int),
{
    if v < 2 {
        2
    } else {
        let e: i128 = v - v % 2;
        e as i32
    }
}

/// Executable `clamp_even(round_ratio(side * num, den))`.
fn scale_side(side: i32, num: i32, den: i32) -> (r: i32)
    requires
        side > 0,
        den > 0,
        num <= den,
    ensures
        r == clamp_even(round_ratio(side as int * num as int, den as int)),
{
    if num <= 0 {
        proof {
            let n = side as int * num as int;
            assert(n <= 0) by (nonlinear_arith)
                requires
                    n == side as int * num as int,
                    side > 0,
                    num <= 0,
            ;
            lemma_round_ratio_at_most(n, den as int, 0);
        }
        return 2;
    }
    proof {
        lemma_product_fits(side as int, num as int);
    }
    let n: i128 = side as i128 * num as i128;
    let d: i128 = den as i128;
    proof {
        assert(0 < n <= side as int * den as int) by (nonlinear_arith)
            requires
                n == side as int * num as int,
                side > 0,
                0 < num <= den,
        ;
        assert(n <= 0x4000_0000_0000_0000) by (nonlinear_arith)
            requires
                n <= side as int * den as int,
                0 < side <= 0x7fff_ffff,
                0 < den <= 0x7fff_ffff,
        ;
        lemma_round_ratio_at_most(n as int, d as int, side as int);
    }
    let q: i128 = (2 * n + d) / (2 * d);
    clamp_even_exec(q)
}

/// Whether `p` is the profile with the given label, caps and bitrates.
pub open spec fn profile_is(
    p: RenditionProfile,
    quality: Seq<char>,
    max_width: int,
    max_height: int,
    video_bitrate: Seq<char>,
    audio_bitrate: Seq<char>,
) -> bool {
    &&& p.quality@ == quality
    &&& p.max_width == max_width
    &&& p.max_height == max_height
    &&& p.video_bitrate@ == video_bitrate
    &&& p.audio_bitrate@ == audio_bitrate
}

/// Whether `r` is `profile` resolved against a source of `sw x sh`.
pub open spec fn resolves(r: ResolvedRendition, profile: RenditionProfile, sw: int, sh: int) -> bool {
    &&& r.quality@ == profile.quality@
    &&& r.video_bitrate@ == profile.video_bitrate@
    &&& r.width == target_width(sw, sh, profile.max_width as int, profile.max_height as int)
    &&& r.height == target_height(sw, sh, profile.max_width as int, profile.max_height as int)
}

impl RenditionProfile {
    /// A profile from its label, caps and bitrates.
    pub fn new(
        quality: &str,
        max_width: i32,
        max_height: i32,
        video_bitrate: &str,
        audio_bitrate: &str,
    ) -> (p: RenditionProfile)
        ensures
            profile_is(
                p,
                quality@,
                max_width as int,
                max_height as int,
                video_bitrate@,
                audio_bitrate@,
            ),
    {
        RenditionProfile {
            quality: quality.to_owned(),
            max_width,
            max_height,
            video_bitrate: video_bitrate.to_owned(),
            audio_bitrate: audio_bitrate.to_owned(),
        }
    }

    /// Resolves this profile against a source. A source of unknown size is
    /// given as a width or height that is not positive.
    pub fn resolve(&self, source_width: i32, source_height: i32) -> (r: ResolvedRendition)
        ensures
            resolves(r, *self, source_width as int, source_height as int),
    {
        let (width, height) = VideoProcessingService::calculate_scaled_dimensions(
            source_width,
            source_height,
            self.max_width,
            self.max_height,
        );
        ResolvedRendition {
            quality: self.quality.clone(),
            width,
            height,
            video_bitrate: self.video_bitrate.clone(),
        }
    }
}

/// The unit that owns the processing rules: planning, playlist synthesis,
/// codec commands and validation.
pub struct VideoProcessingService;

impl VideoProcessingService {
    /// Scales a source of `source_width x source_height` into the caps
    /// `max_width x max_height`, keeping the aspect ratio and never
    /// upscaling. A source that is unknown (not positive) takes the caps
    /// themselves. Both results are even and at least 2.
    pub fn calculate_scaled_dimensions(
        source_width: i32,
        source_height: i32,
        max_width: i32,
        max_height: i32,
    ) -> (r: (i32, i32))
        ensures
            r.0 == target_width(
                source_width as int,
                source_height as int,
                max_width as int,
                max_height as int,
            ),
            r.1 == target_height(
                source_width as int,
                source_height as int,
                max_width as int,
                max_height as int,
            ),
    {
        if source_width <= 0 || source_height <= 0 {
            return (clamp_even_exec(max_width as i128), clamp_even_exec(max_height as i128));
        }
        proof {
            lemma_scale_ratio_below_one(
                source_width as int,
                source_height as int,
                max_width as int,
                max_height as int,
            );
        }
        if max_width >= source_width && max_height >= source_height {
            proof {
                lemma_round_ratio_exact(source_width as int, 1);
                lemma_round_ratio_exact(source_height as int, 1);
            }
            return (clamp_even_exec(source_width as i128), clamp_even_exec(source_height as i128));
        }
        proof {
            lemma_product_fits(max_width as int, source_height as int);
            lemma_product_fits(max_height as int, source_width as int);
        }
        let by_width: bool = max_width as i64 * source_height as i64 <= max_height as i64
            * source_width as i64;
        if by_width {
            (
                scale_side(source_width, max_width, source_width),
                scale_side(source_height, max_width, source_width),
            )
        } else {
            (
                scale_side(source_width, max_height, source_height),
                scale_side(source_height, max_height, source_height),
            )
        }
    }
}

impl VideoProcessingService {
    /// The fixed ladder, highest quality first.
    pub fn ladder() -> (ladder: Vec<RenditionProfile>)
        ensures
            ladder@.len() == 4,
            profile_is(ladder@[0], "1080p"@, 1920, 1080, "2000k"@, "192k"@),
            profile_is(ladder@[1], "720p"@, 1280, 720, "1000k"@, "128k"@),
            profile_is(ladder@[2], "480p"@, 854, 480, "500k"@, "96k"@),
            profile_is(ladder@[3], "360p"@, 640, 360, "250k"@, "64k"@),
    {
        let mut ladder: Vec<RenditionProfile> = Vec::new();
        ladder.push(RenditionProfile::new("1080p", 1920, 1080, "2000k", "192k"));
        ladder.push(RenditionProfile::new("720p", 1280, 720, "1000k", "128k"));
        ladder.push(RenditionProfile::new("480p", 854, 480, "500k", "96k"));
        ladder.push(RenditionProfile::new("360p", 640, 360, "250k", "64k"));
        ladder
    }

    /// Resolves every profile of `ladder` against the source, each on its
    /// own and in ladder order.
    pub fn plan_renditions(
        ladder: &Vec<RenditionProfile>,
        source_width: i32,
        source_height: i32,
    ) -> (plan: Vec<ResolvedRendition>)
        ensures
            plan@.len() == ladder@.len(),
            forall|i: int|
                0 <= i < ladder@.len() ==> resolves(
                    #[trigger] plan@[i],
                    ladder@[i],
                    source_width as int,
                    source_height as int,
                ),
    {
        let mut plan: Vec<ResolvedRendition> = Vec::new();
        let mut i: usize = 0;
        while i < ladder.len()
            invariant
                i <= ladder.len(),
                plan@.len() == i,
                forall|j: int|
                    0 <= j < i ==> resolves(
                        #[trigger] plan@[j],
                        ladder@[j],
                        source_width as int,
                        source_height as int,
                    ),
            decreases ladder.len() - i,
        {
            plan.push(ladder[i].resolve(source_width, source_height));
            i += 1;
        }
        plan
    }
}

/// A target never exceeds the cap of its profile nor the source, and is an
/// even number of at least 2, for every positive source and every cap of at
/// least 2. (A source side of 1 is raised to 2, the smallest size produced.)
pub proof fn lemma_target_within_bounds(sw: int, sh: int, mw: int, mh: int)
    requires
        source_known(sw, sh),
        mw >= 2,
        mh >= 2,
    ensures
        2 <= target_width(sw, sh, mw, mh) <= mw,
        2 <= target_height(sw, sh, mw, mh) <= mh,
        sw >= 2 ==> target_width(sw, sh, mw, mh) <= sw,
        sh >= 2 ==> target_height(sw, sh, mw, mh) <= sh,
        target_width(sw, sh, mw, mh) % 2 == 0,
        target_height(sw, sh, mw, mh) % 2 == 0,
{
    lemma_scale_ratio_below_one(sw, sh, mw, mh);
    let (n, d) = scale_ratio(sw, sh, mw, mh);
    let w = round_ratio(sw * n, d);
    let h = round_ratio(sh * n, d);
    lemma_round_ratio_at_most(sw * n, d, mw);
    lemma_round_ratio_at_most(sh * n, d, mh);
    assert(sw * n <= sw * d) by (nonlinear_arith)
        requires
            n <= d,
            sw > 0,
    ;
    assert(sh * n <= sh * d) by (nonlinear_arith)
        requires
            n <= d,
            sh > 0,
    ;
    lemma_round_ratio_at_most(sw * n, d, sw);
    lemma_round_ratio_at_most(sh * n, d, sh);
    lemma_clamp_even_shape(w);
    lemma_clamp_even_shape(h);
}

/// A source with exactly the aspect ratio of the caps, and at least as large
/// as they are, resolves to the caps themselves, made even.
pub proof fn lemma_same_aspect_gives_caps(sw: int, sh: int, mw: int, mh: int)
    requires
        source_known(sw, sh),
        mw > 0,
        mh > 0,
        sw * mh == sh * mw,
        sw >= mw,
    ensures
        target_width(sw, sh, mw, mh) == clamp_even(mw),
        target_height(sw, sh, mw, mh) == clamp_even(mh),
{
    assert(sh >= mh) by (nonlinear_arith)
        requires
            sw * mh == sh * mw,
            sw >= mw,
            mw > 0,
            mh > 0,
            sh > 0,
    ;
    assert(mw * sh == sh * mw) by (nonlinear_arith);
    assert(mh * sw == sw * mh) by (nonlinear_arith);
    if mw >= sw && mh >= sh {
        assert(sw == mw);
        assert(sh == mh) by (nonlinear_arith)
            requires
                sw * mh == sh * mw,
                sw == mw,
                mw > 0,
        ;
        lemma_round_ratio_exact(sw, 1);
        lemma_round_ratio_exact(sh, 1);
    } else {
        assert(scale_ratio(sw, sh, mw, mh) == (mw, sw));
        assert(sw * mw == mw * sw) by (nonlinear_arith);
        lemma_round_ratio_exact(mw, sw);
        lemma_round_ratio_exact(mh, sw);
    }
}

} // verus!
