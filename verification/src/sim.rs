//! A simulated camera that generates synthetic frames.

use crate::frames;
use crate::frames::RawImage;
use vstd::prelude::*;

verus! {

/// Multiplier of the noise generator.
pub const NOISE_FACTOR: u64 = 6364136223846793005;

/// Increment of the noise generator.
pub const NOISE_STEP: u64 = 1442695040888963407;

/// Where the noise generator starts for a frame.
pub open spec fn noise_seed(frame: nat) -> u64 {
    ((frame * NOISE_FACTOR + 1) % 0x1_0000_0000_0000_0000) as u64
}

/// The state of the noise generator after `n` pixels.
pub open spec fn noise_state(seed: u64, n: nat) -> u64
    decreases n,
{
    if n == 0 {
        seed
    } else {
        ((noise_state(seed, (n - 1) as nat) * NOISE_FACTOR + NOISE_STEP)
            % 0x1_0000_0000_0000_0000) as u64
    }
}

/// The noise word of the pixel with index `i`: the upper 31 bits of the state.
pub open spec fn noise_word(seed: u64, i: nat) -> u64 {
    noise_state(seed, i + 1) >> 33
}

/// Camera source that generates synthetic frames.
pub struct SimCamera {
    width: u32,
    height: u32,
    frame_count: u64,
    bit_depth: u8,
}

/// A value, or `most` where it is above that.
pub open spec fn clipped(v: u32, most: u32) -> u32 {
    if v < most {
        v
    } else {
        most
    }
}

/// What a [`SimCamera`] is: its size, its bit depth, and how many frames it has
/// generated.
pub struct SimState {
    pub width: u32,
    pub height: u32,
    pub bit_depth: u8,
    pub frames: nat,
}

impl SimState {
    /// The state after one more frame.
    pub open spec fn after_frame(self) -> SimState {
        SimState { frames: self.frames + 1, ..self }
    }

    /// The state after `n` more frames.
    pub open spec fn after_frames(self, n: nat) -> SimState
        decreases n,
    {
        if n == 0 {
            self
        } else {
            self.after_frames((n - 1) as nat).after_frame()
        }
    }

    /// The state of a camera that has generated nothing yet.
    pub open spec fn fresh(width: u32, height: u32, bit_depth: u8) -> SimState {
        SimState { width, height, bit_depth, frames: 0 }
    }
}

/// A camera keeps the size and the bit depth that it was made with, however
/// many frames it generates.
pub proof fn law_size_and_depth_stay(width: u32, height: u32, bit_depth: u8, n: nat)
    ensures
        ({
            let s = SimState::fresh(width, height, bit_depth).after_frames(n);
            s.width == width && s.height == height && s.bit_depth == bit_depth && s.frames == n
        }),
    decreases n,
{
    if n > 0 {
        law_size_and_depth_stay(width, height, bit_depth, (n - 1) as nat);
    }
}

impl View for SimCamera {
    type V = SimState;

    closed spec fn view(&self) -> SimState {
        SimState {
            width: self.width,
            height: self.height,
            bit_depth: self.bit_depth,
            frames: self.frame_count as nat,
        }
    }
}

impl SimCamera {
    pub fn new(width: u32, height: u32, bit_depth: u8) -> (r: Self)
        ensures
            r@ == SimState::fresh(width, height, bit_depth),
    {
        SimCamera { width, height, frame_count: 0, bit_depth }
    }

    pub fn width(&self) -> (r: u32)
        ensures
            r == self@.width,
    {
        self.width
    }

    pub fn height(&self) -> (r: u32)
        ensures
            r == self@.height,
    {
        self.height
    }

    pub fn bit_depth(&self) -> (r: u8)
        ensures
            r == self@.bit_depth,
    {
        self.bit_depth
    }

    /// Generates the next frame, row by row from the top left. `shade` gives
    /// the value of a pixel from its column, its row and its noise word; the
    /// frame holds it clipped to the largest value at the camera's bit depth.
    /// Samples have 8 bits up to a bit depth of 8, else 16.
    pub fn next_frame<S: Fn(u32, u32, u64) -> u32>(&mut self, shade: S) -> (r: RawImage)
        requires
            old(self)@.frames < u64::MAX,
            old(self)@.bit_depth < 32,
            old(self)@.width * old(self)@.height <= usize::MAX,
            forall|x: u32, y: u32, n: u64| call_requires(shade, (x, y, n)),
        ensures
            final(self)@ == old(self)@.after_frame(),
            r.wf(),
            r.view_width() == old(self)@.width,
            r.view_height() == old(self)@.height,
            old(self)@.bit_depth <= 8 <==> r is Luma8,
            old(self)@.bit_depth > 8 <==> r is Luma16,
            match r {
                RawImage::Luma8 { width, data, .. } => forall|i: int|
                    0 <= i < data@.len() ==> shaded(
                        shade,
                        width,
                        i,
                        noise_seed(old(self)@.frames + 1),
                        frames::native_max_of(old(self)@.bit_depth) as u32,
                        (#[trigger] data@[i]) as u32,
                    ),
                RawImage::Luma16 { width, data, .. } => forall|i: int|
                    0 <= i < data@.len() ==> shaded(
                        shade,
                        width,
                        i,
                        noise_seed(old(self)@.frames + 1),
                        frames::native_max_of(old(self)@.bit_depth) as u32,
                        (#[trigger] data@[i]) as u32,
                    ),
                _ => false,
            },
            old(self)@.bit_depth <= 16 ==> samples_within(
                r,
                frames::full_scale_of(old(self)@.bit_depth),
            ),
    {
        self.frame_count = self.frame_count + 1;
        let seed: u64 = self.frame_count.wrapping_mul(NOISE_FACTOR).wrapping_add(1);
        let most: u32 = frames::native_max(self.bit_depth) as u32;
        proof {
            lemma_wrapping(self.frame_count, 1, seed);
            vstd::arithmetic::power2::lemma2_to64();
            if self.bit_depth < 8 {
                vstd::arithmetic::power2::lemma_pow2_strictly_increases(self.bit_depth as nat, 8);
            }
        }
        if self.bit_depth <= 8 {
            let values: Vec<u32> = self.render(&shade, seed, most);
            let data: Vec<u8> = narrow8(&values);
            RawImage::Luma8 { width: self.width, height: self.height, data }
        } else {
            let values: Vec<u32> = self.render(&shade, seed, most);
            let data: Vec<u16> = narrow16(&values);
            RawImage::Luma16 { width: self.width, height: self.height, data }
        }
    }

    /// The samples of a frame, none above `most`.
    fn render<S: Fn(u32, u32, u64) -> u32>(&self, shade: &S, seed: u64, most: u32) -> (r: Vec<u32>)
        requires
            self@.width * self@.height <= usize::MAX,
            forall|x: u32, y: u32, n: u64| call_requires(*shade, (x, y, n)),
        ensures
            r@.len() == self@.width * self@.height,
            forall|i: int|
                0 <= i < r@.len() ==> (#[trigger] r@[i]) <= most && shaded(
                    *shade,
                    self@.width,
                    i,
                    seed,
                    most,
                    r@[i],
                ),
    {
        let mut out: Vec<u32> = Vec::new();
        let mut state: u64 = seed;
        for y in 0..self.height
            invariant
                out@.len() == y * self.width,
                state == noise_state(seed, out@.len()),
                forall|x: u32, y: u32, n: u64| call_requires(*shade, (x, y, n)),
                forall|i: int|
                    0 <= i < out@.len() ==> (#[trigger] out@[i]) <= most && shaded(
                        *shade,
                        self.width,
                        i,
                        seed,
                        most,
                        out@[i],
                    ),
        {
            for x in 0..self.width
                invariant
                    0 <= y < self.height,
                    out@.len() == y * self.width + x,
                    state == noise_state(seed, out@.len()),
                    forall|x: u32, y: u32, n: u64| call_requires(*shade, (x, y, n)),
                    forall|i: int|
                        0 <= i < out@.len() ==> (#[trigger] out@[i]) <= most && shaded(
                            *shade,
                            self.width,
                            i,
                            seed,
                            most,
                            out@[i],
                        ),
            {
                let before: u64 = state;
                state = before.wrapping_mul(NOISE_FACTOR).wrapping_add(NOISE_STEP);
                proof {
                    lemma_wrapping(before, NOISE_STEP, state);
                }
                let value: u32 = shade(x, y, state >> 33);
                let sample: u32 = if value < most {
                    value
                } else {
                    most
                };
                let ghost n = out@.len();
                proof {
                    vstd::arithmetic::div_mod::lemma_fundamental_div_mod_converse(
                        n as int,
                        self.width as int,
                        y as int,
                        x as int,
                    );
                }
                assert(noise_word(seed, n) == state >> 33);
                out.push(sample);
                assert(shaded(*shade, self.width, n as int, seed, most, sample));
            }
            proof {
                assert(y * self.width + self.width == (y + 1) * self.width) by (nonlinear_arith);
            }
        }
        assert(self.height * self.width == self.width * self.height) by (nonlinear_arith);
        out
    }
}

/// Is no sample of a mono image above `most`?
pub open spec fn samples_within(img: RawImage, most: int) -> bool {
    match img {
        RawImage::Luma8 { data, .. } => forall|i: int|
            0 <= i < data@.len() ==> (#[trigger] data@[i]) <= most,
        RawImage::Luma16 { data, .. } => forall|i: int|
            0 <= i < data@.len() ==> (#[trigger] data@[i]) <= most,
        _ => false,
    }
}

/// Is `sample` what `shade` gives for the pixel with index `i`, clipped?
pub open spec fn shaded<S: Fn(u32, u32, u64) -> u32>(
    shade: S,
    width: u32,
    i: int,
    seed: u64,
    most: u32,
    sample: u32,
) -> bool {
    exists|v: u32|
        #[trigger] call_ensures(
            shade,
            ((i % width as int) as u32, (i / width as int) as u32, noise_word(seed, i as nat)),
            v,
        ) && sample == clipped(v, most)
}

/// Wrapping arithmetic in 64 bits is arithmetic modulo 2^64.
proof fn lemma_wrapping(a: u64, c: u64, r: u64)
    requires
        r == a.wrapping_mul(NOISE_FACTOR).wrapping_add(c),
    ensures
        r == ((a * NOISE_FACTOR + c) % 0x1_0000_0000_0000_0000) as u64,
{
    let p = a * NOISE_FACTOR;
    let m = 0x1_0000_0000_0000_0000int;
    assert(a.wrapping_mul(NOISE_FACTOR) == p % m);
    vstd::arithmetic::div_mod::lemma_add_mod_noop(p, c as int, m);
    assert((p % m + c) % m == (p + c) % m) by {
        vstd::arithmetic::div_mod::lemma_small_mod(c as nat, m as nat);
    }
}

/// The samples in 8 bits.
fn narrow8(values: &Vec<u32>) -> (r: Vec<u8>)
    requires
        forall|i: int| 0 <= i < values@.len() ==> (#[trigger] values@[i]) <= 255,
    ensures
        r@.len() == values@.len(),
        forall|i: int| 0 <= i < r@.len() ==> (#[trigger] r@[i]) as u32 == values@[i],
{
    let mut out: Vec<u8> = Vec::new();
    for i in 0..values.len()
        invariant
            out@.len() == i,
            forall|j: int| 0 <= j < values@.len() ==> (#[trigger] values@[j]) <= 255,
            forall|j: int| 0 <= j < i ==> (#[trigger] out@[j]) as u32 == values@[j],
    {
        out.push(values[i] as u8);
    }
    out
}

/// The samples in 16 bits.
fn narrow16(values: &Vec<u32>) -> (r: Vec<u16>)
    requires
        forall|i: int| 0 <= i < values@.len() ==> (#[trigger] values@[i]) <= 65535,
    ensures
        r@.len() == values@.len(),
        forall|i: int| 0 <= i < r@.len() ==> (#[trigger] r@[i]) as u32 == values@[i],
{
    let mut out: Vec<u16> = Vec::new();
    for i in 0..values.len()
        invariant
            out@.len() == i,
            forall|j: int| 0 <= j < values@.len() ==> (#[trigger] values@[j]) <= 65535,
            forall|j: int| 0 <= j < i ==> (#[trigger] out@[j]) as u32 == values@[j],
    {
        out.push(values[i] as u16);
    }
    out
}

/// A simulated camera has the size and the depth it was made with.
pub proof fn law_camera_is_as_made(
    width: u32,
    height: u32,
    bit_depth: u8,
    c: SimCamera,
    w: u32,
    h: u32,
    d: u8,
)
    requires
        call_ensures(SimCamera::new, (width, height, bit_depth), c),
        call_ensures(SimCamera::width, (&c,), w),
        call_ensures(SimCamera::height, (&c,), h),
        call_ensures(SimCamera::bit_depth, (&c,), d),
    ensures
        w == width,
        h == height,
        d == bit_depth,
{
}

/// A frame is as wide and as high as the camera, in 8 bits up to a depth of 8
/// and in 16 above. Each pixel holds what its own column and row give, clipped
/// to the depth. The camera stays what it was.
pub proof fn law_frame_is_shaded_by_place<S: Fn(u32, u32, u64) -> u32>(
    c: &mut SimCamera,
    shade: S,
    r: RawImage,
    x: int,
    y: int,
)
    requires
        old(c)@.frames < u64::MAX,
        old(c)@.bit_depth <= 16,
        old(c)@.width * old(c)@.height <= usize::MAX,
        forall|x: u32, y: u32, n: u64| call_requires(shade, (x, y, n)),
        call_ensures(SimCamera::next_frame::<S>, (c, shade), r),
        0 <= x < old(c)@.width,
        0 <= y < old(c)@.height,
    ensures
        final(c)@.width == old(c)@.width && final(c)@.height == old(c)@.height
            && final(c)@.bit_depth == old(c)@.bit_depth,
        final(c)@.frames == old(c)@.frames + 1,
        match r {
            RawImage::Luma8 { width, height, data } => {
                &&& old(c)@.bit_depth <= 8
                &&& width == old(c)@.width && height == old(c)@.height
                &&& data@.len() == width * height
                &&& exists|v: u32, n: u64| #[trigger]
                    call_ensures(shade, (x as u32, y as u32, n), v) && data@[y * width + x] == (
                    if v < vstd::arithmetic::power2::pow2(old(c)@.bit_depth as nat) {
                        v as int
                    } else {
                        vstd::arithmetic::power2::pow2(old(c)@.bit_depth as nat) - 1
                    })
            },
            RawImage::Luma16 { width, height, data } => {
                &&& old(c)@.bit_depth > 8
                &&& width == old(c)@.width && height == old(c)@.height
                &&& data@.len() == width * height
                &&& exists|v: u32, n: u64| #[trigger]
                    call_ensures(shade, (x as u32, y as u32, n), v) && data@[y * width + x] == (
                    if v < vstd::arithmetic::power2::pow2(old(c)@.bit_depth as nat) {
                        v as int
                    } else {
                        vstd::arithmetic::power2::pow2(old(c)@.bit_depth as nat) - 1
                    })
            },
            _ => false,
        },
{
    let width = old(c)@.width as int;
    let height = old(c)@.height as int;
    let i = y * width + x;
    vstd::arithmetic::div_mod::lemma_fundamental_div_mod_converse(i, width, y, x);
    assert(0 <= i < width * height) by (nonlinear_arith)
        requires
            i == y * width + x,
            0 <= x < width,
            0 <= y < height,
    ;
    let seed = noise_seed(old(c)@.frames + 1);
    let depth = old(c)@.bit_depth as nat;
    vstd::arithmetic::power2::lemma2_to64();
    vstd::arithmetic::power2::lemma_pow2_pos(depth);
    if depth < 16 {
        vstd::arithmetic::power2::lemma_pow2_strictly_increases(depth, 16);
    }
    let most = frames::native_max_of(old(c)@.bit_depth) as u32;
    assert(most + 1 == vstd::arithmetic::power2::pow2(depth));
    match r {
        RawImage::Luma8 { width: w, data, .. } => {
            assert(shaded(shade, w, i, seed, most, data@[i] as u32));
        },
        RawImage::Luma16 { width: w, data, .. } => {
            assert(shaded(shade, w, i, seed, most, data@[i] as u32));
        },
        _ => {},
    }
}

/// The noise is that of the 64-bit congruential generator: each pixel advances
/// it by one step, the seed is the first step of the frame number, and the word
/// is the upper 31 bits.
pub proof fn law_noise_is_congruential(seed: u64, i: nat, frame: nat)
    ensures
        noise_state(seed, i + 1) == (noise_state(seed, i) * 6364136223846793005
            + 1442695040888963407) % 0x1_0000_0000_0000_0000,
        noise_state(seed, 0) == seed,
        noise_seed(frame) == (frame * 6364136223846793005 + 1) % 0x1_0000_0000_0000_0000,
        noise_word(seed, i) == noise_state(seed, i + 1) / 0x2_0000_0000,
        noise_word(seed, i) < 0x8000_0000,
{
    let s = noise_state(seed, i + 1);
    assert(s >> 33 == s / 0x2_0000_0000 && s >> 33 < 0x8000_0000) by (bit_vector);
}

} // verus!
