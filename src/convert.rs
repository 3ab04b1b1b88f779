//! Conversion of interleaved RGB buffers to planar YUV420.
use vstd::arithmetic::div_mod::{lemma_fundamental_div_mod, lemma_fundamental_div_mod_converse, lemma_mod_bound};
use vstd::arithmetic::mul::lemma_mul_inequality;
use vstd::prelude::*;

verus! {

/// Clamps an integer into the byte range.
pub open spec fn clamp_byte(x: int) -> int {
    if x < 0 {
        0
    } else if x > 255 {
        255
    } else {
        x
    }
}

/// Luma of one pixel: fixed-point BT.601 coefficients scaled by 256, rounded.
pub open spec fn luma(r: int, g: int, b: int) -> int {
    clamp_byte((77 * r + 150 * g + 29 * b + 128) / 256)
}

/// Blue-difference chroma of one pixel, offset by 128.
pub open spec fn chroma_u(r: int, g: int, b: int) -> int {
    clamp_byte((-43 * r - 84 * g + 127 * b + 128) / 256 + 128)
}

/// Red-difference chroma of one pixel, offset by 128.
pub open spec fn chroma_v(r: int, g: int, b: int) -> int {
    clamp_byte((127 * r - 106 * g - 21 * b + 128) / 256 + 128)
}

/// One pixel in YUV.
#[derive(Clone, Copy, Debug, PartialEq, Eq, Structural)]
pub struct YuvPixel {
    pub y: u8,
    pub u: u8,
    pub v: u8,
}

/// Converts one RGB pixel to YUV with the fixed-point rule above.
pub fn convert_rgb_to_yuv420_pixel(r: u8, g: u8, b: u8) -> (p: YuvPixel)
    ensures
        p.y == luma(r as int, g as int, b as int),
        p.u == chroma_u(r as int, g as int, b as int),
        p.v == chroma_v(r as int, g as int, b as int),
{
    let (r, g, b) = (r as u32, g as u32, b as u32);
    // The chroma sums are shifted up by 128 * 256 so that they stay non-negative.
    let y_sum: u32 = 77 * r + 150 * g + 29 * b + 128;
    let u_sum: u32 = 127 * b + 32896 - (43 * r + 84 * g);
    let v_sum: u32 = 127 * r + 32896 - (106 * g + 21 * b);
    proof {
        let (ri, gi, bi) = (r as int, g as int, b as int);
        assert((-43 * ri - 84 * gi + 127 * bi + 128) / 256 + 128 == (u_sum as int) / 256);
        assert((127 * ri - 106 * gi - 21 * bi + 128) / 256 + 128 == (v_sum as int) / 256);
    }
    YuvPixel { y: clamp_to_byte(y_sum / 256), u: clamp_to_byte(u_sum / 256), v: clamp_to_byte(v_sum / 256) }
}

fn clamp_to_byte(x: u32) -> (r: u8)
    ensures
        r == clamp_byte(x as int),
{
    if x > 255 {
        255
    } else {
        x as u8
    }
}

/// Channel `k` of pixel `p` in an interleaved buffer with `bpp` bytes per pixel.
pub open spec fn channel(rgb: Seq<u8>, bpp: int, p: int, k: int) -> int {
    rgb[p * bpp + k] as int
}

pub open spec fn luma_at(rgb: Seq<u8>, bpp: int, p: int) -> int {
    luma(channel(rgb, bpp, p, 0), channel(rgb, bpp, p, 1), channel(rgb, bpp, p, 2))
}

pub open spec fn chroma_u_at(rgb: Seq<u8>, bpp: int, p: int) -> int {
    chroma_u(channel(rgb, bpp, p, 0), channel(rgb, bpp, p, 1), channel(rgb, bpp, p, 2))
}

pub open spec fn chroma_v_at(rgb: Seq<u8>, bpp: int, p: int) -> int {
    chroma_v(channel(rgb, bpp, p, 0), channel(rgb, bpp, p, 1), channel(rgb, bpp, p, 2))
}

/// Number of chroma samples taken: one per even row and odd column.
pub open spec fn sample_count(w: int, h: int) -> int {
    ((h + 1) / 2) * (w / 2)
}

/// Pixel index of chroma sample `m`: the top-right pixel of the `m`-th 2x2 block
/// in row-major block order.
pub open spec fn sample_pixel(w: int, m: int) -> int {
    2 * (m / (w / 2)) * w + 2 * (m % (w / 2)) + 1
}

/// Size of one chroma plane.
pub open spec fn chroma_size(w: int, h: int) -> int {
    (w * h) / 4
}

/// Length of a planar YUV420 frame.
pub open spec fn frame_len(w: int, h: int) -> int {
    (w * h * 3) / 2
}

/// Every chroma write lands inside the frame: the last `v` sample, written at
/// `w*h + chroma_size + sample_count - 1`, stays below `frame_len`.
pub open spec fn chroma_fits(w: int, h: int) -> bool {
    sample_count(w, h) + chroma_size(w, h) <= (w * h) / 2
}

/// Chroma byte `m` (counted from the end of the Y plane) after the first `done`
/// samples were written, each as `u` at `m` and then `v` at `chroma_size + m`.
/// Where the two planes overlap the later write wins.
#[verifier::opaque]
pub open spec fn chroma_byte(w: int, h: int, rgb: Seq<u8>, bpp: int, done: int, m: int) -> int {
    let c = chroma_size(w, h);
    if 0 <= m - c < done && (c == 0 || m >= done) {
        chroma_v_at(rgb, bpp, sample_pixel(w, m - c))
    } else if 0 <= m < done {
        chroma_u_at(rgb, bpp, sample_pixel(w, m))
    } else {
        0
    }
}

/// The planar YUV420 frame of a `w` by `h` image: the Y plane, then the U and V
/// planes sampled from the top-right pixel of each 2x2 block; unwritten bytes are 0.
pub open spec fn yuv420_frame(w: int, h: int, rgb: Seq<u8>, bpp: int) -> Seq<u8> {
    Seq::new(
        frame_len(w, h) as nat,
        |k: int|
            if k < w * h {
                luma_at(rgb, bpp, k) as u8
            } else {
                chroma_byte(w, h, rgb, bpp, sample_count(w, h), k - w * h) as u8
            },
    )
}

/// Whether every chroma write of a `width` by `height` frame lands inside it.
pub fn chroma_layout_fits(width: u32, height: u32) -> (r: bool)
    ensures
        r == chroma_fits(width as int, height as int),
{
    let (w, h) = (width as u64, height as u64);
    assert(w * h <= u32::MAX as int * u32::MAX as int) by (nonlinear_arith)
        requires
            w <= u32::MAX,
            h <= u32::MAX,
    ;
    assert(((h + 1) / 2) * (w / 2) <= w * h) by (nonlinear_arith)
        requires
            w <= u32::MAX,
            h <= u32::MAX,
    ;
    let n: u64 = w * h;
    ((h + 1) / 2) * (w / 2) <= n / 2 - n / 4
}

fn pixel_yuv(rgb: &[u8], bpp: usize, p: usize) -> (px: YuvPixel)
    requires
        bpp >= 3,
        (p + 1) * bpp <= rgb@.len(),
    ensures
        px.y == luma_at(rgb@, bpp as int, p as int),
        px.u == chroma_u_at(rgb@, bpp as int, p as int),
        px.v == chroma_v_at(rgb@, bpp as int, p as int),
{
    assert((p + 1) * bpp == p * bpp + bpp) by (nonlinear_arith);
    assert(rgb@.len() == rgb.len());
    let base: usize = p * bpp;
    convert_rgb_to_yuv420_pixel(rgb[base], rgb[base + 1], rgb[base + 2])
}

proof fn lemma_pixel_in_frame(row: int, col: int, w: int, h: int, bpp: int)
    requires
        0 <= row < h,
        0 <= col < w,
        bpp >= 0,
    ensures
        row * w + col < w * h,
        (row * w + col + 1) * bpp <= w * h * bpp,
{
    assert(row * w + col < w * h) by (nonlinear_arith)
        requires
            0 <= row < h,
            0 <= col < w,
    ;
    lemma_mul_inequality(row * w + col + 1, w * h, bpp);
}

proof fn lemma_block_pixel(row: int, col: int, w: int, h: int, m: int, bpp: int)
    requires
        0 <= row < h,
        row % 2 == 0,
        0 <= col < w,
        col % 2 == 1,
        m == (row / 2) * (w / 2) + (col - 1) / 2,
        bpp >= 0,
    ensures
        row * w + col < w * h,
        (row * w + col + 1) * bpp <= w * h * bpp,
        row * w + col == sample_pixel(w, m),
        m < sample_count(w, h),
{
    let half_w = w / 2;
    lemma_pixel_in_frame(row, col, w, h, bpp);
    lemma_fundamental_div_mod_converse(m, half_w, row / 2, (col - 1) / 2);
    assert(2 * (row / 2) * w == row * w) by (nonlinear_arith)
        requires
            row % 2 == 0,
    ;
    assert((col - 1) / 2 < half_w && row / 2 + 1 <= (h + 1) / 2);
    lemma_mul_inequality(row / 2 + 1, (h + 1) / 2, half_w);
    assert((row / 2 + 1) * half_w == (row / 2) * half_w + half_w) by (nonlinear_arith);
}

/// Writing sample `m` as `u` and then `v` moves the chroma bytes from `m` to
/// `m + 1` samples done.
proof fn lemma_chroma_step(w: int, h: int, rgb: Seq<u8>, bpp: int, m: int)
    requires
        0 <= m,
        chroma_size(w, h) >= 0,
    ensures
        chroma_byte(w, h, rgb, bpp, m + 1, chroma_size(w, h) + m) == chroma_v_at(
            rgb,
            bpp,
            sample_pixel(w, m),
        ),
        chroma_size(w, h) > 0 ==> chroma_byte(w, h, rgb, bpp, m + 1, m) == chroma_u_at(
            rgb,
            bpp,
            sample_pixel(w, m),
        ),
        forall|q: int|
            q != m && q != chroma_size(w, h) + m ==> #[trigger] chroma_byte(
                w,
                h,
                rgb,
                bpp,
                m + 1,
                q,
            ) == chroma_byte(w, h, rgb, bpp, m, q),
{
    reveal(chroma_byte);
}

/// Writes chroma sample `m`, taken from pixel `pix`: `u` into the U plane, then
/// `v` into the V plane.
fn write_chroma_sample(
    yuv: &mut Vec<u8>,
    rgb: &[u8],
    bpp: usize,
    width: u32,
    height: u32,
    frame_size: usize,
    chroma: usize,
    m: usize,
    pix: usize,
)
    requires
        frame_size == width * height,
        chroma == chroma_size(width as int, height as int),
        bpp >= 3,
        (pix + 1) * bpp <= rgb@.len(),
        pix == sample_pixel(width as int, m as int),
        m < sample_count(width as int, height as int),
        chroma_fits(width as int, height as int),
        old(yuv)@.len() == frame_len(width as int, height as int),
        forall|k: int|
            width * height <= k < old(yuv)@.len() ==> old(yuv)@[k] == chroma_byte(
                width as int,
                height as int,
                rgb@,
                bpp as int,
                m as int,
                k - width * height,
            ),
    ensures
        final(yuv)@.len() == old(yuv)@.len(),
        forall|k: int| 0 <= k < width * height ==> final(yuv)@[k] == old(yuv)@[k],
        forall|k: int|
            width * height <= k < final(yuv)@.len() ==> final(yuv)@[k] == chroma_byte(
                width as int,
                height as int,
                rgb@,
                bpp as int,
                m + 1,
                k - width * height,
            ),
{
    let ghost (w, h) = (width as int, height as int);
    assert(w * h * 3 == 3 * (w * h)) by (nonlinear_arith);
    assert(yuv@.len() == yuv.len());
    let px = pixel_yuv(rgb, bpp, pix);
    let ghost before = yuv@;
    yuv.set(frame_size + m, px.u);
    yuv.set(frame_size + chroma + m, px.v);
    proof {
        lemma_chroma_step(w, h, rgb@, bpp as int, m as int);
        assert forall|k: int| w * h <= k < yuv@.len() implies yuv@[k] == chroma_byte(
            w,
            h,
            rgb@,
            bpp as int,
            m + 1,
            k - w * h,
        ) by {
            if k != frame_size + chroma + m && k != frame_size + m {
                assert(yuv@[k] == before[k]);
            }
        }
    }
}

/// Converts an interleaved RGB image with `bytes_per_pixel` bytes per pixel
/// (extra bytes beyond the third are skipped) to a planar YUV420 frame.
pub fn convert_rgb_to_yuv420(width: u32, height: u32, rgb: &[u8], bytes_per_pixel: usize) -> (yuv:
    Vec<u8>)
    requires
        bytes_per_pixel >= 3,
        width * height * bytes_per_pixel <= rgb@.len(),
        chroma_fits(width as int, height as int),
    ensures
        yuv@.len() == frame_len(width as int, height as int),
        yuv@ == yuv420_frame(width as int, height as int, rgb@, bytes_per_pixel as int),
{
    let w: usize = width as usize;
    let h: usize = height as usize;
    assert(w * h * 3 <= w * h * bytes_per_pixel) by (nonlinear_arith)
        requires
            bytes_per_pixel >= 3,
    ;
    assert(rgb@.len() == rgb.len());
    let frame_size: usize = w * h;
    assert(frame_size * bytes_per_pixel == w * h * bytes_per_pixel);
    let chroma: usize = frame_size / 4;
    let total: usize = frame_size * 3 / 2;
    let mut yuv: Vec<u8> = vec![0u8; total];

    // The Y plane first, then the chroma samples block by block. Y and chroma
    // bytes never share an index, so this gives the same frame as sampling
    // chroma while walking the pixels.
    let mut p: usize = 0;
    while p < frame_size
        invariant
            p <= frame_size,
            frame_size == w * h,
            frame_size * bytes_per_pixel <= rgb@.len(),
            total == frame_len(w as int, h as int),
            bytes_per_pixel >= 3,
            yuv@.len() == total,
            forall|k: int| 0 <= k < p ==> yuv@[k] == luma_at(rgb@, bytes_per_pixel as int, k),
            forall|k: int| p <= k < total ==> yuv@[k] == 0,
        decreases frame_size - p,
    {
        proof {
            lemma_mul_inequality(p as int + 1, frame_size as int, bytes_per_pixel as int);
        }
        let px = pixel_yuv(rgb, bytes_per_pixel, p);
        yuv.set(p, px.y);
        p += 1;
    }

    let half_w: usize = w / 2;
    let mut m: usize = 0;
    let mut row: usize = 0;
    assert((row / 2) * half_w == 0) by (nonlinear_arith)
        requires
            row == 0,
    ;
    assert forall|k: int| frame_size <= k < total implies yuv@[k] == chroma_byte(
        w as int,
        h as int,
        rgb@,
        bytes_per_pixel as int,
        0,
        k - frame_size,
    ) by {
        reveal(chroma_byte);
    }
    while half_w > 0 && row < h
        invariant
            w == width,
            h == height,
            w * h * 3 <= usize::MAX,
            row % 2 == 0,
            row <= h + 1,
            h <= u32::MAX,
            w <= u32::MAX,
            half_w == w / 2,
            m == (row / 2) * half_w,
            frame_size == w * h,
            chroma == chroma_size(w as int, h as int),
            total == frame_len(w as int, h as int),
            chroma_fits(w as int, h as int),
            w * h * bytes_per_pixel <= rgb@.len(),
            bytes_per_pixel >= 3,
            yuv@.len() == total,
            forall|k: int| 0 <= k < frame_size ==> yuv@[k] == luma_at(rgb@, bytes_per_pixel as int, k),
            forall|k: int|
                frame_size <= k < total ==> yuv@[k] == chroma_byte(
                    w as int,
                    h as int,
                    rgb@,
                    bytes_per_pixel as int,
                    m as int,
                    k - frame_size,
                ),
        decreases h + 1 - row,
    {
        assert(h + 2 <= usize::MAX && w + 2 <= usize::MAX) by (nonlinear_arith)
            requires
                w >= 2,
                h >= 1,
                w * h * 3 <= usize::MAX,
        ;
        let mut col: usize = 1;
        while col < w
            invariant
                w == width,
                h == height,
                w >= 2,
                w * h * 3 <= usize::MAX,
                row % 2 == 0,
                row < h,
                col % 2 == 1,
                col <= w + 1,
                h <= u32::MAX,
                w <= u32::MAX,
                half_w == w / 2,
                m == (row / 2) * half_w + (col - 1) / 2,
                frame_size == w * h,
                chroma == chroma_size(w as int, h as int),
                total == frame_len(w as int, h as int),
                chroma_fits(w as int, h as int),
                w * h * bytes_per_pixel <= rgb@.len(),
                bytes_per_pixel >= 3,
                yuv@.len() == total,
                forall|k: int| 0 <= k < frame_size ==> yuv@[k] == luma_at(rgb@, bytes_per_pixel as int, k),
                forall|k: int|
                    frame_size <= k < total ==> yuv@[k] == chroma_byte(
                        w as int,
                        h as int,
                        rgb@,
                        bytes_per_pixel as int,
                        m as int,
                        k - frame_size,
                    ),
            decreases w + 1 - col,
        {
            proof {
                lemma_block_pixel(row as int, col as int, w as int, h as int, m as int, bytes_per_pixel as int);
            }
            let pix: usize = row * w + col;
            write_chroma_sample(&mut yuv, rgb, bytes_per_pixel, width, height, frame_size, chroma, m, pix);
            m += 1;
            col += 2;
        }
        assert((col - 1) / 2 == half_w);
        assert(((row + 2) / 2) * half_w == (row / 2) * half_w + half_w) by (nonlinear_arith)
            requires
                row % 2 == 0,
        ;
        row += 2;
    }
    assert(m == sample_count(w as int, h as int)) by (nonlinear_arith)
        requires
            half_w == w / 2,
            m == (row / 2) * half_w,
            row % 2 == 0,
            half_w == 0 || (h <= row <= h + 1),
    ;
    assert(yuv@ =~= yuv420_frame(w as int, h as int, rgb@, bytes_per_pixel as int));
    yuv
}

/// Every channel of a converted pixel lies in the byte range, whatever the
/// input bytes are.
pub proof fn lemma_pixel_channels_in_range(r: u8, g: u8, b: u8)
    ensures
        0 <= luma(r as int, g as int, b as int) <= 255,
        0 <= chroma_u(r as int, g as int, b as int) <= 255,
        0 <= chroma_v(r as int, g as int, b as int) <= 255,
{
}

/// Each chroma sample is taken from a pixel inside the frame.
pub proof fn lemma_sample_pixel_in_frame(w: int, h: int, m: int)
    requires
        w >= 0,
        h >= 0,
        0 <= m < sample_count(w, h),
    ensures
        0 <= sample_pixel(w, m) < w * h,
{
    let hw = w / 2;
    assert(hw > 0) by (nonlinear_arith)
        requires
            0 <= m < ((h + 1) / 2) * hw,
            h >= 0,
    ;
    lemma_fundamental_div_mod(m, hw);
    lemma_mod_bound(m, hw);
    let q = m / hw;
    let r = m % hw;
    assert(0 <= q < (h + 1) / 2) by (nonlinear_arith)
        requires
            m == hw * q + r,
            0 <= r < hw,
            0 <= m < ((h + 1) / 2) * hw,
    ;
    assert(0 <= 2 * q * w + 2 * r + 1 < w * h) by (nonlinear_arith)
        requires
            0 <= q,
            2 * q + 1 <= h,
            0 <= r < hw,
            hw == w / 2,
            w >= 0,
    ;
}

/// Bytes past the third of each pixel are never read: two buffers whose pixels
/// agree on their three channels give the same frame, whatever their strides.
pub proof fn lemma_stride_ignores_extra_bytes(
    w: int,
    h: int,
    rgb_a: Seq<u8>,
    bpp_a: int,
    rgb_b: Seq<u8>,
    bpp_b: int,
)
    requires
        w >= 0,
        h >= 0,
        forall|p: int, k: int|
            0 <= p < w * h && 0 <= k < 3 ==> channel(rgb_a, bpp_a, p, k) == channel(
                rgb_b,
                bpp_b,
                p,
                k,
            ),
    ensures
        yuv420_frame(w, h, rgb_a, bpp_a) == yuv420_frame(w, h, rgb_b, bpp_b),
{
    let fa = yuv420_frame(w, h, rgb_a, bpp_a);
    let fb = yuv420_frame(w, h, rgb_b, bpp_b);
    let n = w * h;
    let c = chroma_size(w, h);
    let s = sample_count(w, h);
    reveal(chroma_byte);
    assert forall|k: int| 0 <= k < fa.len() implies fa[k] == fb[k] by {
        if k < n {
            assert(channel(rgb_a, bpp_a, k, 0) == channel(rgb_b, bpp_b, k, 0));
            assert(channel(rgb_a, bpp_a, k, 1) == channel(rgb_b, bpp_b, k, 1));
            assert(channel(rgb_a, bpp_a, k, 2) == channel(rgb_b, bpp_b, k, 2));
        } else {
            let m = k - n;
            if 0 <= m - c < s {
                lemma_sample_pixel_in_frame(w, h, m - c);
                let p = sample_pixel(w, m - c);
                assert(channel(rgb_a, bpp_a, p, 0) == channel(rgb_b, bpp_b, p, 0));
                assert(channel(rgb_a, bpp_a, p, 1) == channel(rgb_b, bpp_b, p, 1));
                assert(channel(rgb_a, bpp_a, p, 2) == channel(rgb_b, bpp_b, p, 2));
            }
            if 0 <= m < s {
                lemma_sample_pixel_in_frame(w, h, m);
                let p = sample_pixel(w, m);
                assert(channel(rgb_a, bpp_a, p, 0) == channel(rgb_b, bpp_b, p, 0));
                assert(channel(rgb_a, bpp_a, p, 1) == channel(rgb_b, bpp_b, p, 1));
                assert(channel(rgb_a, bpp_a, p, 2) == channel(rgb_b, bpp_b, p, 2));
            }
        }
    }
    assert(fa =~= fb);
}

} // verus!
