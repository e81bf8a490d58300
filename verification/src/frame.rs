//! Captured frames and the pixel-buffer conversions between the byte orders
//! that the display servers deliver and the RGBA that the encoder takes.

use vstd::prelude::*;
use vstd::bytes::{
    spec_u32_from_le_bytes, spec_u32_to_le_bytes, u32_from_le_bytes, u32_to_le_bytes,
    lemma_auto_spec_u32_to_from_le_bytes,
};
use vstd::slice::slice_subrange;
use crate::region::Region;

verus! {

#[verifier::external_type_specification]
#[verifier::external_body]
pub struct ExInstant(std::time::Instant);

/// `Instant::clone`: `Instant` is `Copy`, so the clone is the same instant.
pub assume_specification[ <std::time::Instant as Clone>::clone ](i: &std::time::Instant) -> (r: std::time::Instant)
    ensures
        r == *i,
;

/// `Instant::now`: the current instant of the monotonic clock. Nothing is
/// stated of the value.
#[verifier::external_body]
pub(crate) fn instant_now() -> std::time::Instant {
    std::time::Instant::now()
}

/// A single captured frame in RGBA format.
#[derive(Clone, Debug)]
pub struct CaptureFrame {
    pub data: Vec<u8>,
    pub width: u32,
    pub height: u32,
    pub timestamp: std::time::Instant,
}

// ---------------------------------------------------------------------------
// Pixel reordering
// ---------------------------------------------------------------------------

/// The first `n` four-byte pixels of `raw`, each rearranged so that output
/// byte `k` of a pixel is its input byte `order[k]`.
pub open spec fn reorder_pixels(raw: Seq<u8>, n: nat, order: (int, int, int, int)) -> Seq<u8>
    decreases n,
{
    if n == 0 {
        Seq::<u8>::empty()
    } else {
        let b = 4 * (n - 1);
        reorder_pixels(raw, (n - 1) as nat, order) + seq![
            raw[b + order.0],
            raw[b + order.1],
            raw[b + order.2],
            raw[b + order.3],
        ]
    }
}

/// BGRA to RGBA (and back): the first and third byte of each pixel swap.
pub open spec fn swap_order() -> (int, int, int, int) {
    (2, 1, 0, 3)
}

/// RGBA to ARGB: alpha moves to the front.
pub open spec fn argb_order() -> (int, int, int, int) {
    (3, 0, 1, 2)
}

/// The complete pixels of `raw` with red and blue swapped; trailing bytes
/// that do not make a whole pixel are dropped.
pub open spec fn swap_red_blue(raw: Seq<u8>) -> Seq<u8> {
    reorder_pixels(raw, raw.len() / 4, swap_order())
}

proof fn lemma_reorder_len(raw: Seq<u8>, n: nat, order: (int, int, int, int))
    ensures
        reorder_pixels(raw, n, order).len() == 4 * n,
    decreases n,
{
    if n > 0 {
        lemma_reorder_len(raw, (n - 1) as nat, order);
    }
}

/// Only the bytes of the first `n` pixels matter.
proof fn lemma_reorder_prefix(a: Seq<u8>, b: Seq<u8>, n: nat, order: (int, int, int, int))
    requires
        4 * n <= a.len(),
        4 * n <= b.len(),
        forall|i: int| 0 <= i < 4 * n ==> a[i] == b[i],
        0 <= order.0 < 4 && 0 <= order.1 < 4 && 0 <= order.2 < 4 && 0 <= order.3 < 4,
    ensures
        reorder_pixels(a, n, order) == reorder_pixels(b, n, order),
    decreases n,
{
    if n > 0 {
        lemma_reorder_prefix(a, b, (n - 1) as nat, order);
    }
}

/// Appends the pixels `raw[start + 4k .. start + 4k + 4]` for `k < count`,
/// each reordered by `order`.
fn append_reordered(
    out: &mut Vec<u8>,
    raw: &[u8],
    start: usize,
    count: usize,
    order: (usize, usize, usize, usize),
)
    requires
        start + 4 * count <= raw@.len(),
        order.0 < 4 && order.1 < 4 && order.2 < 4 && order.3 < 4,
    ensures
        final(out)@ == old(out)@ + reorder_pixels(
            raw@.subrange(start as int, start + 4 * count),
            count as nat,
            (order.0 as int, order.1 as int, order.2 as int, order.3 as int),
        ),
{
    let ghost seg = raw@.subrange(start as int, start + 4 * count);
    let ghost ord = (order.0 as int, order.1 as int, order.2 as int, order.3 as int);
    let ghost base = out@;
    let raw_len = raw.len();
    let mut k: usize = 0;
    while k < count
        invariant
            0 <= k <= count,
            raw_len == raw@.len(),
            start + 4 * count <= raw@.len(),
            order.0 < 4 && order.1 < 4 && order.2 < 4 && order.3 < 4,
            seg == raw@.subrange(start as int, start + 4 * count),
            ord == (order.0 as int, order.1 as int, order.2 as int, order.3 as int),
            out@ == base + reorder_pixels(seg, k as nat, ord),
        decreases count - k,
    {
        let b = start + 4 * k;
        out.push(raw[b + order.0]);
        out.push(raw[b + order.1]);
        out.push(raw[b + order.2]);
        out.push(raw[b + order.3]);
        k += 1;
        assert(out@ =~= base + reorder_pixels(seg, k as nat, ord));
    }
}

// ---------------------------------------------------------------------------
// Frame conversions
// ---------------------------------------------------------------------------

/// The bytes of a full-screen frame read from a BGRA buffer: the complete
/// pixels of the first `expected` bytes converted to RGBA, then zero bytes up
/// to `expected`.
pub open spec fn full_frame_bytes(raw: Seq<u8>, expected: nat) -> Seq<u8> {
    let usable = if raw.len() < expected { raw.len() } else { expected };
    let pixels = reorder_pixels(raw, usable / 4, swap_order());
    pixels + Seq::new((expected - 4 * (usable / 4)) as nat, |i: int| 0u8)
}

/// Whether a `width` x `height` frame's byte size fits in a `u32`.
pub fn frame_size_fits(width: u32, height: u32) -> (b: bool)
    ensures
        b == (width * height * 4 <= u32::MAX),
{
    let w = width as u64;
    let h = height as u64;
    assert(w * h <= 0xffff_ffff * 0xffff_ffff) by (nonlinear_arith)
        requires
            w <= 0xffff_ffff,
            h <= 0xffff_ffff,
    ;
    let area = w * h;
    assert(area <= (u32::MAX / 4) as u64 <==> width * height * 4 <= u32::MAX);
    area <= (u32::MAX / 4) as u64
}

/// Extract a full-screen frame, converting BGRA to RGBA.
pub fn extract_full_frame(raw: &[u8], width: u32, height: u32) -> (f: CaptureFrame)
    requires
        width * height * 4 <= u32::MAX,
    ensures
        f.width == width,
        f.height == height,
        f.data@ == full_frame_bytes(raw@, (width * height * 4) as nat),
{
    assert(width * height <= u32::MAX) by (nonlinear_arith)
        requires
            width * height * 4 <= u32::MAX,
    ;
    let expected = (width * height * 4) as usize;
    let mut data: Vec<u8> = Vec::with_capacity(expected);
    let usable = if raw.len() < expected {
        raw.len()
    } else {
        expected
    };
    let count = usable / 4;
    append_reordered(&mut data, raw, 0, count, (2, 1, 0, 3));
    proof {
        lemma_reorder_prefix(
            raw@.subrange(0, 4 * count as int),
            raw@,
            count as nat,
            swap_order(),
        );
        lemma_reorder_len(raw@, count as nat, swap_order());
    }
    data.resize(expected, 0);
    assert(data@ =~= full_frame_bytes(raw@, expected as nat));
    CaptureFrame { data, width, height, timestamp: instant_now() }
}

/// `y` read as the unsigned value that `y as u32` gives.
pub open spec fn as_u32(y: i32) -> int {
    if y >= 0 {
        y as int
    } else {
        y + 0x1_0000_0000
    }
}

/// Byte offset in the screen buffer where row `row` of the region starts.
pub open spec fn row_start(stride: int, region: Region, row: int) -> int {
    (as_u32(region.y) + row) * stride + region.x * 4
}

/// The bytes that row `row` of the region contributes: its pixels converted
/// to RGBA, or `width * 4` zero bytes when the row runs past the end of the
/// buffer.
pub open spec fn crop_row(raw: Seq<u8>, stride: int, region: Region, row: int) -> Seq<u8> {
    let start = row_start(stride, region, row);
    let end = start + region.width * 4;
    if end <= raw.len() {
        swap_red_blue(raw.subrange(start, end))
    } else {
        Seq::new((region.width * 4) as nat, |i: int| 0u8)
    }
}

/// The bytes of the first `rows` rows of a cropped region.
pub open spec fn crop_rows(raw: Seq<u8>, stride: int, region: Region, rows: nat) -> Seq<u8>
    decreases rows,
{
    if rows == 0 {
        Seq::<u8>::empty()
    } else {
        crop_rows(raw, stride, region, (rows - 1) as nat) + crop_row(
            raw,
            stride,
            region,
            rows - 1,
        )
    }
}

/// The inputs on which cropping computes all its offsets without overflow.
pub open spec fn crop_fits(screen_width: u32, region: Region) -> bool {
    &&& screen_width * 4 <= u32::MAX
    &&& region.width * region.height * 4 <= u32::MAX
    &&& region.height > 0 ==> {
        &&& region.x >= 0
        &&& as_u32(region.y) + region.height - 1 <= u32::MAX
        &&& row_start(screen_width * 4, region, region.height - 1) + region.width * 4
            <= usize::MAX
    }
}

/// A full-screen frame always has exactly the expected number of bytes,
/// however long the buffer it was read from.
pub proof fn lemma_full_frame_len(raw: Seq<u8>, expected: nat)
    ensures
        full_frame_bytes(raw, expected).len() == expected,
{
    let usable = if raw.len() < expected {
        raw.len()
    } else {
        expected
    };
    lemma_reorder_len(raw, usable / 4, swap_order());
}

/// Every row of a crop holds `width * 4` bytes, whether it was read from the
/// buffer or filled with zeros, so the first `rows` rows hold
/// `rows * width * 4` bytes.
pub proof fn lemma_crop_len(raw: Seq<u8>, stride: int, region: Region, rows: nat)
    requires
        stride >= 0,
        region.x >= 0,
    ensures
        crop_rows(raw, stride, region, rows).len() == rows * region.width * 4,
    decreases rows,
{
    if rows > 0 {
        let r = rows - 1;
        let w4 = region.width * 4;
        lemma_crop_len(raw, stride, region, r as nat);
        let start = row_start(stride, region, r);
        assert(start >= 0) by (nonlinear_arith)
            requires
                stride >= 0,
                region.x >= 0,
                r >= 0,
                as_u32(region.y) >= 0,
                start == (as_u32(region.y) + r) * stride + region.x * 4,
        ;
        if start + w4 <= raw.len() {
            let seg = raw.subrange(start, start + w4);
            assert(seg.len() == w4);
            assert(seg.len() / 4 == region.width);
            lemma_reorder_len(seg, seg.len() / 4, swap_order());
            assert(crop_row(raw, stride, region, r as int) == swap_red_blue(seg));
        }
        assert(crop_row(raw, stride, region, r as int).len() == w4);
        assert(crop_rows(raw, stride, region, rows) == crop_rows(raw, stride, region, r as nat)
            + crop_row(raw, stride, region, r as int));
        assert(rows * region.width * 4 == r * region.width * 4 + w4) by (nonlinear_arith)
            requires
                rows == r + 1,
                w4 == region.width * 4,
        ;
    } else {
        assert(rows * region.width * 4 == 0) by (nonlinear_arith)
            requires
                rows == 0,
        ;
    }
}

/// Whether `crop_frame` can crop `region` out of a screen `screen_width`
/// pixels wide without overflowing its offsets.
pub fn crop_fits_screen(screen_width: u32, region: Region) -> (b: bool)
    ensures
        b == crop_fits(screen_width, region),
{
    if screen_width > u32::MAX / 4 {
        return false;
    }
    let w = region.width as u64;
    let h = region.height as u64;
    assert(w * h <= 0xffff_ffff * 0xffff_ffff) by (nonlinear_arith)
        requires
            w <= 0xffff_ffff,
            h <= 0xffff_ffff,
    ;
    let area: u64 = w * h;
    if area > (u32::MAX / 4) as u64 {
        assert(region.width * region.height * 4 > u32::MAX);
        return false;
    }
    assert(region.width * region.height * 4 <= u32::MAX);
    if region.height == 0 {
        return true;
    }
    if region.x < 0 {
        return false;
    }
    let ry: i32 = region.y;
    let yu = ry as u32;
    assert(ry >= 0 ==> yu == ry) by (bit_vector)
        requires
            yu == ry as u32,
    ;
    assert(ry < 0 ==> yu + 0x1_0000_0000 == ry + 0x2_0000_0000) by (bit_vector)
        requires
            yu == ry as u32,
    ;
    let last_row: u64 = yu as u64 + (region.height - 1) as u64;
    if last_row > u32::MAX as u64 {
        return false;
    }
    let stride: u128 = screen_width as u128 * 4;
    let lr = last_row as u128;
    assert(lr * stride <= 0xffff_ffff * 0x4_0000_0000) by (nonlinear_arith)
        requires
            lr <= 0xffff_ffff,
            stride <= 0x4_0000_0000,
    ;
    let end: u128 = lr * stride + region.x as u128 * 4 + region.width as u128 * 4;
    assert(end == row_start(screen_width * 4, region, region.height - 1) + region.width * 4);
    end <= usize::MAX as u128
}

/// Crop a full-screen BGRA frame to the selected region, converting to RGBA.
/// The frame always holds `width * height * 4` bytes: a row that runs past
/// the end of the buffer is filled with zeros.
pub fn crop_frame(raw: &[u8], screen_width: u32, region: Region) -> (f: CaptureFrame)
    requires
        crop_fits(screen_width, region),
    ensures
        f.width == region.width,
        f.height == region.height,
        f.data@ == crop_rows(raw@, screen_width * 4, region, region.height as nat),
        f.data@.len() == region.width * region.height * 4,
{
    let stride = (screen_width * 4) as usize;
    assert(region.width * region.height <= u32::MAX) by (nonlinear_arith)
        requires
            region.width * region.height * 4 <= u32::MAX,
    ;
    let mut data: Vec<u8> = Vec::with_capacity((region.width * region.height * 4) as usize);
    let ghost sw = screen_width * 4;
    let mut row: u32 = 0;
    while row < region.height
        invariant
            0 <= row <= region.height,
            crop_fits(screen_width, region),
            stride == screen_width * 4,
            sw == stride as int,
            data@ == crop_rows(raw@, sw, region, row as nat),
            data@.len() == row * region.width * 4,
            region.width * region.height * 4 <= u32::MAX,
        decreases region.height - row,
    {
        let ry: i32 = region.y;
        let yu = ry as u32;
        assert(ry >= 0 ==> yu == ry) by (bit_vector)
            requires
                yu == ry as u32,
        ;
        assert(ry < 0 ==> yu + 0x1_0000_0000 == ry + 0x2_0000_0000) by (bit_vector)
            requires
                yu == ry as u32,
        ;
        assert(yu as int == as_u32(region.y));
        assert(row_start(sw, region, row as int) + region.width * 4 <= row_start(
            sw,
            region,
            region.height - 1,
        ) + region.width * 4) by (nonlinear_arith)
            requires
                row <= region.height - 1,
                sw >= 0,
        ;
        let src_y = (yu + row) as usize;
        let src_x = region.x as usize * 4;
        assert(src_y * stride <= row_start(sw, region, row as int)) by (nonlinear_arith)
            requires
                src_y == as_u32(region.y) + row,
                stride == sw,
                region.x >= 0,
        ;
        let start = src_y * stride + src_x;
        let end = start + (region.width as usize * 4);
        let w4 = region.width as usize * 4;
        assert(row * region.width * 4 + region.width * 4 <= region.width * region.height * 4)
            by (nonlinear_arith)
            requires
                row < region.height,
        ;
        if end <= raw.len() {
            append_reordered(&mut data, raw, start, region.width as usize, (2, 1, 0, 3));
            assert(raw@.subrange(start as int, end as int).len() / 4 == region.width);
        } else {
            let filled = data.len() + w4;
            data.resize(filled, 0);
        }
        row += 1;
        assert(data@ =~= crop_rows(raw@, sw, region, row as nat));
        proof {
            lemma_crop_len(raw@, sw, region, row as nat);
        }
    }
    assert(row * region.width * 4 == region.width * region.height * 4) by (nonlinear_arith)
        requires
            row == region.height,
    ;
    CaptureFrame { data, width: region.width, height: region.height, timestamp: instant_now() }
}

/// Swaps the first and third byte of every complete pixel in place, as the
/// X11 capture does to turn BGRA into RGBA; trailing bytes stay as they were.
pub fn swap_red_blue_in_place(data: &mut Vec<u8>)
    ensures
        final(data)@ == swap_red_blue(old(data)@) + old(data)@.skip(4 * (old(data)@.len() / 4) as int),
{
    let ghost orig = data@;
    let len = data.len();
    let n = len / 4;
    let mut k: usize = 0;
    while k < n
        invariant
            0 <= k <= n,
            len == orig.len(),
            n == orig.len() / 4,
            data@.len() == orig.len(),
            forall|i: int| 4 * k <= i < orig.len() ==> data@[i] == orig[i],
            data@.subrange(0, 4 * k) == reorder_pixels(orig, k as nat, swap_order()),
        decreases n - k,
    {
        let b = 4 * k;
        let red_side = data[b];
        let blue_side = data[b + 2];
        data.set(b, blue_side);
        data.set(b + 2, red_side);
        k += 1;
        assert(data@.subrange(0, 4 * k) =~= reorder_pixels(orig, k as nat, swap_order()));
    }
    assert(data@ =~= swap_red_blue(orig) + orig.skip(4 * (orig.len() / 4) as int));
}

/// RGBA pixels rearranged to ARGB, as the tray icon wants them.
pub fn rgba_to_argb(rgba: &[u8]) -> (argb: Vec<u8>)
    ensures
        argb@ == reorder_pixels(rgba@, rgba@.len() / 4, argb_order()),
{
    let mut out: Vec<u8> = Vec::with_capacity(rgba.len());
    let count = rgba.len() / 4;
    append_reordered(&mut out, rgba, 0, count, (3, 0, 1, 2));
    proof {
        lemma_reorder_prefix(
            rgba@.subrange(0, 4 * count as int),
            rgba@,
            count as nat,
            argb_order(),
        );
    }
    assert(out@ =~= reorder_pixels(rgba@, rgba@.len() / 4, argb_order()));
    out
}

/// One RGBA pixel.
#[derive(Clone, Copy, Debug, PartialEq, Eq, Structural)]
pub struct Rgba8 {
    pub r: u8,
    pub g: u8,
    pub b: u8,
    pub a: u8,
}

/// Convert raw RGBA u8 bytes to RGBA8 pixels; trailing bytes that do not make
/// a whole pixel are dropped.
pub fn rgba_bytes_to_pixels(data: &[u8]) -> (pixels: Vec<Rgba8>)
    ensures
        pixels@.len() == data@.len() / 4,
        forall|i: int|
            0 <= i < pixels@.len() ==> #[trigger] pixels@[i] == (Rgba8 {
                r: data@[4 * i],
                g: data@[4 * i + 1],
                b: data@[4 * i + 2],
                a: data@[4 * i + 3],
            }),
{
    let len = data.len();
    let n = len / 4;
    let mut pixels: Vec<Rgba8> = Vec::with_capacity(n);
    let mut k: usize = 0;
    while k < n
        invariant
            0 <= k <= n,
            len == data@.len(),
            n == data@.len() / 4,
            pixels@.len() == k,
            forall|i: int|
                0 <= i < k ==> #[trigger] pixels@[i] == (Rgba8 {
                    r: data@[4 * i],
                    g: data@[4 * i + 1],
                    b: data@[4 * i + 2],
                    a: data@[4 * i + 3],
                }),
        decreases n - k,
    {
        let b = 4 * k;
        pixels.push(Rgba8 { r: data[b], g: data[b + 1], b: data[b + 2], a: data[b + 3] });
        k += 1;
    }
    pixels
}

/// The size that the X11 capture grabs: the region clipped to the screen.
pub fn clip_to_screen(region: Region, screen_width: u32, screen_height: u32) -> (size: (u32, u32))
    ensures
        size.0 == if region.width <= screen_width { region.width } else { screen_width },
        size.1 == if region.height <= screen_height { region.height } else { screen_height },
{
    let w = if region.width <= screen_width { region.width } else { screen_width };
    let h = if region.height <= screen_height { region.height } else { screen_height };
    (w, h)
}

// ---------------------------------------------------------------------------
// Screenshot hand-off file
// ---------------------------------------------------------------------------

/// The bytes of the screenshot file handed to the selection process:
/// width and height as little-endian `u32`, then the RGBA data.
pub open spec fn screenshot_blob(width: u32, height: u32, data: Seq<u8>) -> Seq<u8> {
    spec_u32_to_le_bytes(width) + spec_u32_to_le_bytes(height) + data
}

/// What the selection process reads from that file: the size and pixels
/// when it holds more than the eight header bytes, nothing otherwise.
pub open spec fn screenshot_blob_contents(blob: Seq<u8>) -> Option<(u32, u32, Seq<u8>)> {
    if blob.len() > 8 {
        Some(
            (
                spec_u32_from_le_bytes(blob.subrange(0, 4)),
                spec_u32_from_le_bytes(blob.subrange(4, 8)),
                blob.skip(8),
            ),
        )
    } else {
        None
    }
}

/// Writes a screenshot into the hand-off format.
pub fn encode_screenshot(frame: &CaptureFrame) -> (blob: Vec<u8>)
    ensures
        blob@ == screenshot_blob(frame.width, frame.height, frame.data@),
{
    let mut blob = u32_to_le_bytes(frame.width);
    let mut h = u32_to_le_bytes(frame.height);
    blob.append(&mut h);
    let mut i: usize = 0;
    let ghost head = blob@;
    while i < frame.data.len()
        invariant
            0 <= i <= frame.data@.len(),
            blob@ == head + frame.data@.take(i as int),
        decreases frame.data@.len() - i,
    {
        blob.push(frame.data[i]);
        i += 1;
        assert(blob@ =~= head + frame.data@.take(i as int));
    }
    assert(frame.data@.take(frame.data@.len() as int) =~= frame.data@);
    blob
}

/// Reads a screenshot from the hand-off format.
pub fn decode_screenshot(blob: &[u8]) -> (r: Option<(u32, u32, Vec<u8>)>)
    ensures
        match r {
            Some((w, h, d)) => screenshot_blob_contents(blob@) == Some((w, h, d@)),
            None => screenshot_blob_contents(blob@) is None,
        },
{
    if blob.len() > 8 {
        let w = u32_from_le_bytes(slice_subrange(blob, 0, 4));
        let h = u32_from_le_bytes(slice_subrange(blob, 4, 8));
        let mut d: Vec<u8> = Vec::with_capacity(blob.len() - 8);
        let mut i: usize = 8;
        while i < blob.len()
            invariant
                8 <= i <= blob@.len(),
                d@ == blob@.subrange(8, i as int),
            decreases blob@.len() - i,
        {
            d.push(blob[i]);
            i += 1;
            assert(d@ =~= blob@.subrange(8, i as int));
        }
        assert(d@ =~= blob@.skip(8));
        Some((w, h, d))
    } else {
        None
    }
}

/// A screenshot written to the hand-off file is read back unchanged,
/// provided it has at least one byte of pixel data.
pub proof fn lemma_screenshot_round_trip(width: u32, height: u32, data: Seq<u8>)
    requires
        data.len() > 0,
    ensures
        screenshot_blob_contents(screenshot_blob(width, height, data)) == Some((width, height, data)),
{
    lemma_auto_spec_u32_to_from_le_bytes();
    let blob = screenshot_blob(width, height, data);
    assert(blob.subrange(0, 4) =~= spec_u32_to_le_bytes(width));
    assert(blob.subrange(4, 8) =~= spec_u32_to_le_bytes(height));
    assert(blob.skip(8) =~= data);
}

} // verus!
