//! Packing of 8-bit grayscale images into the display's page format.
//!
//! A page is a band of eight pixel rows. One output byte stands for the eight
//! pixels of one column within a page: bit `i` is set when the pixel in row `i`
//! of the page is at or above mid-scale.
//!
//! There are two packers. `image_to_screen_space` goes pixel by pixel.
//! `image_to_screen_space_wide` takes sixteen columns at a time as the byte
//! lanes of one 128-bit word. `lemma_lanes_match_scalar` shows that they agree.
//!
//! Decoding and resampling are left to the `image` crate. Its results are not
//! described here beyond their size; they are named, and what this module does
//! with them is stated over those names.

use crate::fixed_vec::{buffer_bytes, buffer_from_array_len, buffer_set};
use crate::ssd1306::screen_space::fits_screen;
use tinyvec::ArrayVec;
use vstd::arithmetic::div_mod::lemma_fundamental_div_mod_converse;
use vstd::prelude::*;

verus! {

/// The value from which a pixel counts as lit.
pub const THRESHOLD: u8 = 128;

/// The number of columns the wide packer handles in one step.
pub const LANE_WIDTH: usize = 16;

/// The lowest bit of each of the sixteen byte lanes.
pub const LANE_ONES: u128 = 0x0101_0101_0101_0101_0101_0101_0101_0101;

/// 1 for a lit pixel, 0 for a dark one.
pub open spec fn lit(pixel: u8) -> int {
    if pixel >= THRESHOLD {
        1
    } else {
        0
    }
}

/// The pixel in `row` and `col` of a row-major image of the given width.
pub open spec fn pixel_at(image: Seq<u8>, width: int, row: int, col: int) -> u8 {
    image[row * width + col]
}

/// The byte for column `col` of page `page`: pixel row `i` of the page gives
/// bit `i`.
pub open spec fn page_byte(image: Seq<u8>, width: int, page: int, col: int) -> u8 {
    (lit(pixel_at(image, width, page * 8, col)) + 2 * lit(
        pixel_at(image, width, page * 8 + 1, col),
    ) + 4 * lit(pixel_at(image, width, page * 8 + 2, col)) + 8 * lit(
        pixel_at(image, width, page * 8 + 3, col),
    ) + 16 * lit(pixel_at(image, width, page * 8 + 4, col)) + 32 * lit(
        pixel_at(image, width, page * 8 + 5, col),
    ) + 64 * lit(pixel_at(image, width, page * 8 + 6, col)) + 128 * lit(
        pixel_at(image, width, page * 8 + 7, col),
    )) as u8
}

/// The packed form of an image: page after page, each `width` bytes long.
pub open spec fn packed(image: Seq<u8>, width: int, page_count: int) -> Seq<u8> {
    Seq::new((page_count * width) as nat, |k: int| page_byte(image, width, k / width, k % width))
}

/// Whether an image of `image_len` bytes can be packed into `page_count` pages
/// of `width` columns: the result fits the screen buffer and the image holds
/// every row that is read.
pub open spec fn packable(image_len: nat, width: int, page_count: int) -> bool {
    &&& 0 <= width
    &&& 0 <= page_count
    &&& page_count * width <= 1024
    &&& page_count * 8 * width <= image_len
}

/// Tests whether an image of `image_len` bytes can be packed into
/// `page_count` pages of `width` columns.
pub fn is_packable(image_len: usize, width: usize, page_count: usize) -> (ok: bool)
    ensures
        ok == packable(image_len as nat, width as int, page_count as int),
{
    if width == 0 || page_count == 0 {
        assert(page_count * width == 0 && page_count * 8 * width == 0) by (nonlinear_arith)
            requires
                width == 0 || page_count == 0,
        ;
        return true;
    }
    if width > 1024 || page_count > 1024 {
        assert(page_count * width > 1024) by (nonlinear_arith)
            requires
                width >= 1,
                page_count >= 1,
                width > 1024 || page_count > 1024,
        ;
        return false;
    }
    assert(page_count * width <= 1024 * 1024 && page_count * 8 * width == 8 * (page_count * width))
        by (nonlinear_arith)
        requires
            width <= 1024,
            page_count <= 1024,
    ;
    let cells = page_count * width;
    cells <= 1024 && cells * 8 <= image_len
}

/// Byte `k` of a 128-bit word, counted from the low end.
pub open spec fn lane_byte(x: u128, k: u128) -> u8 {
    ((x >> (8 * k) as u128) & 0xff) as u8
}

/// The word whose byte lanes are the given bytes, the first in the lowest lane.
pub open spec fn lane_from(bytes: Seq<u8>) -> u128
    decreases bytes.len(),
{
    if bytes.len() == 0 {
        0
    } else {
        bytes[0] as u128 | lane_from(bytes.drop_first()) << 8
    }
}

/// The top bit of every lane, moved to the lane's lowest bit.
pub open spec fn lane_msbs(x: u128) -> u128 {
    (x >> 7) & LANE_ONES
}

/// Eight rows of sixteen pixels folded into sixteen page bytes: row `i` gives
/// bit `i` of every lane.
pub open spec fn lanes_packed(
    r0: u128,
    r1: u128,
    r2: u128,
    r3: u128,
    r4: u128,
    r5: u128,
    r6: u128,
    r7: u128,
) -> u128 {
    lane_msbs(r0) | lane_msbs(r1) << 1 | lane_msbs(r2) << 2 | lane_msbs(r3) << 3 | lane_msbs(r4)
        << 4 | lane_msbs(r5) << 5 | lane_msbs(r6) << 6 | lane_msbs(r7) << 7
}

/// The sixteen pixels of `row` that start at column `section`, as one word.
pub open spec fn row_lane(image: Seq<u8>, width: int, row: int, section: int) -> u128 {
    lane_from(image.subrange(row * width + section, row * width + section + 16))
}

/// The sixteen bytes of page `page` that start at column `section`, as one
/// word.
pub open spec fn page_lane(image: Seq<u8>, width: int, page: int, section: int) -> u128 {
    lanes_packed(
        row_lane(image, width, page * 8, section),
        row_lane(image, width, page * 8 + 1, section),
        row_lane(image, width, page * 8 + 2, section),
        row_lane(image, width, page * 8 + 3, section),
        row_lane(image, width, page * 8 + 4, section),
        row_lane(image, width, page * 8 + 5, section),
        row_lane(image, width, page * 8 + 6, section),
        row_lane(image, width, page * 8 + 7, section),
    )
}

/// What the wide packer computes: every byte is one lane of the word for its
/// page and its section of sixteen columns.
pub open spec fn packed_by_lanes(image: Seq<u8>, width: int, page_count: int) -> Seq<u8> {
    Seq::new(
        (page_count * width) as nat,
        |k: int|
            lane_byte(
                page_lane(image, width, k / width, k % width - k % width % 16),
                (k % width % 16) as u128,
            ),
    )
}

/// Eight pixels folded into one byte with shifts: pixel `i` gives bit `i`.
pub open spec fn bits_packed(
    s0: u8,
    s1: u8,
    s2: u8,
    s3: u8,
    s4: u8,
    s5: u8,
    s6: u8,
    s7: u8,
) -> u8 {
    (s0 >> 7) | (s1 >> 7) << 1 | (s2 >> 7) << 2 | (s3 >> 7) << 3 | (s4 >> 7) << 4 | (s5 >> 7) << 5
        | (s6 >> 7) << 6 | (s7 >> 7) << 7
}

/// The top bit of a pixel says whether it is lit, and bits in distinct
/// positions add up.
proof fn lemma_bits_sum(s0: u8, s1: u8, s2: u8, s3: u8, s4: u8, s5: u8, s6: u8, s7: u8)
    by (bit_vector)
    ensures
        bits_packed(s0, s1, s2, s3, s4, s5, s6, s7) == (if s0 >= 128 {
            1u8
        } else {
            0u8
        }) + 2 * (if s1 >= 128 {
            1u8
        } else {
            0u8
        }) + 4 * (if s2 >= 128 {
            1u8
        } else {
            0u8
        }) + 8 * (if s3 >= 128 {
            1u8
        } else {
            0u8
        }) + 16 * (if s4 >= 128 {
            1u8
        } else {
            0u8
        }) + 32 * (if s5 >= 128 {
            1u8
        } else {
            0u8
        }) + 64 * (if s6 >= 128 {
            1u8
        } else {
            0u8
        }) + 128 * (if s7 >= 128 {
            1u8
        } else {
            0u8
        }),
{
}

/// Folding eight words lane-wise folds each lane like a single column.
proof fn lemma_lanes_fold(
    r0: u128,
    r1: u128,
    r2: u128,
    r3: u128,
    r4: u128,
    r5: u128,
    r6: u128,
    r7: u128,
    k: u128,
)
    by (bit_vector)
    requires
        k < 16,
    ensures
        lane_byte(lanes_packed(r0, r1, r2, r3, r4, r5, r6, r7), k) == bits_packed(
            lane_byte(r0, k),
            lane_byte(r1, k),
            lane_byte(r2, k),
            lane_byte(r3, k),
            lane_byte(r4, k),
            lane_byte(r5, k),
            lane_byte(r6, k),
            lane_byte(r7, k),
        ),
{
}

/// Putting a byte below a word shifted up by one lane: the byte is lane 0, and
/// the word's lanes each move up by one.
proof fn lemma_lane_push(b: u8, rest: u128, k: u128)
    by (bit_vector)
    requires
        k < 16,
    ensures
        lane_byte(b as u128 | rest << 8, 0) == b,
        k >= 1 ==> lane_byte(b as u128 | rest << 8, k) == lane_byte(rest, (k - 1) as u128),
{
}

/// Lane `k` of the word made from up to sixteen bytes is byte `k`.
proof fn lemma_lane_from_bytes(bytes: Seq<u8>, k: int)
    requires
        0 <= k < bytes.len(),
        k < 16,
    ensures
        lane_byte(lane_from(bytes), k as u128) == bytes[k],
    decreases bytes.len(),
{
    let rest = lane_from(bytes.drop_first());
    lemma_lane_push(bytes[0], rest, k as u128);
    if k > 0 {
        lemma_lane_from_bytes(bytes.drop_first(), k - 1);
    }
}

/// Index `page * width + col` lies in row `page` at column `col`, and within
/// `page_count` rows of that width.
proof fn lemma_cell(page: int, col: int, width: int, page_count: int)
    requires
        0 <= page < page_count,
        0 <= col < width,
    ensures
        (page * width + col) / width == page,
        (page * width + col) % width == col,
        0 <= page * width,
        page * width + width <= page_count * width,
{
    lemma_fundamental_div_mod_converse(page * width + col, width, page, col);
    lemma_page_start(page, width, page_count);
}

/// Where a page starts in the packed form, and that it ends within
/// `page_count` pages.
proof fn lemma_page_start(page: int, width: int, page_count: int)
    requires
        0 <= page < page_count,
        0 <= width,
    ensures
        0 <= page * width,
        (page + 1) * width == page * width + width,
        page * width + width <= page_count * width,
        width >= 1 ==> page_count <= page_count * width,
{
    assert(0 <= page * width && (page + 1) * width == page * width + width && page * width + width
        <= page_count * width) by (nonlinear_arith)
        requires
            0 <= page < page_count,
            0 <= width,
    ;
    assert(width >= 1 ==> page_count <= page_count * width) by (nonlinear_arith)
        requires
            0 <= page_count,
    ;
}

/// Where the eight pixel rows of a page start in a row-major image, and that
/// they lie within the rows of `page_count` pages.
proof fn lemma_page_rows(page: int, width: int, page_count: int)
    requires
        0 <= page < page_count,
        0 <= width,
    ensures
        0 <= (page * 8) * width,
        (page * 8 + 1) * width == (page * 8) * width + width,
        (page * 8 + 2) * width == (page * 8) * width + 2 * width,
        (page * 8 + 3) * width == (page * 8) * width + 3 * width,
        (page * 8 + 4) * width == (page * 8) * width + 4 * width,
        (page * 8 + 5) * width == (page * 8) * width + 5 * width,
        (page * 8 + 6) * width == (page * 8) * width + 6 * width,
        (page * 8 + 7) * width == (page * 8) * width + 7 * width,
        (page * 8 + 8) * width == (page * 8) * width + 8 * width,
        (page * 8 + 8) * width <= page_count * 8 * width,
{
    assert((page * 8 + 1) * width == (page * 8) * width + width) by (nonlinear_arith);
    assert((page * 8 + 2) * width == (page * 8) * width + 2 * width) by (nonlinear_arith);
    assert((page * 8 + 3) * width == (page * 8) * width + 3 * width) by (nonlinear_arith);
    assert((page * 8 + 4) * width == (page * 8) * width + 4 * width) by (nonlinear_arith);
    assert((page * 8 + 5) * width == (page * 8) * width + 5 * width) by (nonlinear_arith);
    assert((page * 8 + 6) * width == (page * 8) * width + 6 * width) by (nonlinear_arith);
    assert((page * 8 + 7) * width == (page * 8) * width + 7 * width) by (nonlinear_arith);
    assert((page * 8 + 8) * width == (page * 8) * width + 8 * width) by (nonlinear_arith);
    assert(0 <= (page * 8) * width && (page * 8 + 8) * width <= page_count * 8 * width)
        by (nonlinear_arith)
        requires
            0 <= page < page_count,
            0 <= width,
    ;
}

/// Every byte of the lane-wise packing is the byte of the pixel-wise packing.
proof fn lemma_lane_cell(image: Seq<u8>, width: int, page_count: int, page: int, col: int)
    requires
        packable(image.len(), width, page_count),
        width % 16 == 0,
        0 <= page < page_count,
        0 <= col < width,
    ensures
        lane_byte(page_lane(image, width, page, col - col % 16), (col % 16) as u128) == page_byte(
            image,
            width,
            page,
            col,
        ),
{
    let j = col % 16;
    let section = col - j;
    assert(section + 16 <= width) by {
        assert(section % 16 == 0 && width % 16 == 0 && section < width);
    }
    let r = |i: int| row_lane(image, width, page * 8 + i, section);
    lemma_lanes_fold(r(0), r(1), r(2), r(3), r(4), r(5), r(6), r(7), j as u128);
    assert forall|i: int| 0 <= i < 8 implies lane_byte(#[trigger] r(i), j as u128) == pixel_at(
        image,
        width,
        page * 8 + i,
        col,
    ) by {
        let row = page * 8 + i;
        lemma_page_rows(page, width, page_count);
        let start = row * width + section;
        lemma_lane_from_bytes(image.subrange(start, start + 16), j);
    }
    lemma_bits_sum(
        lane_byte(r(0), j as u128),
        lane_byte(r(1), j as u128),
        lane_byte(r(2), j as u128),
        lane_byte(r(3), j as u128),
        lane_byte(r(4), j as u128),
        lane_byte(r(5), j as u128),
        lane_byte(r(6), j as u128),
        lane_byte(r(7), j as u128),
    );
}

/// The wide packer and the pixel-wise packer describe the same bytes: for
/// every image and every screen whose width is a multiple of sixteen, the
/// lane-wise packing equals the pixel-wise packing.
pub proof fn lemma_lanes_match_scalar(image: Seq<u8>, width: int, page_count: int)
    requires
        packable(image.len(), width, page_count),
        width % 16 == 0,
    ensures
        packed_by_lanes(image, width, page_count) == packed(image, width, page_count),
{
    let wide = packed_by_lanes(image, width, page_count);
    let narrow = packed(image, width, page_count);
    assert(0 <= page_count * width) by (nonlinear_arith)
        requires
            0 <= page_count,
            0 <= width,
    ;
    assert forall|k: int| 0 <= k < page_count * width implies wide[k] == narrow[k] by {
        assert(0 < width && 0 <= k / width < page_count && 0 <= k % width < width)
            by (nonlinear_arith)
            requires
                0 <= k < page_count * width,
                0 <= width,
                0 <= page_count,
        ;
        lemma_lane_cell(image, width, page_count, k / width, k % width);
    }
    assert(wide =~= narrow);
}

/// Reads the eight pixels of one column of one page and folds them into their
/// byte.
fn column_byte(image_raw: &[u8], screen_width: usize, page_idx: usize, col_idx: usize) -> (byte: u8)
    requires
        col_idx < screen_width,
        page_idx < 1024,
        (page_idx * 8 + 8) * screen_width <= image_raw@.len() <= usize::MAX,
    ensures
        byte == page_byte(image_raw@, screen_width as int, page_idx as int, col_idx as int),
{
    let w = screen_width;
    let top = page_idx * 8;
    proof {
        lemma_page_rows(page_idx as int, w as int, page_idx + 1);
    }
    let s0 = image_raw[top * w + col_idx];
    let s1 = image_raw[(top + 1) * w + col_idx];
    let s2 = image_raw[(top + 2) * w + col_idx];
    let s3 = image_raw[(top + 3) * w + col_idx];
    let s4 = image_raw[(top + 4) * w + col_idx];
    let s5 = image_raw[(top + 5) * w + col_idx];
    let s6 = image_raw[(top + 6) * w + col_idx];
    let s7 = image_raw[(top + 7) * w + col_idx];
    proof {
        lemma_bits_sum(s0, s1, s2, s3, s4, s5, s6, s7);
    }
    (s0 >> 7) | (s1 >> 7) << 1 | (s2 >> 7) << 2 | (s3 >> 7) << 3 | (s4 >> 7) << 4 | (s5 >> 7) << 5
        | (s6 >> 7) << 6 | (s7 >> 7) << 7
}

/// Packs an image pixel by pixel.
///
/// `image_raw` is row-major with `screen_width` pixels per row and at least
/// `page_count * 8` rows. The result holds `page_count * screen_width` bytes,
/// page after page.
pub fn image_to_screen_space(image_raw: &[u8], screen_width: usize, page_count: usize) -> (buffer:
    ArrayVec<[u8; 1024]>)
    requires
        packable(image_raw@.len(), screen_width as int, page_count as int),
    ensures
        buffer_bytes(buffer) == packed(image_raw@, screen_width as int, page_count as int),
{
    let w = screen_width;
    let ghost image = image_raw@;
    let image_len = image_raw.len();
    let mut buffer = buffer_from_array_len([0; 1024], page_count * screen_width);
    let mut page_idx: usize = 0;
    while page_idx < page_count
        invariant
            packable(image.len(), w as int, page_count as int),
            image == image_raw@,
            image.len() == image_len,
            page_idx <= page_count,
            buffer_bytes(buffer).len() == page_count * w,
            forall|k: int|
                0 <= k < page_idx * w ==> #[trigger] buffer_bytes(buffer)[k] == page_byte(
                    image,
                    w as int,
                    k / (w as int),
                    k % (w as int),
                ),
        decreases page_count - page_idx,
    {
        proof {
            lemma_page_start(page_idx as int, w as int, page_count as int);
        }
        let page_start_idx = page_idx * w;
        let mut col_idx: usize = 0;
        while col_idx < w
            invariant
                packable(image.len(), w as int, page_count as int),
                image == image_raw@,
                image.len() == image_len,
                page_idx < page_count,
                col_idx <= w,
                page_start_idx == page_idx * w,
                page_start_idx + w <= page_count * w,
                buffer_bytes(buffer).len() == page_count * w,
                forall|k: int|
                    0 <= k < page_start_idx + col_idx ==> #[trigger] buffer_bytes(buffer)[k]
                        == page_byte(image, w as int, k / (w as int), k % (w as int)),
            decreases w - col_idx,
        {
            proof {
                lemma_cell(page_idx as int, col_idx as int, w as int, page_count as int);
                lemma_page_rows(page_idx as int, w as int, page_count as int);
            }
            let col_byte = column_byte(image_raw, w, page_idx, col_idx);
            buffer_set(&mut buffer, page_start_idx + col_idx, col_byte);
            col_idx += 1;
        }
        page_idx += 1;
    }
    proof {
        assert(buffer_bytes(buffer) =~= packed(image, w as int, page_count as int));
    }
    buffer
}

/// Loads sixteen consecutive pixels as the byte lanes of one word.
fn load_lane(image_raw: &[u8], start: usize) -> (lane: u128)
    requires
        start + 16 <= image_raw@.len() <= usize::MAX,
    ensures
        lane == lane_from(image_raw@.subrange(start as int, start + 16)),
{
    let mut lane: u128 = 0;
    let mut k: usize = LANE_WIDTH;
    while k > 0
        invariant
            k <= 16,
            start + 16 <= image_raw@.len() <= usize::MAX,
            lane == lane_from(image_raw@.subrange(start + k, start + 16)),
        decreases k,
    {
        k -= 1;
        proof {
            let tail = image_raw@.subrange(start + k, start + 16);
            assert(tail.drop_first() =~= image_raw@.subrange(start + k + 1, start + 16));
        }
        lane = image_raw[start + k] as u128 | lane << 8;
    }
    lane
}

/// Stores the sixteen byte lanes of a word at `start` and after.
fn store_lane(buffer: &mut ArrayVec<[u8; 1024]>, start: usize, lane: u128)
    requires
        start + 16 <= buffer_bytes(*old(buffer)).len() <= 1024,
    ensures
        buffer_bytes(*final(buffer)).len() == buffer_bytes(*old(buffer)).len(),
        forall|k: int|
            0 <= k < start ==> #[trigger] buffer_bytes(*final(buffer))[k] == buffer_bytes(
                *old(buffer),
            )[k],
        forall|j: int|
            0 <= j < 16 ==> #[trigger] buffer_bytes(*final(buffer))[start + j] == lane_byte(
                lane,
                j as u128,
            ),
{
    let mut j: usize = 0;
    while j < LANE_WIDTH
        invariant
            j <= 16,
            start + 16 <= buffer_bytes(*buffer).len() <= 1024,
            buffer_bytes(*buffer).len() == buffer_bytes(*old(buffer)).len(),
            forall|k: int|
                0 <= k < start ==> #[trigger] buffer_bytes(*buffer)[k] == buffer_bytes(
                    *old(buffer),
                )[k],
            forall|i: int|
                0 <= i < j ==> #[trigger] buffer_bytes(*buffer)[start + i] == lane_byte(
                    lane,
                    i as u128,
                ),
        decreases 16 - j,
    {
        let shift: u128 = (8 * j) as u128;
        buffer_set(buffer, start + j, ((lane >> shift) & 0xff) as u8);
        j += 1;
    }
}

/// Folds the eight rows of one page, sixteen columns wide from `section` on,
/// into the word of their page bytes.
fn pack_section(
    image_raw: &[u8],
    screen_width: usize,
    page_count: usize,
    page_idx: usize,
    section: usize,
) -> (acc_lane: u128)
    requires
        packable(image_raw@.len(), screen_width as int, page_count as int),
        image_raw@.len() <= usize::MAX,
        page_idx < page_count,
        section + 16 <= screen_width,
    ensures
        acc_lane == page_lane(image_raw@, screen_width as int, page_idx as int, section as int),
{
    let w = screen_width;
    proof {
        lemma_page_start(page_idx as int, w as int, page_count as int);
        lemma_page_rows(page_idx as int, w as int, page_count as int);
    }
    let top = page_idx * 8;
    let r0 = load_lane(image_raw, top * w + section);
    let r1 = load_lane(image_raw, (top + 1) * w + section);
    let r2 = load_lane(image_raw, (top + 2) * w + section);
    let r3 = load_lane(image_raw, (top + 3) * w + section);
    let r4 = load_lane(image_raw, (top + 4) * w + section);
    let r5 = load_lane(image_raw, (top + 5) * w + section);
    let r6 = load_lane(image_raw, (top + 6) * w + section);
    let r7 = load_lane(image_raw, (top + 7) * w + section);
    ((r0 >> 7) & LANE_ONES) | ((r1 >> 7) & LANE_ONES) << 1 | ((r2 >> 7) & LANE_ONES) << 2 | ((r3
        >> 7) & LANE_ONES) << 3 | ((r4 >> 7) & LANE_ONES) << 4 | ((r5 >> 7) & LANE_ONES) << 5 | ((r6
        >> 7) & LANE_ONES) << 6 | ((r7 >> 7) & LANE_ONES) << 7
}

/// Packs an image sixteen columns at a time.
///
/// Each row of a section is loaded as one word; the top bit of every lane is
/// moved to the bit of its row, and the eight rows of a page are combined. The
/// screen width must be a multiple of sixteen. The result is the one that
/// `image_to_screen_space` gives.
pub fn image_to_screen_space_wide(image_raw: &[u8], screen_width: usize, page_count: usize) -> (buffer:
    ArrayVec<[u8; 1024]>)
    requires
        packable(image_raw@.len(), screen_width as int, page_count as int),
        screen_width % 16 == 0,
    ensures
        buffer_bytes(buffer) == packed_by_lanes(image_raw@, screen_width as int, page_count as int),
        buffer_bytes(buffer) == packed(image_raw@, screen_width as int, page_count as int),
{
    let w = screen_width;
    let ghost image = image_raw@;
    let image_len = image_raw.len();
    let mut buffer = buffer_from_array_len([0; 1024], page_count * screen_width);
    let mut page_idx: usize = 0;
    while page_idx < page_count
        invariant
            packable(image.len(), w as int, page_count as int),
            w % 16 == 0,
            image == image_raw@,
            image.len() == image_len,
            page_idx <= page_count,
            buffer_bytes(buffer).len() == page_count * w,
            forall|k: int|
                0 <= k < page_idx * w ==> #[trigger] buffer_bytes(buffer)[k] == packed_by_lanes(
                    image,
                    w as int,
                    page_count as int,
                )[k],
        decreases page_count - page_idx,
    {
        proof {
            lemma_page_start(page_idx as int, w as int, page_count as int);
        }
        let page_start_idx = page_idx * w;
        let mut section: usize = 0;
        while section < w
            invariant
                packable(image.len(), w as int, page_count as int),
                w % 16 == 0,
                section % 16 == 0,
                image == image_raw@,
                image.len() == image_len,
                page_idx < page_count,
                section <= w,
                page_start_idx == page_idx * w,
                page_start_idx + w <= page_count * w,
                buffer_bytes(buffer).len() == page_count * w,
                forall|k: int|
                    0 <= k < page_start_idx + section ==> #[trigger] buffer_bytes(buffer)[k]
                        == packed_by_lanes(image, w as int, page_count as int)[k],
            decreases w - section,
        {
            proof {
                lemma_page_start(page_idx as int, w as int, page_count as int);
            }
            let acc_lane = pack_section(image_raw, w, page_count, page_idx, section);
            let ghost before = buffer_bytes(buffer);
            store_lane(&mut buffer, page_start_idx + section, acc_lane);
            proof {
                let wide = packed_by_lanes(image, w as int, page_count as int);
                assert forall|k: int| 0 <= k < page_start_idx + section + 16 implies buffer_bytes(
                    buffer,
                )[k] == wide[k] by {
                    if k >= page_start_idx + section {
                        let j = k - (page_start_idx + section);
                        assert(buffer_bytes(buffer)[page_start_idx + section + j] == lane_byte(
                            acc_lane,
                            j as u128,
                        ));
                        lemma_cell(page_idx as int, section + j, w as int, page_count as int);
                        assert((section + j) % 16 == j);
                    } else {
                        assert(buffer_bytes(buffer)[k] == before[k]);
                    }
                }
            }
            section += LANE_WIDTH;
        }
        page_idx += 1;
    }
    proof {
        assert(buffer_bytes(buffer) =~= packed_by_lanes(image, w as int, page_count as int));
        lemma_lanes_match_scalar(image, w as int, page_count as int);
    }
    buffer
}

/// `image::ImageError`, the error of the `image` crate's decoders. Nothing is
/// known of a value but that it is one.
#[verifier::external_type_specification]
#[verifier::external_body]
pub struct ExImageError(image::ImageError);

/// What decoding a PNG file gives: width, height and the 8-bit luma samples
/// row by row; `None` for bytes that are no PNG file the decoder accepts.
pub uninterp spec fn png_luma(bytes: Seq<u8>) -> Option<(u32, u32, Seq<u8>)>;

/// The samples of an image of the given size after nearest-neighbour
/// resampling to a new size.
pub uninterp spec fn nearest_resized(
    pixels: Seq<u8>,
    width: u32,
    height: u32,
    new_width: u32,
    new_height: u32,
) -> Seq<u8>;

/// `image::load_from_memory_with_format` for PNG, followed by
/// `DynamicImage::into_luma8`: decodes the file and converts it to 8-bit
/// luma. The result is the decoder's alone; the contract only names it and
/// adds that the buffer of an image holds at least one sample per pixel.
#[verifier::external_body]
fn decode_png_luma(bytes: &[u8]) -> (decoded: Result<(u32, u32, Vec<u8>), image::ImageError>)
    ensures
        decoded is Ok <==> png_luma(bytes@) is Some,
        decoded matches Ok(luma) ==> png_luma(bytes@) == Some((luma.0, luma.1, luma.2@))
            && luma.2@.len() >= luma.0 * luma.1,
{
    let luma = image::load_from_memory_with_format(bytes, image::ImageFormat::Png)?.into_luma8();
    Ok((luma.width(), luma.height(), luma.into_raw()))
}

/// `image::imageops::resize` with `FilterType::Nearest` on an 8-bit luma
/// image. The result has one sample per pixel of the new size. The call
/// allocates an intermediate image of `width * new_height` pixels with four
/// 32-bit channels, and panics when a size does not fit.
#[verifier::external_body]
fn resize_nearest(pixels: Vec<u8>, width: u32, height: u32, new_width: u32, new_height: u32) -> (out:
    Vec<u8>)
    requires
        pixels@.len() == width * height,
        resizable(width, new_width, new_height),
    ensures
        out@ == nearest_resized(pixels@, width, height, new_width, new_height),
        out@.len() == new_width * new_height,
{
    let source = image::GrayImage::from_raw(width, height, pixels).unwrap();
    image::imageops::resize(&source, new_width, new_height, image::imageops::FilterType::Nearest)
        .into_raw()
}

/// Whether an image `width` pixels wide can be resampled to the new size
/// without a buffer that exceeds what can be allocated.
pub open spec fn resizable(width: u32, new_width: u32, new_height: u32) -> bool {
    &&& 16 * width * new_height <= isize::MAX
    &&& new_width * new_height <= isize::MAX
}

/// Tests whether an image `width` pixels wide can be resampled to the new
/// size.
pub fn is_resizable(width: u32, new_width: u32, new_height: u32) -> (ok: bool)
    ensures
        ok == resizable(width, new_width, new_height),
{
    assert(16 * width * new_height <= u128::MAX && new_width * new_height <= u128::MAX)
        by (nonlinear_arith)
        requires
            width <= u32::MAX,
            new_width <= u32::MAX,
            new_height <= u32::MAX,
    ;
    assert(16 * width <= u128::MAX) by (nonlinear_arith)
        requires
            width <= u32::MAX,
    ;
    let limit = isize::MAX as u128;
    16 * (width as u128) * (new_height as u128) <= limit && (new_width as u128) * (
    new_height as u128) <= limit
}

/// Why an image could not be loaded.
#[derive(Copy, Clone, Debug, PartialEq, Eq)]
pub enum ImageLoadError {
    /// The bytes are not a PNG file that the decoder accepts.
    Undecodable,
}

/// An 8-bit grayscale image, row by row.
#[derive(Debug, PartialEq, Eq)]
pub struct GrayImage {
    width: u32,
    height: u32,
    pixels: Vec<u8>,
}

impl GrayImage {
    pub closed spec fn spec_width(&self) -> u32 {
        self.width
    }

    pub closed spec fn spec_height(&self) -> u32 {
        self.height
    }

    pub closed spec fn spec_pixels(&self) -> Seq<u8> {
        self.pixels@
    }

    /// There is exactly one sample per pixel.
    pub open spec fn wf(&self) -> bool {
        self.spec_pixels().len() == self.spec_width() * self.spec_height()
    }

    /// An image over the given samples. The buffer has to hold at least one
    /// sample per pixel; what it holds beyond that is cut off.
    pub fn from_raw(width: u32, height: u32, pixels: Vec<u8>) -> (image: Option<GrayImage>)
        ensures
            image is Some <==> pixels@.len() >= width * height,
            image matches Some(image) ==> {
                &&& image.wf()
                &&& image.spec_width() == width
                &&& image.spec_height() == height
                &&& image.spec_pixels() == pixels@.subrange(0, width * height)
            },
    {
        assert(width * height <= u64::MAX) by (nonlinear_arith)
            requires
                width <= u32::MAX,
                height <= u32::MAX,
        ;
        let size = (width as u64) * (height as u64);
        if (pixels.len() as u64) < size {
            return None;
        }
        let mut pixels = pixels;
        pixels.truncate(size as usize);
        Some(GrayImage { width, height, pixels })
    }

    #[verifier::when_used_as_spec(spec_width)]
    pub fn width(&self) -> (width: u32)
        ensures
            width == self.spec_width(),
    {
        self.width
    }

    #[verifier::when_used_as_spec(spec_height)]
    pub fn height(&self) -> (height: u32)
        ensures
            height == self.spec_height(),
    {
        self.height
    }

    pub fn as_raw(&self) -> (pixels: &[u8])
        ensures
            pixels@ == self.spec_pixels(),
    {
        self.pixels.as_slice()
    }
}

/// Decodes the logo from the bytes of its PNG file.
pub fn load_goliath_logo(png: &[u8]) -> (logo: Result<GrayImage, ImageLoadError>)
    ensures
        logo is Ok <==> png_luma(png@) is Some,
        logo matches Ok(image) ==> {
            &&& image.wf()
            &&& png_luma(png@) matches Some(luma)
            &&& image.spec_width() == luma.0
            &&& image.spec_height() == luma.1
            &&& image.spec_pixels() == luma.2.subrange(0, luma.0 * luma.1)
        },
{
    match decode_png_luma(png) {
        Err(_) => Err(ImageLoadError::Undecodable),
        Ok((width, height, pixels)) => match GrayImage::from_raw(width, height, pixels) {
            Some(image) => Ok(image),
            None => Err(ImageLoadError::Undecodable),
        },
    }
}

/// Brings an image to the size of the screen. An image that has the size
/// already is returned as it is; any other is resampled with the
/// nearest-neighbour filter.
pub fn resize_image(image: GrayImage, screen_width: u32, screen_height: u32) -> (resized: GrayImage)
    requires
        image.wf(),
        resizable(image.spec_width(), screen_width, screen_height),
    ensures
        resized.wf(),
        resized.spec_width() == screen_width,
        resized.spec_height() == screen_height,
        resized.spec_pixels() == (if image.spec_width() == screen_width && image.spec_height()
            == screen_height {
            image.spec_pixels()
        } else {
            nearest_resized(
                image.spec_pixels(),
                image.spec_width(),
                image.spec_height(),
                screen_width,
                screen_height,
            )
        }),
{
    if image.width == screen_width && image.height == screen_height {
        image
    } else {
        let pixels = resize_nearest(
            image.pixels,
            image.width,
            image.height,
            screen_width,
            screen_height,
        );
        GrayImage { width: screen_width, height: screen_height, pixels }
    }
}

/// Packs an image that has the size of the screen. The wide packer is used
/// where the width allows it; the result does not depend on the choice.
pub fn convert_image_to_screen_space(image: &GrayImage, screen_width: u32, screen_height: u32) -> (buffer:
    ArrayVec<[u8; 1024]>)
    requires
        image.wf(),
        image.spec_width() == screen_width,
        image.spec_height() == screen_height,
        fits_screen(screen_width, screen_height),
    ensures
        buffer_bytes(buffer) == packed(
            image.spec_pixels(),
            screen_width as int,
            screen_height as int / 8,
        ),
{
    let page_count = screen_height / 8;
    proof {
        assert(page_count * 8 * screen_width <= screen_width * screen_height && page_count
            * screen_width == screen_width * page_count) by (nonlinear_arith)
            requires
                page_count * 8 <= screen_height,
        ;
    }
    if screen_width as usize % LANE_WIDTH == 0 {
        image_to_screen_space_wide(image.as_raw(), screen_width as usize, page_count as usize)
    } else {
        image_to_screen_space(image.as_raw(), screen_width as usize, page_count as usize)
    }
}

} // verus!
