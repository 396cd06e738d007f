//! Conversion of an 8-bit grayscale image into the controller's
//! page-packed, column-major 1-bit memory layout.
use vstd::prelude::*;

use crate::error::OledError;
use crate::{OLED_HEIGHT, OLED_PAGES, OLED_PAGE_HEIGHT, OLED_WIDTH};

verus! {

/// The number of bytes in a full-frame grayscale image.
pub const IMAGE_LEN: usize = 8192;

/// The number of bytes in a page-packed bitmap of the whole screen.
pub const BITMAP_LEN: usize = 1024;

/// Whether the pixel at `row` of `page`, in `column`, is at or above the
/// threshold. The image is row-major, one byte per pixel.
pub open spec fn pixel_on(image: Seq<u8>, threshold: u8, page: int, row: int, column: int) -> bool {
    image[(page * OLED_PAGE_HEIGHT + row) * OLED_WIDTH + column] >= threshold
}

/// One bit for a pixel: 1 when it is on.
pub open spec fn bit_value(on: bool) -> u8 {
    if on {
        1
    } else {
        0
    }
}

/// The byte holding the first `rows` rows of a page in one column: bit `r`
/// is the pixel of row `r`, so bit 0 is the top row of the page.
pub open spec fn packed_rows(image: Seq<u8>, threshold: u8, page: int, column: int, rows: nat) -> u8
    decreases rows,
{
    if rows == 0 {
        0
    } else {
        let r = (rows - 1) as nat;
        packed_rows(image, threshold, page, column, r) | (bit_value(
            pixel_on(image, threshold, page, r as int, column),
        ) << (r as u8))
    }
}

/// The byte of the bitmap at `page` and `column`.
pub open spec fn column_byte(image: Seq<u8>, threshold: u8, page: int, column: int) -> u8 {
    packed_rows(image, threshold, page, column, OLED_PAGE_HEIGHT as nat)
}

/// The page-packed bitmap of an image: one byte per column of each page,
/// pages in order from the top, columns from the left.
pub open spec fn render_spec(image: Seq<u8>, threshold: u8) -> Seq<u8> {
    Seq::new(
        BITMAP_LEN as nat,
        |i: int| column_byte(image, threshold, i / OLED_WIDTH as int, i % OLED_WIDTH as int),
    )
}

/// Converts a grayscale image to the controller's bitmap layout. A pixel at
/// or above `threshold` is lit. The image must hold exactly one byte per
/// pixel of the display.
pub fn render(image: &[u8], threshold: u8) -> (r: Result<Vec<u8>, OledError>)
    ensures
        image@.len() == IMAGE_LEN <==> r is Ok,
        r is Ok ==> r->Ok_0@ == render_spec(image@, threshold),
        r is Err ==> r->Err_0 == (OledError::InvalidImageSize { len: image@.len() as usize }),
{
    if image.len() != OLED_WIDTH * OLED_HEIGHT {
        return Err(OledError::InvalidImageSize { len: image.len() });
    }
    let mut out: Vec<u8> = Vec::with_capacity(BITMAP_LEN);
    let mut page: usize = 0;
    while page < OLED_PAGES
        invariant
            page <= OLED_PAGES,
            image@.len() == IMAGE_LEN,
            out@.len() == page * OLED_WIDTH,
            forall|i: int|
                0 <= i < out@.len() ==> out@[i] == column_byte(
                    image@,
                    threshold,
                    i / OLED_WIDTH as int,
                    i % OLED_WIDTH as int,
                ),
        decreases OLED_PAGES - page,
    {
        let mut column: usize = 0;
        while column < OLED_WIDTH
            invariant
                page < OLED_PAGES,
                column <= OLED_WIDTH,
                image@.len() == IMAGE_LEN,
                out@.len() == page * OLED_WIDTH + column,
                forall|i: int|
                    0 <= i < out@.len() ==> out@[i] == column_byte(
                        image@,
                        threshold,
                        i / OLED_WIDTH as int,
                        i % OLED_WIDTH as int,
                    ),
            decreases OLED_WIDTH - column,
        {
            let mut byte: u8 = 0;
            let mut row: usize = 0;
            while row < OLED_PAGE_HEIGHT
                invariant
                    page < OLED_PAGES,
                    column < OLED_WIDTH,
                    row <= OLED_PAGE_HEIGHT,
                    image@.len() == IMAGE_LEN,
                    byte == packed_rows(image@, threshold, page as int, column as int, row as nat),
                decreases OLED_PAGE_HEIGHT - row,
            {
                assert((page * 8 + row) * 128 + column < 8192) by (nonlinear_arith)
                    requires
                        page < 8,
                        row < 8,
                        column < 128,
                ;
                let index: usize = (page * OLED_PAGE_HEIGHT + row) * OLED_WIDTH + column;
                let bit: u8 = if image[index] >= threshold {
                    1
                } else {
                    0
                };
                byte = byte | (bit << (row as u8));
                row = row + 1;
            }
            let ghost i: int = out@.len() as int;
            assert(i / 128 == page && i % 128 == column) by (nonlinear_arith)
                requires
                    i == page * 128 + column,
                    column < 128,
            ;
            out.push(byte);
            column = column + 1;
        }
        page = page + 1;
    }
    assert(out@ =~= render_spec(image@, threshold));
    Ok(out)
}

/// Reads bit `r` back out of a byte packed from eight one-bit values.
proof fn lemma_unpack_bit(b0: u8, b1: u8, b2: u8, b3: u8, b4: u8, b5: u8, b6: u8, b7: u8)
    requires
        b0 <= 1,
        b1 <= 1,
        b2 <= 1,
        b3 <= 1,
        b4 <= 1,
        b5 <= 1,
        b6 <= 1,
        b7 <= 1,
    ensures
        ({
            let x = (((((((((0u8 | (b0 << 0u8)) | (b1 << 1u8)) | (b2 << 2u8)) | (b3 << 3u8)) | (b4
                << 4u8)) | (b5 << 5u8)) | (b6 << 6u8)) | (b7 << 7u8)));
            &&& (x >> 0u8) & 1 == b0
            &&& (x >> 1u8) & 1 == b1
            &&& (x >> 2u8) & 1 == b2
            &&& (x >> 3u8) & 1 == b3
            &&& (x >> 4u8) & 1 == b4
            &&& (x >> 5u8) & 1 == b5
            &&& (x >> 6u8) & 1 == b6
            &&& (x >> 7u8) & 1 == b7
        }),
{
    assert(({
        let x = (((((((((0u8 | (b0 << 0u8)) | (b1 << 1u8)) | (b2 << 2u8)) | (b3 << 3u8)) | (b4
            << 4u8)) | (b5 << 5u8)) | (b6 << 6u8)) | (b7 << 7u8)));
        &&& (x >> 0u8) & 1 == b0
        &&& (x >> 1u8) & 1 == b1
        &&& (x >> 2u8) & 1 == b2
        &&& (x >> 3u8) & 1 == b3
        &&& (x >> 4u8) & 1 == b4
        &&& (x >> 5u8) & 1 == b5
        &&& (x >> 6u8) & 1 == b6
        &&& (x >> 7u8) & 1 == b7
    })) by (bit_vector)
        requires
            b0 <= 1,
            b1 <= 1,
            b2 <= 1,
            b3 <= 1,
            b4 <= 1,
            b5 <= 1,
            b6 <= 1,
            b7 <= 1,
    ;
}

/// The bitmap of a full-frame image has one byte for each column of each
/// page, and bit `row` of the byte at `page * OLED_WIDTH + column` is set
/// exactly when the source pixel at that row, page and column is at or above
/// the threshold; a pixel equal to the threshold is lit.
pub proof fn lemma_render_bits(image: Seq<u8>, threshold: u8, page: int, row: int, column: int)
    requires
        image.len() == IMAGE_LEN,
        0 <= page < OLED_PAGES,
        0 <= row < OLED_PAGE_HEIGHT,
        0 <= column < OLED_WIDTH,
    ensures
        render_spec(image, threshold).len() == OLED_WIDTH * OLED_PAGES,
        (render_spec(image, threshold)[page * OLED_WIDTH + column] >> (row as u8)) & 1 == 1
            <==> image[(page * OLED_PAGE_HEIGHT + row) * OLED_WIDTH + column] >= threshold,
{
    let i = page * OLED_WIDTH + column;
    assert(i / 128 == page && i % 128 == column && 0 <= i < 1024) by (nonlinear_arith)
        requires
            i == page * 128 + column,
            0 <= column < 128,
            0 <= page < 8,
    ;
    assert(render_spec(image, threshold)[i] == column_byte(image, threshold, page, column));
    let b = |r: int| bit_value(pixel_on(image, threshold, page, r, column));
    reveal_with_fuel(packed_rows, 9);
    lemma_unpack_bit(b(0), b(1), b(2), b(3), b(4), b(5), b(6), b(7));
}

/// Rendering is a function of the image and the threshold alone: two
/// renderings of the same image with the same threshold are equal.
pub proof fn lemma_render_deterministic(image: Seq<u8>, threshold: u8, a: Seq<u8>, b: Seq<u8>)
    requires
        a == render_spec(image, threshold),
        b == render_spec(image, threshold),
    ensures
        a == b,
{
}

} // verus!
