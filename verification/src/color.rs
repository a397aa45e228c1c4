//! Conversion of decoded frames to RGBA.
//!
//! A decoded frame is laid out in two planes. The first holds one byte of
//! luma for every pixel. The second starts `stride * height` bytes in and
//! holds one pair of chroma bytes, U then V, for every block of two by two
//! pixels. Rows of both planes are `stride` bytes apart, which may be more
//! than the width of the picture.
//!
//! Colours are converted with the usual transform for video range,
//! `R = 1.164 (Y - 16) + 1.596 (V - 128)` and so on, computed in thousandths
//! with integers. A channel is cut to a whole number and kept within 0 to 255.

use vstd::prelude::*;

verus! {

/// A channel value kept within the range of a byte.
pub open spec fn clamp(value: int) -> u8 {
    if value < 0 {
        0u8
    } else if value > 255 {
        255u8
    } else {
        value as u8
    }
}

/// The red channel of a pixel.
pub open spec fn red(y: u8, v: u8) -> u8 {
    clamp((1164 * (y - 16) + 1596 * (v - 128)) / 1000)
}

/// The green channel of a pixel.
pub open spec fn green(y: u8, u: u8, v: u8) -> u8 {
    clamp((1164 * (y - 16) - 813 * (v - 128) - 391 * (u - 128)) / 1000)
}

/// The blue channel of a pixel.
pub open spec fn blue(y: u8, u: u8) -> u8 {
    clamp((1164 * (y - 16) + 2018 * (u - 128)) / 1000)
}

/// Where the luma of an output pixel lies in the frame.
pub open spec fn luma_index(stride: int, downscale: int, col: int, row: int) -> int {
    row * downscale * stride + col * downscale
}

/// Where the chroma pair of an output pixel starts in the frame.
pub open spec fn chroma_index(stride: int, height: int, downscale: int, col: int, row: int) -> int {
    stride * height + (row * downscale / 2) * stride + (col * downscale / 2) * 2
}

/// A frame of `len` bytes holds the three bytes that one output pixel is
/// made of.
pub open spec fn pixel_fits(
    len: int,
    stride: int,
    height: int,
    downscale: int,
    col: int,
    row: int,
) -> bool {
    luma_index(stride, downscale, col, row) < len && chroma_index(
        stride,
        height,
        downscale,
        col,
        row,
    ) + 1 < len
}

/// A frame of `len` bytes holds every byte that the conversion reads.
pub open spec fn fits(len: int, width: int, height: int, downscale: int, stride: int) -> bool {
    &&& downscale > 0
    &&& forall|col: int, row: int|
        0 <= col < width / downscale && 0 <= row < height / downscale ==> #[trigger] pixel_fits(
            len,
            stride,
            height,
            downscale,
            col,
            row,
        )
}

/// The four bytes of one output pixel: red, green, blue, and full opacity.
pub open spec fn pixel(
    yuv: Seq<u8>,
    height: int,
    downscale: int,
    stride: int,
    col: int,
    row: int,
) -> Seq<u8> {
    let y = yuv[luma_index(stride, downscale, col, row)];
    let u = yuv[chroma_index(stride, height, downscale, col, row)];
    let v = yuv[chroma_index(stride, height, downscale, col, row) + 1];
    seq![red(y, v), green(y, u, v), blue(y, u), 255u8]
}

/// The picture in RGBA, shrunk by `downscale`: row after row, four bytes for
/// every `downscale`th pixel of every `downscale`th row.
pub open spec fn rgba(yuv: Seq<u8>, width: int, height: int, downscale: int, stride: int) -> Seq<
    u8,
> {
    let cols = width / downscale;
    let rows = height / downscale;
    Seq::new(
        (rows * cols * 4) as nat,
        |i: int| pixel(yuv, height, downscale, stride, (i / 4) % cols, (i / 4) / cols)[i % 4],
    )
}

/// The stride of a frame: the one that the backend reported, else the width.
pub open spec fn stride_or(stride: Option<u32>, width: u32) -> int {
    match stride {
        Some(s) => s as int,
        None => width as int,
    }
}

/// A channel from its value in thousandths.
fn channel(thousandths: i32) -> (value: u8)
    requires
        -1_000_000 <= thousandths <= 1_000_000,
    ensures
        value == clamp(thousandths as int / 1000),
{
    if thousandths < 0 {
        0
    } else if thousandths >= 256_000 {
        255
    } else {
        let whole: u32 = thousandths as u32 / 1000;
        whole as u8
    }
}

/// Every pixel that the conversion reads lies at or before the last one.
proof fn lemma_last_pixel_is_farthest(
    stride: int,
    height: int,
    downscale: int,
    col: int,
    row: int,
    last_col: int,
    last_row: int,
)
    requires
        0 <= stride,
        0 < downscale,
        0 <= col <= last_col,
        0 <= row <= last_row,
        last_row < height / downscale,
    ensures
        0 <= luma_index(stride, downscale, col, row),
        0 <= chroma_index(stride, height, downscale, col, row),
        luma_index(stride, downscale, col, row) <= chroma_index(
            stride,
            height,
            downscale,
            col,
            row,
        ) + 1,
        chroma_index(stride, height, downscale, col, row) <= chroma_index(
            stride,
            height,
            downscale,
            last_col,
            last_row,
        ),
        row * downscale < height,
        col * downscale <= last_col * downscale,
{
    let x = col * downscale;
    let y = row * downscale;
    let last_x = last_col * downscale;
    let last_y = last_row * downscale;
    assert(0 <= x <= last_x && 0 <= y <= last_y) by (nonlinear_arith)
        requires
            x == col * downscale,
            y == row * downscale,
            last_x == last_col * downscale,
            last_y == last_row * downscale,
            0 <= col <= last_col,
            0 <= row <= last_row,
            0 < downscale,
    ;
    assert(last_y + downscale <= height) by (nonlinear_arith)
        requires
            last_y == last_row * downscale,
            0 <= last_row < height / downscale,
            0 < downscale,
    ;
    assert(0 <= y * stride <= height * stride && (y / 2) * stride <= (last_y / 2) * stride && 0 <= (
    y / 2) * stride) by (nonlinear_arith)
        requires
            0 <= y <= last_y,
            last_y < height,
            0 <= stride,
    ;
    assert(stride * height == height * stride) by (nonlinear_arith);
}

/// Whether a frame of `len` bytes holds every byte that the conversion reads.
pub fn nv12_fits(len: usize, width: u32, height: u32, downscale: u32, stride: u32) -> (r: bool)
    ensures
        r == fits(len as int, width as int, height as int, downscale as int, stride as int),
{
    if downscale == 0 {
        return false;
    }
    let cols: u32 = width / downscale;
    let rows: u32 = height / downscale;
    if cols == 0 || rows == 0 {
        return true;
    }
    let last_col: u32 = cols - 1;
    let last_row: u32 = rows - 1;
    proof {
        lemma_last_pixel_is_farthest(
            stride as int,
            height as int,
            downscale as int,
            last_col as int,
            last_row as int,
            last_col as int,
            last_row as int,
        );
        assert(last_col * downscale <= width) by (nonlinear_arith)
            requires
                0 <= last_col < width / downscale,
                0 < downscale,
        ;
        assert(stride * height <= 0xffff_ffff * 0xffff_ffff && (last_row * downscale / 2) * stride
            <= 0xffff_ffff * 0xffff_ffff) by (nonlinear_arith)
            requires
                0 <= stride <= 0xffff_ffff,
                0 <= height <= 0xffff_ffff,
                0 <= last_row * downscale < height,
        ;
    }
    let x: u64 = last_col as u64 * downscale as u64;
    let y: u64 = last_row as u64 * downscale as u64;
    let plane: u128 = stride as u128 * height as u128;
    let line: u128 = (y / 2) as u128 * stride as u128;
    let last: u128 = plane + line + ((x / 2) * 2) as u128 + 1;
    let r = last < len as u128;
    proof {
        let (l, w, h, d, s) = (
            len as int,
            width as int,
            height as int,
            downscale as int,
            stride as int,
        );
        if r {
            assert forall|col: int, row: int|
                0 <= col < w / d && 0 <= row < h / d implies #[trigger] pixel_fits(
                l,
                s,
                h,
                d,
                col,
                row,
            ) by {
                lemma_last_pixel_is_farthest(s, h, d, col, row, last_col as int, last_row as int);
            }
        } else {
            assert(!pixel_fits(l, s, h, d, last_col as int, last_row as int));
        }
    }
    r
}

/// Where the plane of chroma starts in a frame of `len` bytes, or `None` for
/// a frame that is too short to hold the whole plane of luma.
pub fn plane_split(len: usize, height: u32, stride: u32) -> (at: Option<usize>)
    ensures
        match at {
            Some(start) => start == stride * height && start <= len,
            None => stride * height > len,
        },
{
    proof {
        assert(stride * height <= 0xffff_ffff * 0xffff_ffff) by (nonlinear_arith)
            requires
                0 <= stride <= 0xffff_ffff,
                0 <= height <= 0xffff_ffff,
        ;
    }
    let start: u64 = stride as u64 * height as u64;
    if start <= len as u64 {
        Some(start as usize)
    } else {
        None
    }
}

/// Converts a decoded frame to RGBA, shrunk by `downscale`.
///
/// `stride` is the row stride that the backend reported; without one the
/// rows are taken to be `width` bytes apart.
pub fn yuv_to_rgba(yuv: &[u8], width: u32, height: u32, downscale: u32, stride: Option<u32>) -> (out:
    Vec<u8>)
    requires
        fits(
            yuv@.len() as int,
            width as int,
            height as int,
            downscale as int,
            stride_or(stride, width),
        ),
    ensures
        out@ == rgba(yuv@, width as int, height as int, downscale as int, stride_or(stride, width)),
{
    let stride: u32 = match stride {
        Some(s) => s,
        None => width,
    };
    let cols: u32 = width / downscale;
    let rows: u32 = height / downscale;
    let ghost want = rgba(yuv@, width as int, height as int, downscale as int, stride as int);
    let mut out: Vec<u8> = Vec::new();
    let mut row: u32 = 0;
    while row < rows
        invariant
            0 < downscale,
            cols == width / downscale,
            rows == height / downscale,
            row <= rows,
            fits(yuv@.len() as int, width as int, height as int, downscale as int, stride as int),
            want == rgba(yuv@, width as int, height as int, downscale as int, stride as int),
            out@.len() == row * cols * 4,
            forall|i: int| 0 <= i < out@.len() ==> out@[i] == want[i],
        decreases rows - row,
    {
        let mut col: u32 = 0;
        while col < cols
            invariant
                0 < downscale,
                cols == width / downscale,
                rows == height / downscale,
                row < rows,
                col <= cols,
                fits(
                    yuv@.len() as int,
                    width as int,
                    height as int,
                    downscale as int,
                    stride as int,
                ),
                want == rgba(yuv@, width as int, height as int, downscale as int, stride as int),
                out@.len() == (row * cols + col) * 4,
                forall|i: int| 0 <= i < out@.len() ==> out@[i] == want[i],
            decreases cols - col,
        {
            let ghost k = row * cols + col;
            proof {
                lemma_last_pixel_is_farthest(
                    stride as int,
                    height as int,
                    downscale as int,
                    col as int,
                    row as int,
                    col as int,
                    row as int,
                );
                assert(pixel_fits(
                    yuv@.len() as int,
                    stride as int,
                    height as int,
                    downscale as int,
                    col as int,
                    row as int,
                ));
                assert(col * downscale < width) by (nonlinear_arith)
                    requires
                        0 <= col < width / downscale,
                        0 < downscale,
                ;
                assert(row * downscale * stride <= 0xffff_ffff * 0xffff_ffff && (row * downscale
                    / 2) * stride <= 0xffff_ffff * 0xffff_ffff && stride * height <= 0xffff_ffff
                    * 0xffff_ffff) by (nonlinear_arith)
                    requires
                        0 <= row * downscale < height,
                        0 <= stride <= 0xffff_ffff,
                        0 <= height <= 0xffff_ffff,
                ;
                lemma_pixel_place(k, cols as int, rows as int, col as int, row as int);
            }
            let x: u64 = col as u64 * downscale as u64;
            let y: u64 = row as u64 * downscale as u64;
            let luma_at: u128 = y as u128 * stride as u128 + x as u128;
            let plane: u128 = stride as u128 * height as u128;
            let chroma_at: u128 = plane + (y / 2) as u128 * stride as u128 + ((x / 2) * 2) as u128;
            assert(chroma_at == chroma_index(
                stride as int,
                height as int,
                downscale as int,
                col as int,
                row as int,
            ));
            let luma: u8 = yuv[luma_at as usize];
            let u: u8 = yuv[chroma_at as usize];
            let v: u8 = yuv[(chroma_at + 1) as usize];
            let lift: i32 = 1164 * (luma as i32 - 16);
            let r: u8 = channel(lift + 1596 * (v as i32 - 128));
            let g: u8 = channel(lift - 813 * (v as i32 - 128) - 391 * (u as i32 - 128));
            let b: u8 = channel(lift + 2018 * (u as i32 - 128));
            let ghost px = pixel(
                yuv@,
                height as int,
                downscale as int,
                stride as int,
                col as int,
                row as int,
            );
            assert(px =~= seq![r, g, b, 255u8]);
            out.push(r);
            out.push(g);
            out.push(b);
            out.push(0xFF);
            proof {
                assert forall|i: int| 0 <= i < out@.len() implies out@[i] == want[i] by {
                    if i >= 4 * k {
                        // one of the four bytes of the pixel just written
                        assert(i / 4 == k && i % 4 == i - 4 * k);
                        assert(want[i] == px[i % 4]);
                    }
                }
            }
            col += 1;
        }
        proof {
            assert((row * cols + cols) * 4 == (row + 1) * cols * 4) by (nonlinear_arith);
        }
        row += 1;
    }
    assert(out@ =~= want);
    out
}

/// Where the `k`th output pixel lies in the picture, and that it has a place
/// in the output.
proof fn lemma_pixel_place(k: int, cols: int, rows: int, col: int, row: int)
    requires
        0 <= col < cols,
        0 <= row < rows,
        k == row * cols + col,
    ensures
        0 <= k,
        k % cols == col,
        k / cols == row,
        4 * k + 4 <= rows * cols * 4,
{
    vstd::arithmetic::div_mod::lemma_fundamental_div_mod_converse(k, cols, row, col);
    assert(0 <= row * cols && (row + 1) * cols <= rows * cols && (row + 1) * cols == row * cols
        + cols) by (nonlinear_arith)
        requires
            0 <= row < rows,
            0 < cols,
    ;
}

/// Converts a decoded frame to RGBA, or returns `None` for a frame that is
/// too short for its size, or for a `downscale` of zero.
pub fn try_yuv_to_rgba(
    yuv: &[u8],
    width: u32,
    height: u32,
    downscale: u32,
    stride: Option<u32>,
) -> (out: Option<Vec<u8>>)
    ensures
        match out {
            Some(bytes) => {
                &&& fits(
                    yuv@.len() as int,
                    width as int,
                    height as int,
                    downscale as int,
                    stride_or(stride, width),
                )
                &&& bytes@ == rgba(
                    yuv@,
                    width as int,
                    height as int,
                    downscale as int,
                    stride_or(stride, width),
                )
            },
            None => !fits(
                yuv@.len() as int,
                width as int,
                height as int,
                downscale as int,
                stride_or(stride, width),
            ),
        },
{
    let line: u32 = match stride {
        Some(s) => s,
        None => width,
    };
    if nv12_fits(yuv.len(), width, height, downscale, line) {
        Some(yuv_to_rgba(yuv, width, height, downscale, stride))
    } else {
        None
    }
}

} // verus!
