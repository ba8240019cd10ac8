//! Copying a texture into a mappable buffer and turning the mapped bytes back
//! into tightly packed pixels.
//!
//! A buffer that receives a texture copy stores every row at a pitch that is a
//! multiple of a fixed alignment, so rows are followed by padding. This module
//! computes that pitch, sizes the buffer, and removes the padding again once
//! the buffer has been mapped.

use vstd::prelude::*;
use vstd::arithmetic::div_mod::lemma_fundamental_div_mod_converse;
use vstd::slice::slice_subrange;
use crate::texture::{Picture, BYTES_PER_TEXEL};

verus! {

/// The least multiple of `align` that is not below `n`.
pub open spec fn round_up(n: int, align: int) -> int
    recommends
        0 <= n,
        0 < align,
{
    ((n + align - 1) / align) * align
}

/// `round_up(n, align)` is a multiple of `align`, lies in `n .. n + align`,
/// and exceeds `n` by `(align - n % align) % align`.
pub proof fn lemma_round_up(n: int, align: int)
    requires
        0 <= n,
        0 < align,
    ensures
        round_up(n, align) % align == 0,
        n <= round_up(n, align) < n + align,
        round_up(n, align) - n == (align - n % align) % align,
{
    let q = n / align;
    let r = n % align;
    assert(n == q * align + r && 0 <= r < align) by (nonlinear_arith)
        requires
            q == n / align,
            r == n % align,
            0 < align,
    ;
    if r == 0 {
        lemma_fundamental_div_mod_converse(n + align - 1, align, q, align - 1);
        lemma_fundamental_div_mod_converse(q * align, align, q, 0);
        lemma_fundamental_div_mod_converse(align, align, 1, 0);
    } else {
        assert(n + align - 1 == (q + 1) * align + (r - 1)) by (nonlinear_arith)
            requires
                n == q * align + r,
        ;
        lemma_fundamental_div_mod_converse(n + align - 1, align, q + 1, r - 1);
        lemma_fundamental_div_mod_converse((q + 1) * align, align, q + 1, 0);
        assert((q + 1) * align == q * align + align) by (nonlinear_arith);
        lemma_fundamental_div_mod_converse(align - r, align, 0, align - r);
    }
}

/// No multiple of `align` lies between `n` and `round_up(n, align)`.
pub proof fn lemma_round_up_is_least(n: int, align: int, m: int)
    requires
        0 <= n,
        0 < align,
        n <= m,
        m % align == 0,
    ensures
        round_up(n, align) <= m,
{
    lemma_round_up(n, align);
    let up = round_up(n, align);
    if m < up {
        // Two multiples of `align` less than `align` apart are equal.
        let a = (n + align - 1) / align;
        let b = m / align;
        assert(m == b * align) by (nonlinear_arith)
            requires
                b == m / align,
                m % align == 0,
                0 < align,
        ;
        assert(a <= b) by (nonlinear_arith)
            requires
                a * align - align < b * align,
                0 < align,
        ;
        assert(a * align <= b * align) by (nonlinear_arith)
            requires
                a <= b,
                0 < align,
        ;
    }
}

/// Row pitch that buffer copies must be a multiple of, as wgpu defines it.
///
/// Reads `wgpu::COPY_BYTES_PER_ROW_ALIGNMENT`; the contract repeats the value
/// that constant is declared with.
#[verifier::external_body]
pub(crate) fn copy_row_alignment() -> (align: u32)
    ensures
        align == 256,
{
    wgpu::COPY_BYTES_PER_ROW_ALIGNMENT
}

/// Bytes to append to a row of `unpadded` bytes so that its length becomes a
/// multiple of `align`.
pub fn row_padding(unpadded: u32, align: u32) -> (pad: u32)
    requires
        align > 0,
    ensures
        pad == round_up(unpadded as int, align as int) - unpadded,
        pad < align,
{
    proof {
        lemma_round_up(unpadded as int, align as int);
    }
    (align - unpadded % align) % align
}

/// Length of one row of texels in a copy buffer, without and with padding.
#[derive(Clone, Copy, Debug, PartialEq, Eq)]
pub struct RowPitch {
    /// Bytes of texel data in a row.
    pub unpadded: u32,
    /// Distance in bytes from the start of one row to the start of the next.
    pub padded: u32,
}

/// The pitch of rows of `width` RGBA8 texels under alignment `align`, where
/// the padded row length still fits in 32 bits.
pub open spec fn pitch_of_width(width: u32, align: u32) -> Option<RowPitch> {
    if round_up(4 * width, align as int) <= u32::MAX {
        Some(
            RowPitch {
                unpadded: (4 * width) as u32,
                padded: round_up(4 * width, align as int) as u32,
            },
        )
    } else {
        None
    }
}

/// Row pitch for a texture `width` texels wide, or `None` where the padded
/// row would not fit in 32 bits.
pub fn row_pitch(width: u32) -> (pitch: Option<RowPitch>)
    ensures
        pitch == pitch_of_width(width, 256),
        pitch matches Some(p) ==> p.unpadded <= p.padded && p.padded % 256 == 0 && p.padded
            - p.unpadded < 256,
{
    let align = copy_row_alignment();
    proof {
        lemma_round_up(4 * width, 256);
    }
    match width.checked_mul(BYTES_PER_TEXEL) {
        Some(unpadded) => match unpadded.checked_add(row_padding(unpadded, align)) {
            Some(padded) => Some(RowPitch { unpadded, padded }),
            None => None,
        },
        None => None,
    }
}

/// What a readback of a `width` x `height` RGBA8 texture needs: the row pitch
/// to copy with and the size of the buffer that receives the copy.
#[derive(Clone, Copy, Debug, PartialEq, Eq)]
pub struct ReadbackPlan {
    pub width: u32,
    pub height: u32,
    pub pitch: RowPitch,
    /// `pitch.padded * height`, the bytes the copy writes.
    pub buffer_size: u64,
}

/// The plan for a `width` x `height` texture, where the row pitch exists.
pub open spec fn plan_of(width: u32, height: u32) -> Option<ReadbackPlan> {
    match pitch_of_width(width, 256) {
        Some(pitch) => Some(
            ReadbackPlan { width, height, pitch, buffer_size: (pitch.padded * height) as u64 },
        ),
        None => None,
    }
}

/// Plans the readback of a `width` x `height` RGBA8 texture.
pub fn plan_readback(width: u32, height: u32) -> (plan: Option<ReadbackPlan>)
    ensures
        plan == plan_of(width, height),
        plan matches Some(p) ==> p.buffer_size == p.pitch.padded * height,
{
    match row_pitch(width) {
        Some(pitch) => {
            assert(pitch.padded * height <= u64::MAX) by (nonlinear_arith)
                requires
                    pitch.padded <= u32::MAX,
                    height <= u32::MAX,
            ;
            let padded: u64 = pitch.padded as u64;
            let rows: u64 = height as u64;
            Some(ReadbackPlan { width, height, pitch, buffer_size: padded * rows })
        },
        None => None,
    }
}

/// The bytes of `data` with row padding removed: `data` is read as complete
/// rows of `padded` bytes, and of each row the first `unpadded` bytes are
/// kept, in order. Bytes after the last complete row are dropped.
pub open spec fn packed_rows(data: Seq<u8>, padded: int, unpadded: int) -> Seq<u8>
    recommends
        0 < padded,
        0 <= unpadded <= padded,
{
    Seq::new(
        ((data.len() / padded as nat) * unpadded) as nat,
        |i: int| data[(i / unpadded) * padded + i % unpadded],
    )
}

/// Row `row` of the packed bytes is the start of row `row` of the padded ones.
pub proof fn lemma_packed_row(data: Seq<u8>, padded: int, unpadded: int, row: int)
    requires
        0 < padded,
        0 <= unpadded <= padded,
        0 <= row < data.len() / padded as nat,
    ensures
        (row + 1) * unpadded <= packed_rows(data, padded, unpadded).len(),
        row * padded + unpadded <= data.len(),
        packed_rows(data, padded, unpadded).subrange(row * unpadded, (row + 1) * unpadded)
            == data.subrange(row * padded, row * padded + unpadded),
{
    let rows = data.len() as int / padded;
    let out = packed_rows(data, padded, unpadded);
    lemma_row_bounds(data.len() as int, padded, unpadded, row);
    assert((row + 1) * unpadded <= rows * unpadded) by (nonlinear_arith)
        requires
            row + 1 <= rows,
            0 <= unpadded,
    ;
    assert((row + 1) * unpadded == row * unpadded + unpadded) by (nonlinear_arith);
    assert(0 <= row * unpadded) by (nonlinear_arith)
        requires
            0 <= row,
            0 <= unpadded,
    ;
    let a = out.subrange(row * unpadded, (row + 1) * unpadded);
    let b = data.subrange(row * padded, row * padded + unpadded);
    assert forall|k: int| 0 <= k < unpadded implies a[k] == b[k] by {
        lemma_fundamental_div_mod_converse(row * unpadded + k, unpadded, row, k);
    }
    assert(a =~= b);
}

/// The byte in column `column` of row `row` of bytes that hold rows of
/// `pitch` bytes.
pub open spec fn byte_at(data: Seq<u8>, pitch: int, row: int, column: int) -> u8 {
    data[row * pitch + column]
}

/// `data` holds the `rows` rows of `pixels`, each followed by padding: the
/// rows are `unpadded` bytes long in `pixels` and start every `padded` bytes
/// in `data`. This is what a copy from a texture writes into a buffer.
pub open spec fn pads(data: Seq<u8>, pixels: Seq<u8>, padded: int, unpadded: int, rows: int) -> bool {
    &&& data.len() == rows * padded
    &&& pixels.len() == rows * unpadded
    &&& forall|row: int, column: int|
        0 <= row < rows && 0 <= column < unpadded ==> #[trigger] byte_at(
            data,
            padded,
            row,
            column,
        ) == byte_at(pixels, unpadded, row, column)
}

/// Removing the padding undoes adding it: bytes that hold padded rows of
/// pixels pack to those pixels.
pub proof fn lemma_packing_undoes_padding(
    data: Seq<u8>,
    pixels: Seq<u8>,
    padded: int,
    unpadded: int,
    rows: int,
)
    requires
        0 < padded,
        0 <= unpadded <= padded,
        0 <= rows,
        pads(data, pixels, padded, unpadded, rows),
    ensures
        packed_rows(data, padded, unpadded) == pixels,
{
    lemma_fundamental_div_mod_converse(data.len() as int, padded, rows, 0);
    let packed = packed_rows(data, padded, unpadded);
    assert(packed.len() == pixels.len());
    assert forall|i: int| 0 <= i < packed.len() implies packed[i] == pixels[i] by {
        let row = i / unpadded;
        let column = i % unpadded;
        assert(0 < unpadded) by (nonlinear_arith)
            requires
                0 <= i < rows * unpadded,
                0 <= unpadded,
        ;
        assert(i == row * unpadded + column && 0 <= column < unpadded) by (nonlinear_arith)
            requires
                row == i / unpadded,
                column == i % unpadded,
                0 < unpadded,
        ;
        assert(0 <= row < rows) by (nonlinear_arith)
            requires
                i == row * unpadded + column,
                0 <= column < unpadded,
                0 <= i < rows * unpadded,
        ;
        assert(byte_at(data, padded, row, column) == byte_at(pixels, unpadded, row, column));
    }
    assert(packed =~= pixels);
}

/// Row `row` of `len` bytes at pitch `padded` lies inside the bytes.
proof fn lemma_row_bounds(len: int, padded: int, unpadded: int, row: int)
    requires
        0 <= len,
        0 < padded,
        0 <= unpadded <= padded,
        0 <= row < len / padded,
    ensures
        0 <= row * padded,
        row * padded + unpadded <= len,
{
    let rows = len / padded;
    assert(rows * padded <= len) by (nonlinear_arith)
        requires
            rows == len / padded,
            0 <= len,
            0 < padded,
    ;
    assert(row * padded + padded <= rows * padded) by (nonlinear_arith)
        requires
            row + 1 <= rows,
            0 < padded,
    ;
    assert(0 <= row * padded) by (nonlinear_arith)
        requires
            0 <= row,
            0 < padded,
    ;
}

/// Removes row padding from mapped buffer contents.
///
/// `data` holds rows of `padded` bytes each; the result holds the first
/// `unpadded` bytes of every complete row, back to back.
pub fn strip_row_padding(data: &[u8], padded: usize, unpadded: usize) -> (out: Vec<u8>)
    requires
        0 < padded,
        unpadded <= padded,
    ensures
        out@ == packed_rows(data@, padded as int, unpadded as int),
{
    let mut out: Vec<u8> = Vec::new();
    let mut start: usize = 0;
    let ghost mut row: int = 0;
    while data.len() - start >= padded
        invariant
            0 < padded,
            unpadded <= padded,
            0 <= row,
            start == row * padded,
            start <= data.len(),
            out.len() == row * unpadded,
            forall|i: int|
                0 <= i < out.len() ==> out[i] == data[(i / unpadded as int) * padded + i
                    % unpadded as int],
        decreases data.len() - start,
    {
        let ghost before = out@;
        let texels = slice_subrange(data, start, start + unpadded);
        out.extend_from_slice(texels);
        proof {
            assert((row + 1) * unpadded == row * unpadded + unpadded) by (nonlinear_arith);
            assert((row + 1) * padded == row * padded + padded) by (nonlinear_arith);
            assert forall|i: int| 0 <= i < out.len() implies out[i] == data[(i / unpadded as int)
                * padded + i % unpadded as int] by {
                if i < before.len() {
                    assert(out[i] == before[i]);
                } else {
                    let k = i - before.len();
                    lemma_fundamental_div_mod_converse(i, unpadded as int, row, k);
                    assert(out[i] == texels@[k]);
                }
            }
            row = row + 1;
        }
        start = start + padded;
    }
    proof {
        lemma_fundamental_div_mod_converse(
            data.len() as int,
            padded as int,
            row,
            data.len() - start,
        );
        assert(out@ =~= packed_rows(data@, padded as int, unpadded as int));
    }
    out
}

/// Why mapped bytes could not be read back as a picture.
#[derive(Clone, Copy, Debug, PartialEq, Eq)]
pub enum ReadbackError {
    /// The texture has no columns, so its rows have no pitch to walk by.
    EmptyRow,
    /// A padded row of the texture does not fit in 32 bits.
    RowTooWide,
    /// The bytes hold fewer rows than the texture is high.
    ShortBuffer,
}

/// The reason, if any, why `len` mapped bytes cannot be read back as a
/// `width` x `height` picture.
pub open spec fn readback_error(width: u32, height: u32, len: nat) -> Option<ReadbackError> {
    if width == 0 {
        Some(ReadbackError::EmptyRow)
    } else {
        match pitch_of_width(width, 256) {
            None => Some(ReadbackError::RowTooWide),
            Some(pitch) => if len < pitch.padded * height {
                Some(ReadbackError::ShortBuffer)
            } else {
                None
            },
        }
    }
}

/// Reads the mapped bytes of a copy buffer back as the picture in the
/// `width` x `height` texture that was copied into it.
///
/// The bytes are taken as rows at the pitch that `row_pitch(width)` gives.
/// Rows beyond `height` stay in the pixels, after those of the picture.
pub fn read_picture(width: u32, height: u32, data: &[u8]) -> (picture: Result<Picture, ReadbackError>)
    ensures
        match picture {
            Ok(f) => {
                &&& readback_error(width, height, data@.len()) is None
                &&& f.width == width
                &&& f.height == height
                &&& f.pixels@ == packed_rows(
                    data@,
                    pitch_of_width(width, 256).unwrap().padded as int,
                    pitch_of_width(width, 256).unwrap().unpadded as int,
                )
                &&& f.wf()
            },
            Err(e) => readback_error(width, height, data@.len()) == Some(e),
        },
{
    if width == 0 {
        return Err(ReadbackError::EmptyRow);
    }
    let pitch = match row_pitch(width) {
        Some(pitch) => pitch,
        None => {
            return Err(ReadbackError::RowTooWide);
        },
    };
    let padded: usize = pitch.padded as usize;
    let unpadded: usize = pitch.unpadded as usize;
    let rows: usize = data.len() / padded;
    proof {
        lemma_rows_cover(data@.len() as int, pitch.padded as int, height as int);
    }
    if rows < height as usize {
        return Err(ReadbackError::ShortBuffer);
    }
    let pixels = strip_row_padding(data, padded, unpadded);
    proof {
        assert(4 * width * height <= rows * unpadded) by (nonlinear_arith)
            requires
                unpadded == 4 * width,
                height <= rows,
        ;
    }
    Ok(Picture { width, height, pixels })
}

/// `len` bytes hold `height` rows of `padded` bytes exactly when they hold
/// `padded * height` bytes.
proof fn lemma_rows_cover(len: int, padded: int, height: int)
    requires
        0 <= len,
        0 < padded,
        0 <= height,
    ensures
        len / padded < height <==> len < padded * height,
{
    let rows = len / padded;
    assert(rows * padded <= len < rows * padded + padded) by (nonlinear_arith)
        requires
            rows == len / padded,
            0 <= len,
            0 < padded,
    ;
    if rows < height {
        assert(rows * padded + padded <= padded * height) by (nonlinear_arith)
            requires
                rows + 1 <= height,
                0 < padded,
        ;
    } else {
        assert(padded * height <= rows * padded) by (nonlinear_arith)
            requires
                height <= rows,
                0 < padded,
        ;
    }
}

} // verus!
