//! Raw frames as they come from the compositor.

use vstd::arithmetic::div_mod::lemma_fundamental_div_mod;
use vstd::arithmetic::div_mod::lemma_fundamental_div_mod_converse;
use vstd::prelude::*;
use vstd::slice::{slice_subrange, slice_to_vec};

verus! {

/// Bytes of one pixel, in both layouts.
pub const BYTES_PER_PIXEL: usize = 4;

/// Which interleaved pixel layout was negotiated. The fourth byte of a pixel
/// is not looked at, so a layout covers the formats with and without alpha.
#[derive(Clone, Copy, PartialEq, Eq, Structural, Debug)]
pub enum PixelLayout {
    Bgra,
    Rgba,
}

/// The first `row_bytes` bytes of each of `height` rows that lie `stride`
/// bytes apart in `src`, without anything between them.
pub open spec fn packed_rows(src: Seq<u8>, stride: nat, row_bytes: nat, height: nat) -> Seq<u8> {
    Seq::new(
        row_bytes * height,
        |k: int| src[k / row_bytes as int * stride + k % row_bytes as int],
    )
}

/// Whether `height` such rows lie within `len` bytes and their bytes fit in
/// one allocation.
pub open spec fn rows_fit(len: nat, stride: nat, row_bytes: nat, height: nat) -> bool {
    if stride == row_bytes {
        row_bytes * height <= len
    } else {
        &&& row_bytes * height <= isize::MAX
        &&& height > 0 ==> (height - 1) * stride + row_bytes <= len
    }
}

/// Whether a buffer of `len` bytes holds a frame that can be encoded: its
/// dimensions are even, and its rows lie within the buffer.
pub open spec fn frame_fits(width: nat, height: nat, stride: nat, len: nat) -> bool {
    &&& width % 2 == 0
    &&& height % 2 == 0
    &&& rows_fit(len, stride, width * BYTES_PER_PIXEL as nat, height)
}

/// In the packed rows, column `col` of row `row` is that of the source.
pub proof fn law_packed_position(
    src: Seq<u8>,
    stride: nat,
    row_bytes: nat,
    height: nat,
    row: nat,
    col: nat,
)
    requires
        row < height,
        col < row_bytes,
    ensures
        row * row_bytes + col < row_bytes * height,
        packed_rows(src, stride, row_bytes, height)[(row * row_bytes + col) as int] == src[(row
            * stride + col) as int],
{
    let k = (row * row_bytes + col) as int;
    assert(k < row_bytes * height) by (nonlinear_arith)
        requires
            k == row * row_bytes + col,
            row < height,
            col < row_bytes,
    ;
    assert(0 <= row * row_bytes) by (nonlinear_arith);
    lemma_fundamental_div_mod_converse(k, row_bytes as int, row as int, col as int);
}

/// Padding does not matter, neither what is in it nor how much there is: two
/// sources that agree on the first `row_bytes` bytes of each row are packed
/// alike.
pub proof fn law_padding_is_ignored(
    a: Seq<u8>,
    a_stride: nat,
    b: Seq<u8>,
    b_stride: nat,
    row_bytes: nat,
    height: nat,
)
    requires
        forall|row: nat, col: nat|
            #![trigger a[(row * a_stride + col) as int]]
            row < height && col < row_bytes ==> a[(row * a_stride + col) as int] == b[(row
                * b_stride + col) as int],
    ensures
        packed_rows(a, a_stride, row_bytes, height) == packed_rows(b, b_stride, row_bytes, height),
{
    let left = packed_rows(a, a_stride, row_bytes, height);
    let right = packed_rows(b, b_stride, row_bytes, height);
    assert forall|k: int| 0 <= k < row_bytes * height implies left[k] == right[k] by {
        lemma_position(k, row_bytes, height);
        let row = (k / row_bytes as int) as nat;
        let col = (k % row_bytes as int) as nat;
        assert(a[(row * a_stride + col) as int] == b[(row * b_stride + col) as int]);
    }
    assert(left =~= right);
}

/// Rows without padding are packed already: the result is the source up to the
/// end of the last row.
pub proof fn law_unpadded_rows_are_kept(src: Seq<u8>, row_bytes: nat, height: nat)
    requires
        row_bytes * height <= src.len(),
    ensures
        packed_rows(src, row_bytes, row_bytes, height) == src.take((row_bytes * height) as int),
{
    let packed = packed_rows(src, row_bytes, row_bytes, height);
    assert forall|k: int| 0 <= k < row_bytes * height implies packed[k] == src[k] by {
        lemma_position(k, row_bytes, height);
        lemma_fundamental_div_mod(k, row_bytes as int);
        assert(k / row_bytes as int * row_bytes == row_bytes * (k / row_bytes as int))
            by (nonlinear_arith);
    }
    assert(packed =~= src.take((row_bytes * height) as int));
}

/// Row and column of byte `k` are in range.
proof fn lemma_position(k: int, row_bytes: nat, height: nat)
    requires
        0 <= k < row_bytes * height,
    ensures
        row_bytes > 0,
        0 <= k / (row_bytes as int) < height,
        0 <= k % (row_bytes as int) < row_bytes,
{
    assert(row_bytes > 0) by (nonlinear_arith)
        requires
            0 < row_bytes * height,
    ;
    lemma_fundamental_div_mod(k, row_bytes as int);
    let q = k / row_bytes as int;
    let r = k % row_bytes as int;
    assert(0 <= q < height) by (nonlinear_arith)
        requires
            0 <= k < row_bytes * height,
            k == row_bytes * q + r,
            0 <= r < row_bytes,
    ;
}

/// One more row.
proof fn lemma_packed_rows_step(src: Seq<u8>, stride: nat, row_bytes: nat, row: nat)
    requires
        row * stride + row_bytes <= src.len(),
    ensures
        packed_rows(src, stride, row_bytes, row + 1) == packed_rows(src, stride, row_bytes, row)
            + src.subrange((row * stride) as int, (row * stride + row_bytes) as int),
{
    let all = packed_rows(src, stride, row_bytes, row + 1);
    let before = packed_rows(src, stride, row_bytes, row);
    let last = src.subrange((row * stride) as int, (row * stride + row_bytes) as int);
    assert(row_bytes * (row + 1) == row_bytes * row + row_bytes) by (nonlinear_arith);
    assert(0 <= row * stride) by (nonlinear_arith);
    assert(row * row_bytes == row_bytes * row) by (nonlinear_arith);
    assert forall|k: int| 0 <= k < all.len() implies all[k] == (before + last)[k] by {
        if k >= before.len() {
            lemma_fundamental_div_mod_converse(k, row_bytes as int, row as int, k - before.len());
        }
    }
    assert(all =~= before + last);
}

/// Whether a buffer of `len` bytes holds a frame that can be encoded.
pub fn holds_frame(width: usize, height: usize, stride: usize, len: usize) -> (fits: bool)
    ensures
        fits == frame_fits(width as nat, height as nat, stride as nat, len as nat),
{
    if width % 2 != 0 || height % 2 != 0 {
        return false;
    }
    if height == 0 {
        assert(width * 4 * 0 == 0) by (nonlinear_arith);
        return true;
    }
    let row_bytes: u128 = width as u128 * 4;
    assert(row_bytes <= row_bytes * height) by (nonlinear_arith)
        requires
            height >= 1,
            row_bytes >= 0,
    ;
    assert(0 <= (height - 1) * stride) by (nonlinear_arith)
        requires
            height >= 1,
            stride >= 0,
    ;
    if row_bytes > len as u128 {
        return false;
    }
    assert(row_bytes * height <= 0xffff_ffff_ffff_ffff * 0xffff_ffff_ffff_ffff)
        by (nonlinear_arith)
        requires
            row_bytes <= 0xffff_ffff_ffff_ffff,
            height <= 0xffff_ffff_ffff_ffff,
    ;
    assert((height - 1) * stride <= 0xffff_ffff_ffff_fffe * 0xffff_ffff_ffff_ffff)
        by (nonlinear_arith)
        requires
            0 <= height - 1 <= 0xffff_ffff_ffff_fffe,
            stride <= 0xffff_ffff_ffff_ffff,
    ;
    let packed: u128 = row_bytes * height as u128;
    if stride as u128 == row_bytes {
        packed <= len as u128
    } else {
        packed <= isize::MAX as u128 && (height as u128 - 1) * stride as u128 + row_bytes
            <= len as u128
    }
}

/// Copies `height` rows of `row_bytes` bytes each out of a possibly padded
/// `src` buffer (row pitch `stride`) into a tightly packed vector: the encoder
/// wants exactly the bytes of the pixels, with no per-row padding.
pub fn repack_rows(src: &[u8], stride: usize, row_bytes: usize, height: usize) -> (out: Vec<u8>)
    requires
        rows_fit(src@.len(), stride as nat, row_bytes as nat, height as nat),
    ensures
        out@ == packed_rows(src@, stride as nat, row_bytes as nat, height as nat),
{
    let ghost len = src.len();
    if stride == row_bytes {
        proof {
            law_unpadded_rows_are_kept(src@, row_bytes as nat, height as nat);
            assert(0 <= row_bytes * height) by (nonlinear_arith);
        }
        return slice_to_vec(slice_subrange(src, 0, row_bytes * height));
    }
    let mut out: Vec<u8> = Vec::with_capacity(row_bytes * height);
    assert(row_bytes * 0 == 0) by (nonlinear_arith);
    assert(out@ =~= packed_rows(src@, stride as nat, row_bytes as nat, 0));
    let mut row: usize = 0;
    while row < height
        invariant
            row <= height,
            src@.len() == len,
            height > 0 ==> (height - 1) * stride + row_bytes <= src@.len(),
            out@ == packed_rows(src@, stride as nat, row_bytes as nat, row as nat),
        decreases height - row,
    {
        assert(0 <= row * stride <= (height - 1) * stride) by (nonlinear_arith)
            requires
                0 <= row <= height - 1,
                0 <= stride,
        ;
        let start: usize = row * stride;
        out.extend_from_slice(slice_subrange(src, start, start + row_bytes));
        proof {
            lemma_packed_rows_step(src@, stride as nat, row_bytes as nat, row as nat);
            assert(out@ =~= packed_rows(src@, stride as nat, row_bytes as nat, (row + 1) as nat));
        }
        row += 1;
    }
    out
}

/// The packed rows are as long as all rows together.
pub proof fn law_packed_length(src: Seq<u8>, stride: nat, row_bytes: nat, height: nat)
    ensures
        packed_rows(src, stride, row_bytes, height).len() == row_bytes * height,
{
}

/// A frame fits exactly if its width and height are even and its last row, and
/// with it every other, ends within the buffer. Padded rows must besides fit in
/// one allocation when packed.
pub proof fn law_frame_fits_by_its_last_row(width: nat, height: nat, stride: nat, len: nat)
    ensures
        frame_fits(width, height, stride, len) <==> {
            &&& width % 2 == 0
            &&& height % 2 == 0
            &&& height > 0 ==> (height - 1) * stride + width * 4 <= len
            &&& stride == width * 4 || width * 4 * height <= isize::MAX
        },
{
    let row_bytes = width * 4;
    if stride == row_bytes {
        if height > 0 {
            assert((height - 1) * stride + row_bytes == row_bytes * height) by (nonlinear_arith)
                requires
                    stride == row_bytes,
            ;
        } else {
            assert(row_bytes * height == 0) by (nonlinear_arith)
                requires
                    height == 0,
            ;
        }
    }
}

} // verus!
