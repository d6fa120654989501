use vstd::prelude::*;

verus! {

/// Byte `c` (0..4) of pixel `p` of a packed four-byte-per-pixel buffer.
pub open spec fn chan(s: Seq<u8>, p: int, c: int) -> u8 {
    s[4 * p + c]
}

/// Number of whole four-byte pixels in `s`.
pub open spec fn pixel_count(s: Seq<u8>) -> int {
    s.len() as int / 4
}

/// The first `row_len` bytes of every complete `stride`-byte row of `buf`, in order.
/// A trailing partial row is dropped.
pub open spec fn strip_padding(buf: Seq<u8>, row_len: nat, stride: nat) -> Seq<u8>
    decreases buf.len(),
{
    if 0 < stride && stride <= buf.len() {
        buf.subrange(0, row_len as int) + strip_padding(
            buf.subrange(stride as int, buf.len() as int),
            row_len,
            stride,
        )
    } else {
        Seq::empty()
    }
}

/// `dst` is `src` with the first and third byte of every whole pixel exchanged;
/// the second byte and any trailing partial pixel are unchanged.
pub open spec fn swaps_red_blue(src: Seq<u8>, dst: Seq<u8>) -> bool {
    &&& dst.len() == src.len()
    &&& forall|p: int|
        0 <= p < pixel_count(src) ==> {
            &&& #[trigger] chan(dst, p, 0) == chan(src, p, 2)
            &&& chan(dst, p, 1) == chan(src, p, 1)
            &&& chan(dst, p, 2) == chan(src, p, 0)
        }
    &&& forall|i: int| 4 * pixel_count(src) <= i < src.len() ==> #[trigger] dst[i] == src[i]
}

/// The alpha byte of every whole pixel of `dst` is that of `src`.
pub open spec fn keeps_alpha(src: Seq<u8>, dst: Seq<u8>) -> bool {
    forall|p: int| 0 <= p < pixel_count(src) ==> #[trigger] chan(dst, p, 3) == chan(src, p, 3)
}

/// The alpha byte of every whole pixel of `s` is 255.
pub open spec fn all_opaque(s: Seq<u8>) -> bool {
    forall|p: int| 0 <= p < pixel_count(s) ==> #[trigger] chan(s, p, 3) == 255u8
}

proof fn lemma_strip_padding_step(buf: Seq<u8>, start: int, row_len: nat, stride: nat)
    requires
        0 < stride,
        row_len <= stride,
        0 <= start,
        start + stride <= buf.len(),
    ensures
        strip_padding(buf.subrange(start, buf.len() as int), row_len, stride) == buf.subrange(
            start,
            start + row_len,
        ) + strip_padding(buf.subrange(start + stride, buf.len() as int), row_len, stride),
{
    let rest = buf.subrange(start, buf.len() as int);
    assert(rest.subrange(0, row_len as int) =~= buf.subrange(start, start + row_len));
    assert(rest.subrange(stride as int, rest.len() as int) =~= buf.subrange(
        start + stride,
        buf.len() as int,
    ));
}

/// A buffer of exactly `rows` rows of `stride` bytes strips to `rows * row_len` bytes.
pub proof fn lemma_strip_padding_len(buf: Seq<u8>, row_len: nat, stride: nat, rows: nat)
    requires
        0 < stride,
        row_len <= stride,
        buf.len() == rows * stride,
    ensures
        strip_padding(buf, row_len, stride).len() == rows * row_len,
    decreases rows,
{
    if rows > 0 {
        assert(rows * stride == (rows - 1) * stride + stride) by (nonlinear_arith);
        assert(rows * row_len == (rows - 1) * row_len + row_len) by (nonlinear_arith);
        let rest = buf.subrange(stride as int, buf.len() as int);
        lemma_strip_padding_len(rest, row_len, stride, (rows - 1) as nat);
    } else {
        assert(rows * stride == 0) by (nonlinear_arith)
            requires rows == 0;
        assert(rows * row_len == 0) by (nonlinear_arith)
            requires rows == 0;
    }
}

/// Byte `x` of row `y` of the stripped buffer is byte `x` of row `y` of the source.
pub proof fn lemma_strip_padding_index(buf: Seq<u8>, row_len: nat, stride: nat, y: int, x: int)
    requires
        0 < stride,
        row_len <= stride,
        0 <= y,
        0 <= x < row_len,
        (y + 1) * stride <= buf.len(),
    ensures
        y * row_len + x < strip_padding(buf, row_len, stride).len(),
        strip_padding(buf, row_len, stride)[y * row_len + x] == buf[y * stride + x],
    decreases y,
{
    let rest = buf.subrange(stride as int, buf.len() as int);
    let tail = strip_padding(rest, row_len, stride);
    assert(stride <= buf.len()) by (nonlinear_arith)
        requires
            0 <= y,
            0 < stride,
            (y + 1) * stride <= buf.len(),
    ;
    if y == 0 {
        assert(0 * row_len + x == x);
        assert(0 * stride + x == x);
    } else {
        assert((y - 1 + 1) * stride <= rest.len()) by (nonlinear_arith)
            requires
                (y + 1) * stride <= buf.len(),
                rest.len() == buf.len() - stride,
        ;
        lemma_strip_padding_index(rest, row_len, stride, y - 1, x);
        assert(y * row_len + x == row_len + ((y - 1) * row_len + x)) by (nonlinear_arith);
        assert(y * stride + x == stride + ((y - 1) * stride + x)) by (nonlinear_arith);
    }
}

/// Copies the first `row_len` bytes of every complete `stride`-byte row of `buf`.
pub fn strip_row_padding(row_len: usize, stride: usize, buf: &[u8]) -> (r: Vec<u8>)
    requires
        0 < stride,
        row_len <= stride,
    ensures
        r@ == strip_padding(buf@, row_len as nat, stride as nat),
{
    let mut result: Vec<u8> = Vec::new();
    let mut start: usize = 0;
    let len: usize = buf.len();
    assert(buf@.subrange(0, len as int) =~= buf@);
    while stride <= buf.len() - start
        invariant
            start <= buf@.len(),
            buf@.len() <= usize::MAX,
            0 < stride,
            row_len <= stride,
            result@ + strip_padding(
                buf@.subrange(start as int, buf@.len() as int),
                row_len as nat,
                stride as nat,
            ) == strip_padding(buf@, row_len as nat, stride as nat),
        decreases buf@.len() - start,
    {
        let ghost before = result@;
        let mut j: usize = 0;
        while j < row_len
            invariant
                j <= row_len,
                row_len <= stride,
                start + stride <= buf@.len(),
                buf@.len() <= usize::MAX,
                result@ == before + buf@.subrange(start as int, (start + j) as int),
            decreases row_len - j,
        {
            result.push(buf[start + j]);
            assert(buf@.subrange(start as int, (start + j + 1) as int) =~= buf@.subrange(
                start as int,
                (start + j) as int,
            ).push(buf@[start + j]));
            j = j + 1;
        }
        proof {
            lemma_strip_padding_step(buf@, start as int, row_len as nat, stride as nat);
            let row = buf@.subrange(start as int, (start + row_len) as int);
            let tail = strip_padding(
                buf@.subrange((start + stride) as int, buf@.len() as int),
                row_len as nat,
                stride as nat,
            );
            assert(before + (row + tail) =~= (before + row) + tail);
        }
        start = start + stride;
    }
    proof {
        let rest = buf@.subrange(start as int, buf@.len() as int);
        assert(strip_padding(rest, row_len as nat, stride as nat) =~= Seq::<u8>::empty());
        assert(result@ + Seq::<u8>::empty() =~= result@);
    }
    result
}

/// Exchanges the first and third byte of every whole pixel, keeping alpha unless
/// `force_opaque` is set, in which case alpha becomes 255.
pub fn swap_red_blue(buf: Vec<u8>, force_opaque: bool) -> (r: Vec<u8>)
    ensures
        swaps_red_blue(buf@, r@),
        force_opaque ==> all_opaque(r@),
        !force_opaque ==> keeps_alpha(buf@, r@),
{
    let mut v = buf;
    let ghost src = v@;
    let len: usize = v.len();
    let n: usize = v.len() / 4;
    let mut p: usize = 0;
    while p < n
        invariant
            n == src.len() / 4,
            len == src.len(),
            p <= n,
            v@.len() == src.len(),
            forall|q: int|
                0 <= q < p ==> {
                    &&& #[trigger] chan(v@, q, 0) == chan(src, q, 2)
                    &&& chan(v@, q, 1) == chan(src, q, 1)
                    &&& chan(v@, q, 2) == chan(src, q, 0)
                    &&& if force_opaque {
                        chan(v@, q, 3) == 255u8
                    } else {
                        chan(v@, q, 3) == chan(src, q, 3)
                    }
                },
            forall|i: int| 4 * p <= i < src.len() ==> #[trigger] v@[i] == src[i],
        decreases n - p,
    {
        assert(4 * p + 4 <= src.len()) by (nonlinear_arith)
            requires
                p < n,
                n == src.len() / 4,
        ;
        let i: usize = 4 * p;
        let ghost prev = v@;
        let red = v[i + 2];
        let blue = v[i];
        v.set(i, red);
        v.set(i + 2, blue);
        if force_opaque {
            v.set(i + 3, 255);
        }
        proof {
            assert(chan(v@, p as int, 0) == chan(src, p as int, 2));
            assert(chan(v@, p as int, 2) == chan(src, p as int, 0));
            assert(chan(v@, p as int, 1) == chan(src, p as int, 1));
            assert(chan(v@, p as int, 3) == if force_opaque { 255u8 } else { prev[i + 3] });
            assert forall|q: int| 0 <= q < p implies #[trigger] chan(v@, q, 0) == chan(prev, q, 0)
                && chan(v@, q, 1) == chan(prev, q, 1) && chan(v@, q, 2) == chan(prev, q, 2)
                && chan(v@, q, 3) == chan(prev, q, 3) by {
                assert(chan(prev, q, 0) == chan(src, q, 2));
            }
        }
        p = p + 1;
    }
    proof {
        assert forall|p: int| 0 <= p < pixel_count(src) implies #[trigger] chan(v@, p, 3)
            == if force_opaque {
            255u8
        } else {
            chan(src, p, 3)
        } by {
            assert(chan(v@, p, 0) == chan(src, p, 2));
        }
    }
    v
}

/// `dst` is `src` with the alpha byte of every whole pixel set to 255.
pub open spec fn made_opaque(src: Seq<u8>, dst: Seq<u8>) -> bool {
    &&& dst.len() == src.len()
    &&& all_opaque(dst)
    &&& forall|i: int| 0 <= i < src.len() && i % 4 != 3 ==> #[trigger] dst[i] == src[i]
}

/// `dst` holds the three-byte pixels of `src` followed each by alpha 255.
pub open spec fn expands_rgb(src: Seq<u8>, dst: Seq<u8>) -> bool {
    &&& dst.len() == 4 * (src.len() / 3)
    &&& forall|p: int|
        0 <= p < src.len() / 3 ==> {
            &&& #[trigger] chan(dst, p, 0) == src[3 * p]
            &&& chan(dst, p, 1) == src[3 * p + 1]
            &&& chan(dst, p, 2) == src[3 * p + 2]
            &&& chan(dst, p, 3) == 255u8
        }
}

/// Sets the alpha byte of every whole pixel to 255.
pub fn set_opaque(buf: Vec<u8>) -> (r: Vec<u8>)
    ensures
        made_opaque(buf@, r@),
{
    let mut v = buf;
    let ghost src = v@;
    let len: usize = v.len();
    let n: usize = len / 4;
    let mut p: usize = 0;
    while p < n
        invariant
            n == src.len() / 4,
            len == src.len(),
            p <= n,
            v@.len() == src.len(),
            forall|i: int|
                0 <= i < v@.len() && (i % 4 != 3 || i >= 4 * p) ==> #[trigger] v@[i] == src[i],
            forall|q: int| 0 <= q < p ==> #[trigger] chan(v@, q, 3) == 255u8,
        decreases n - p,
    {
        assert(4 * p + 4 <= src.len()) by (nonlinear_arith)
            requires
                p < n,
                n == src.len() / 4,
        ;
        let i: usize = 4 * p + 3;
        let ghost prev = v@;
        v.set(i, 255);
        proof {
            assert(i % 4 == 3);
            assert forall|k: int|
                0 <= k < v@.len() && (k % 4 != 3 || k >= 4 * (p + 1)) implies #[trigger] v@[k]
                == src[k] by {
                assert(k != i);
                assert(prev[k] == src[k]);
            }
            assert forall|q: int| 0 <= q < p + 1 implies #[trigger] chan(v@, q, 3) == 255u8 by {
                if q < p {
                    assert(4 * q + 3 != i);
                    assert(chan(prev, q, 3) == 255u8);
                }
            }
        }
        p = p + 1;
    }
    v
}

/// Widens three-byte RGB pixels to RGBA with alpha 255; a trailing partial pixel
/// is dropped.
pub fn expand_rgb(buf: &[u8]) -> (r: Vec<u8>)
    ensures
        expands_rgb(buf@, r@),
{
    let len: usize = buf.len();
    let n: usize = len / 3;
    let mut out: Vec<u8> = Vec::new();
    let mut p: usize = 0;
    while p < n
        invariant
            n == buf@.len() / 3,
            len == buf@.len(),
            p <= n,
            out@.len() == 4 * p,
            forall|q: int|
                0 <= q < p ==> {
                    &&& #[trigger] chan(out@, q, 0) == buf@[3 * q]
                    &&& chan(out@, q, 1) == buf@[3 * q + 1]
                    &&& chan(out@, q, 2) == buf@[3 * q + 2]
                    &&& chan(out@, q, 3) == 255u8
                },
        decreases n - p,
    {
        assert(3 * p + 3 <= buf@.len()) by (nonlinear_arith)
            requires
                p < n,
                n == buf@.len() / 3,
        ;
        let i: usize = 3 * p;
        let ghost prev = out@;
        out.push(buf[i]);
        out.push(buf[i + 1]);
        out.push(buf[i + 2]);
        out.push(255);
        proof {
            assert forall|q: int| 0 <= q < p implies #[trigger] chan(out@, q, 0) == chan(prev, q, 0)
                && chan(out@, q, 1) == chan(prev, q, 1) && chan(out@, q, 2) == chan(prev, q, 2)
                && chan(out@, q, 3) == chan(prev, q, 3) by {}
        }
        p = p + 1;
    }
    out
}

} // verus!
