use vstd::prelude::*;

use crate::error::Error;
use crate::layer::conv_backward_dims_of;

verus! {

/// Dimensions of a four-dimensional tensor: (batch or out-channels,
/// channels, height, width).
pub type Dims4 = (usize, usize, usize, usize);

/// Weight dimensions of a convolution from `c_in` to `c_out` channels.
pub open spec fn weight_dims_of(c_in: usize, c_out: usize, kernel: (usize, usize)) -> Dims4 {
    (c_out, c_in, kernel.0, kernel.1)
}

/// A valid, stride-one cross-correlation of an input shaped
/// (batch, c_in, h, w) with a weight shaped (c_out, c_in, kh, kw) exists:
/// the channels agree and a non-empty kernel fits inside the input.
pub open spec fn conv_compatible(x: Dims4, w: Dims4) -> bool {
    &&& x.1 == w.1
    &&& 1 <= w.2 <= x.2
    &&& 1 <= w.3 <= x.3
}

/// Output dimensions of that cross-correlation:
/// (batch, c_out, h - kh + 1, w - kw + 1).
pub open spec fn conv_output_of(x: Dims4, w: Dims4) -> Dims4 {
    (x.0, w.0, (x.2 - w.2 + 1) as usize, (x.3 - w.3 + 1) as usize)
}

/// Weight dimensions of a convolution layer: (c_out, c_in, kh, kw).
pub fn conv2d_weight_dims(c_in: usize, c_out: usize, kernel: (usize, usize)) -> (r: Dims4)
    ensures
        r == weight_dims_of(c_in, c_out, kernel),
{
    (c_out, c_in, kernel.0, kernel.1)
}

/// Output dimensions of the valid, stride-one cross-correlation of an input
/// with a weight; a shape error where the channels differ or the kernel is
/// empty or does not fit in the input.
pub fn conv2d_output_dims(x: Dims4, w: Dims4) -> (r: Result<Dims4, Error>)
    ensures
        match r {
            Ok(o) => conv_compatible(x, w) && o == conv_output_of(x, w),
            Err(e) => !conv_compatible(x, w) && e == Error::Shape,
        },
{
    if x.1 != w.1 || w.2 == 0 || w.3 == 0 || w.2 > x.2 || w.3 > x.3 {
        return Err(Error::Shape);
    }
    Ok((x.0, w.0, x.2 - w.2 + 1, x.3 - w.3 + 1))
}

/// Input-gradient dimensions of a convolution: a gradient shaped as the
/// output for this input and weight gives back one shaped as the input.
pub fn conv2d_backward_dims(x: Dims4, w: Dims4, grad: Dims4) -> (r: Result<Dims4, Error>)
    ensures
        match conv_backward_dims_of(x, w, grad) {
            Some(d) => r == Ok::<Dims4, Error>(d),
            None => r == Err::<Dims4, Error>(Error::Shape),
        },
{
    match conv2d_output_dims(x, w) {
        Ok(o) => {
            if o.0 == grad.0 && o.1 == grad.1 && o.2 == grad.2 && o.3 == grad.3 {
                Ok(x)
            } else {
                Err(Error::Shape)
            }
        },
        Err(e) => Err(e),
    }
}

/// Every window that the cross-correlation reads lies inside the input: the
/// window at output position (i, j) spans rows `i .. i + kh` and columns
/// `j .. j + kw`, and the input rows that kernel row `p` meets across the
/// output are `p .. p + out_h` (columns alike).
pub proof fn lemma_windows_in_bounds(x: Dims4, w: Dims4, i: int, j: int, p: int, q: int)
    requires
        conv_compatible(x, w),
        0 <= i < conv_output_of(x, w).2,
        0 <= j < conv_output_of(x, w).3,
        0 <= p < w.2,
        0 <= q < w.3,
    ensures
        i + w.2 <= x.2,
        j + w.3 <= x.3,
        p + conv_output_of(x, w).2 <= x.2,
        q + conv_output_of(x, w).3 <= x.3,
{
}

/// Kernel offset `p` covers input position `pos` along one axis: the window
/// at output position `pos - p` exists and reads `pos`.
pub open spec fn covers(pos: usize, kernel: usize, out_len: usize, p: int) -> bool {
    0 <= p < kernel && p <= pos && pos - p < out_len
}

/// The kernel offsets `p` whose window covers input position `pos` along one
/// axis: those with `p < kernel`, `p <= pos` and an output position
/// `pos - p` below `out_len`. They form the range `r.0 .. r.1`; the input
/// gradient sums over it instead of over a zero-padded output gradient.
pub fn kernel_span(pos: usize, kernel: usize, out_len: usize) -> (r: (usize, usize))
    ensures
        r.0 <= r.1 <= kernel,
        forall|p: int| r.0 <= p < r.1 <==> #[trigger] covers(pos, kernel, out_len, p),
{
    if out_len == 0 {
        return (0, 0);
    }
    let lo: usize = if pos >= out_len {
        pos - out_len + 1
    } else {
        0
    };
    let hi: usize = if pos < kernel {
        pos + 1
    } else {
        kernel
    };
    if lo >= hi {
        (hi, hi)
    } else {
        (lo, hi)
    }
}

} // verus!
