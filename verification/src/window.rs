//! One spatial axis of a transposed convolution: which input positions can
//! reach a given output position, and the window of input positions the
//! compute shader scans for it.
use vstd::arithmetic::div_mod::{
    lemma_fundamental_div_mod, lemma_fundamental_div_mod_converse, lemma_mod_bound,
};
use vstd::prelude::*;

verus! {

/// Input position `i` (of an axis of length `size`) reaches output position `n`
/// through kernel tap `k` (of a kernel of length `kernel`): the output position
/// of a transposed convolution is `i * stride + k * dilation`, measured in the
/// padded output.
pub open spec fn axis_tap(
    n: int,
    i: int,
    k: int,
    size: int,
    kernel: int,
    stride: int,
    dilation: int,
) -> bool {
    &&& 0 <= i < size
    &&& 0 <= k < kernel
    &&& i * stride + k * dilation == n
}

/// The kernel's dilated extent spans at least one stride. Only then does the
/// window scanned by the shader reach every input position that feeds an
/// output position.
pub open spec fn axis_covered(kernel: int, stride: int, dilation: int) -> bool {
    kernel * dilation >= stride
}

/// Input position `i` does not pass output position `n`, and is close enough
/// that some tap inside a kernel of dilated extent `kernel * dilation` could
/// connect the two.
pub open spec fn axis_in_reach(n: int, i: int, kernel: int, stride: int, dilation: int) -> bool {
    i * stride <= n && n - i * stride < kernel * dilation
}

/// A tap fixes its kernel position: the distance from the input position to
/// the output position is a multiple of the dilation, and the multiple is the tap.
pub(crate) proof fn lemma_axis_tap_unique(
    n: int,
    i: int,
    k: int,
    size: int,
    kernel: int,
    stride: int,
    dilation: int,
)
    requires
        axis_tap(n, i, k, size, kernel, stride, dilation),
        stride >= 0,
        dilation > 0,
    ensures
        i * stride <= n,
        (n - i * stride) % dilation == 0,
        (n - i * stride) / dilation == k,
        axis_in_reach(n, i, kernel, stride, dilation),
{
    lemma_fundamental_div_mod_converse(n - i * stride, dilation, k, 0);
    assert(0 <= k * dilation < kernel * dilation) by (nonlinear_arith)
        requires
            0 <= k < kernel,
            dilation > 0,
    ;
}

/// A position in reach whose distance to the output position is a multiple of
/// the dilation is a tap, with that multiple as kernel position.
pub(crate) proof fn lemma_axis_tap_found(
    n: int,
    i: int,
    size: int,
    kernel: int,
    stride: int,
    dilation: int,
)
    requires
        0 <= i < size,
        dilation > 0,
        axis_in_reach(n, i, kernel, stride, dilation),
        (n - i * stride) % dilation == 0,
    ensures
        axis_tap(n, i, (n - i * stride) / dilation, size, kernel, stride, dilation),
{
    let m = n - i * stride;
    let q = m / dilation;
    lemma_fundamental_div_mod(m, dilation);
    assert(0 <= q < kernel) by (nonlinear_arith)
        requires
            m == dilation * q,
            0 <= m < kernel * dilation,
            dilation > 0,
    ;
    assert(i * stride + q * dilation == n) by (nonlinear_arith)
        requires
            m == dilation * q,
            m == n - i * stride,
    ;
}

/// Division rounding toward zero, as signed integer division does on the
/// devices the kernel runs on.
pub open spec fn trunc_div(a: int, b: int) -> int {
    if a >= 0 {
        a / b
    } else {
        -((-a) / b)
    }
}

/// The first input position the kernel scans for padded output position `n`:
/// `max(trunc((n - (kernel * dilation - stride)) / stride), 0)`.
pub open spec fn window_start(n: int, kernel: int, stride: int, dilation: int) -> int {
    let t = trunc_div(n - (kernel * dilation - stride), stride);
    if t >= 0 {
        t
    } else {
        0
    }
}

/// The input position past the last one the kernel scans for padded output
/// position `n` on an axis of length `size`:
/// `min(max(kernel * dilation - stride + trunc(..) + 1, 0), size)`.
pub open spec fn window_end(n: int, kernel: int, stride: int, dilation: int, size: int) -> int {
    let t = trunc_div(n - (kernel * dilation - stride), stride);
    let e = kernel * dilation - stride + t + 1;
    let e0 = if e >= 0 {
        e
    } else {
        0
    };
    if e0 <= size {
        e0
    } else {
        size
    }
}

/// The lower end of the window never admits a position whose kernel tap would
/// fall past the kernel.
proof fn lemma_window_start_bound(n: int, s: int, kd: int, t: int, i: int)
    requires
        s > 0,
        n + s - kd >= 0,
        t == (n + s - kd) / s,
        t <= i,
        i * s <= n,
    ensures
        n - i * s < kd,
{
    let m = n + s - kd;
    lemma_fundamental_div_mod(m, s);
    lemma_mod_bound(m, s);
    assert(t * s <= i * s) by (nonlinear_arith)
        requires
            t <= i,
            s > 0,
    ;
    assert(m < s * t + s);
}

/// Every position whose kernel tap lies inside the kernel is at or after the
/// lower end of the window.
proof fn lemma_window_start_complete(n: int, s: int, kd: int, t: int, i: int)
    requires
        s > 0,
        n + s - kd >= 0,
        t == (n + s - kd) / s,
        0 <= i,
        i * s <= n,
        n - i * s < kd,
    ensures
        t <= i,
{
    let m = n + s - kd;
    lemma_fundamental_div_mod(m, s);
    lemma_mod_bound(m, s);
    assert(m < (i + 1) * s) by (nonlinear_arith)
        requires
            m == n + s - kd,
            n - i * s < kd,
    ;
    assert(s * t < s * (i + 1));
    assert(t < i + 1) by (nonlinear_arith)
        requires
            s * t < s * (i + 1),
            s > 0,
    ;
}

/// When the dilated kernel spans a stride, the upper end of the window lies past
/// every position that can still reach the output position.
proof fn lemma_window_end_complete(n: int, s: int, kd: int, t: int, i: int)
    requires
        s > 0,
        kd >= s,
        n + s - kd >= 0,
        t == (n + s - kd) / s,
        0 <= i,
        i * s <= n,
    ensures
        i < kd - s + t + 1,
{
    let x = kd - s;
    let m = n - x;
    if i > x {
        lemma_fundamental_div_mod(m, s);
        lemma_mod_bound(m, s);
        assert((i - x) * s <= m) by (nonlinear_arith)
            requires
                i > x,
                x >= 0,
                s >= 1,
                i * s <= n,
                m == n - x,
        ;
        assert(i - x <= t) by (nonlinear_arith)
            requires
                (i - x) * s <= m,
                m == s * t + m % s,
                0 <= m % s < s,
                s > 0,
        ;
    }
}

/// When the dilated kernel spans more than the padded output position, the
/// window reaches past the output position itself.
proof fn lemma_window_end_far(n: int, s: int, kd: int, q: int, i: int)
    requires
        s > 0,
        kd - n - s > 0,
        q == (kd - n - s) / s,
        0 <= i,
        i * s <= n,
    ensures
        0 <= q,
        i < kd - s - q + 1,
        kd - s - q + 1 <= kd,
{
    let m = kd - n - s;
    lemma_fundamental_div_mod(m, s);
    lemma_mod_bound(m, s);
    assert(0 <= q <= m) by (nonlinear_arith)
        requires
            m == s * q + m % s,
            0 <= m % s < s,
            m > 0,
            s >= 1,
    ;
    assert(i <= n) by (nonlinear_arith)
        requires
            i * s <= n,
            i >= 0,
            s >= 1,
    ;
}

/// When the dilated kernel is shorter than a stride, the upper end of the
/// window never passes its lower end.
proof fn lemma_window_empty(n: int, s: int, kd: int, t: int)
    requires
        s > 0,
        kd < s,
        n >= 0,
        kd >= 0,
        t == (n + s - kd) / s,
    ensures
        t >= 0,
        kd + t + 1 - s <= t,
{
    let m = n + s - kd;
    lemma_fundamental_div_mod(m, s);
    lemma_mod_bound(m, s);
    assert(t >= 0) by (nonlinear_arith)
        requires
            m == s * t + m % s,
            0 <= m % s < s,
            m > 0,
            s >= 1,
    ;
}

/// The window of input positions the kernel scans for padded output position
/// `n`: every scanned position that does not pass `n` has its kernel tap
/// inside the kernel; when the dilated kernel spans a stride, every position
/// that reaches `n` is scanned; otherwise the window is empty.
pub proof fn lemma_window(n: int, kernel: int, stride: int, dilation: int, size: int)
    requires
        stride > 0,
        dilation > 0,
        n >= 0,
        kernel >= 0,
        size >= 0,
    ensures
        0 <= window_start(n, kernel, stride, dilation),
        window_end(n, kernel, stride, dilation, size) <= size,
        forall|i: int|
            window_start(n, kernel, stride, dilation) <= i < window_end(
                n,
                kernel,
                stride,
                dilation,
                size,
            ) && i * stride <= n ==> #[trigger] axis_in_reach(n, i, kernel, stride, dilation),
        axis_covered(kernel, stride, dilation) ==> forall|i: int|
            0 <= i < size && #[trigger] axis_in_reach(n, i, kernel, stride, dilation)
                ==> window_start(n, kernel, stride, dilation) <= i < window_end(
                n,
                kernel,
                stride,
                dilation,
                size,
            ),
        !axis_covered(kernel, stride, dilation) ==> window_end(n, kernel, stride, dilation, size)
            <= window_start(n, kernel, stride, dilation),
{
    let s = stride;
    assert(kernel * dilation >= 0) by (nonlinear_arith)
        requires
            kernel >= 0,
            dilation > 0,
    ;
    let kd = kernel * dilation;
    if n + s - kd >= 0 {
        let t = (n + s - kd) / s;
        lemma_fundamental_div_mod(n + s - kd, s);
        lemma_mod_bound(n + s - kd, s);
        assert(t >= 0) by (nonlinear_arith)
            requires
                n + s - kd == s * t + (n + s - kd) % s,
                0 <= (n + s - kd) % s < s,
                n + s - kd >= 0,
        ;
        assert(trunc_div(n - (kd - s), s) == t);
        assert forall|i: int|
            window_start(n, kernel, stride, dilation) <= i < window_end(
                n,
                kernel,
                stride,
                dilation,
                size,
            ) && i * stride <= n implies axis_in_reach(n, i, kernel, stride, dilation) by {
            lemma_window_start_bound(n, s, kd, t, i);
        }
        if axis_covered(kernel, stride, dilation) {
            assert forall|i: int|
                0 <= i < size && axis_in_reach(n, i, kernel, stride, dilation) implies window_start(
                n,
                kernel,
                stride,
                dilation,
            ) <= i < window_end(n, kernel, stride, dilation, size) by {
                lemma_window_start_complete(n, s, kd, t, i);
                lemma_window_end_complete(n, s, kd, t, i);
            }
        } else {
            lemma_window_empty(n, s, kd, t);
        }
    } else {
        let q = (kd - n - s) / s;
        lemma_window_end_far(n, s, kd, q, 0);
        assert(trunc_div(n - (kd - s), s) == -q);
        assert forall|i: int|
            0 <= i < size && axis_in_reach(n, i, kernel, stride, dilation) implies window_start(
            n,
            kernel,
            stride,
            dilation,
        ) <= i < window_end(n, kernel, stride, dilation, size) by {
            lemma_window_end_far(n, s, kd, q, i);
        }
    }
}

/// The window `[start, end)` of input positions that the shader scans for the
/// padded output position `n` along one axis. The shader computes it in signed
/// arithmetic as `start = max(trunc((n - (kernel * dilation - stride)) / stride), 0)`
/// and `end = min(max(kernel * dilation - stride + trunc(..) + 1, 0), size)`,
/// where `trunc` rounds toward zero.
///
/// Every scanned position that does not pass `n` has its kernel tap inside the
/// kernel; when the dilated kernel spans a stride, every position that reaches
/// `n` is scanned; otherwise the window is empty.
pub(crate) fn axis_window(n: u64, kernel: u32, stride: u32, dilation: u32, size: u32) -> (r: (
    u64,
    u64,
))
    requires
        stride > 0,
        dilation > 0,
        n <= 2 * (u32::MAX as int),
    ensures
        r.0 == window_start(n as int, kernel as int, stride as int, dilation as int),
        r.1 == window_end(n as int, kernel as int, stride as int, dilation as int, size as int),
        r.1 <= size,
        forall|i: int|
            r.0 <= i < r.1 && i * stride <= n ==> #[trigger] axis_in_reach(
                n as int,
                i,
                kernel as int,
                stride as int,
                dilation as int,
            ),
        axis_covered(kernel as int, stride as int, dilation as int) ==> forall|i: int|
            0 <= i < size && #[trigger] axis_in_reach(
                n as int,
                i,
                kernel as int,
                stride as int,
                dilation as int,
            ) ==> r.0 <= i < r.1,
        !axis_covered(kernel as int, stride as int, dilation as int) ==> r.1 <= r.0,
{
    let k64 = kernel as u64;
    let d64 = dilation as u64;
    assert(k64 * d64 <= u64::MAX) by (nonlinear_arith)
        requires
            k64 <= u32::MAX,
            d64 <= u32::MAX,
    ;
    let kd: u64 = k64 * d64;
    let s: u64 = stride as u64;
    let size64: u64 = size as u64;
    if n + s >= kd {
        let m: u64 = n + s - kd;
        let t: u64 = m / s;
        assert(t <= m) by (nonlinear_arith)
            requires
                t == m / s,
                s >= 1,
        {
            lemma_fundamental_div_mod(m as int, s as int);
            lemma_mod_bound(m as int, s as int);
        }
        let e: u64 = kd + t + 1;
        let end_raw: u64 = if e >= s {
            e - s
        } else {
            0
        };
        let end: u64 = if end_raw < size64 {
            end_raw
        } else {
            size64
        };
        proof {
            assert forall|i: int| t <= i < end && i * stride <= n implies axis_in_reach(
                n as int,
                i,
                kernel as int,
                stride as int,
                dilation as int,
            ) by {
                lemma_window_start_bound(n as int, s as int, kd as int, t as int, i);
            }
            if axis_covered(kernel as int, stride as int, dilation as int) {
                assert forall|i: int|
                    0 <= i < size && axis_in_reach(
                        n as int,
                        i,
                        kernel as int,
                        stride as int,
                        dilation as int,
                    ) implies t <= i < end by {
                    lemma_window_start_complete(n as int, s as int, kd as int, t as int, i);
                    lemma_window_end_complete(n as int, s as int, kd as int, t as int, i);
                }
            } else {
                lemma_window_empty(n as int, s as int, kd as int, t as int);
            }
        }
        (t, end)
    } else {
        let q: u64 = (kd - n - s) / s;
        proof {
            lemma_window_end_far(n as int, s as int, kd as int, q as int, 0);
        }
        let end_raw: u64 = kd - s - q + 1;
        let end: u64 = if end_raw < size64 {
            end_raw
        } else {
            size64
        };
        proof {
            assert forall|i: int|
                0 <= i < size && axis_in_reach(
                    n as int,
                    i,
                    kernel as int,
                    stride as int,
                    dilation as int,
                ) implies 0 <= i < end by {
                lemma_window_end_far(n as int, s as int, kd as int, q as int, i);
            }
        }
        (0, end)
    }
}

} // verus!
