//! Two-dimensional transposed convolution: what one invocation of the compute
//! kernel reads to produce its output element.
use crate::tensor_info::Tensor;
use crate::window::{
    axis_covered, axis_in_reach, axis_tap, axis_window, lemma_axis_tap_found,
    lemma_axis_tap_unique,
};
use vstd::arithmetic::div_mod::{lemma_fundamental_div_mod, lemma_mod_bound};
use vstd::prelude::*;

verus! {

/// The seven unsigned scalars the kernel is launched with.
pub struct KernelScalars {
    pub stride: [u32; 2],
    pub dilation: [u32; 2],
    pub padding: [u32; 2],
    pub groups: u32,
}

/// The kernel's bindings: the input `[batch, in_channels, height, width]`, the
/// weight `[in_channels, out_channels / groups, kernel_height, kernel_width]`,
/// the bias (one value per output channel) and the output
/// `[batch, out_channels, out_height, out_width]`.
pub struct Conv2dTransposeComputeShader {
    pub input: Tensor,
    pub weight: Tensor,
    pub bias: Tensor,
    pub output: Tensor,
}

/// One product the invocation adds to its output element:
/// `input[input_index] * weight[weight_index]`, where `input_index` is the
/// offset of `input[batch, in_channel, in_row, in_col]` and `weight_index`
/// that of `weight[in_channel, channel in group, kernel_row, kernel_col]`.
#[derive(Clone, Copy, Debug, PartialEq, Eq, Structural)]
pub struct Tap {
    pub in_channel: u32,
    pub in_row: u32,
    pub in_col: u32,
    pub kernel_row: u32,
    pub kernel_col: u32,
    pub input_index: u32,
    pub weight_index: u32,
}

/// What one invocation computes: `output[output_index]` receives
/// `bias[bias_index]` plus the sum of the products of `taps`.
pub struct Invocation {
    pub output_index: u32,
    pub bias_index: u32,
    pub taps: Vec<Tap>,
}

/// `(c, i, w)` comes before `(c2, i2, w2)` in lexicographic order.
pub open spec fn key_before(c: int, i: int, w: int, c2: int, i2: int, w2: int) -> bool {
    c < c2 || (c == c2 && (i < i2 || (i == i2 && w < w2)))
}

/// The tap's input position comes before `(c, i, w)`.
pub open spec fn tap_before(t: Tap, c: int, i: int, w: int) -> bool {
    key_before(t.in_channel as int, t.in_row as int, t.in_col as int, c, i, w)
}

/// Taps in strictly increasing order of input channel, row and column.
pub open spec fn taps_sorted(taps: Seq<Tap>) -> bool {
    forall|j: int, k: int|
        #![trigger taps[j], taps[k]]
        0 <= j < k < taps.len() ==> tap_before(
            taps[j],
            taps[k].in_channel as int,
            taps[k].in_row as int,
            taps[k].in_col as int,
        )
}

/// Some tap reads input position `(c, i, w)` with kernel position `(kh, kw)`.
pub open spec fn has_tap(taps: Seq<Tap>, c: int, i: int, w: int, kh: int, kw: int) -> bool {
    exists|j: int|
        0 <= j < taps.len() && #[trigger] taps[j].in_channel == c && taps[j].in_row == i
            && taps[j].in_col == w && taps[j].kernel_row == kh && taps[j].kernel_col == kw
}

proof fn lemma_has_tap_push(taps: Seq<Tap>, t: Tap, c: int, i: int, w: int, kh: int, kw: int)
    requires
        has_tap(taps, c, i, w, kh, kw),
    ensures
        has_tap(taps.push(t), c, i, w, kh, kw),
{
    let j = choose|j: int|
        0 <= j < taps.len() && #[trigger] taps[j].in_channel == c && taps[j].in_row == i
            && taps[j].in_col == w && taps[j].kernel_row == kh && taps[j].kernel_col == kw;
    assert(taps.push(t)[j] == taps[j]);
}

proof fn lemma_has_tap_last(taps: Seq<Tap>, t: Tap)
    ensures
        has_tap(
            taps.push(t),
            t.in_channel as int,
            t.in_row as int,
            t.in_col as int,
            t.kernel_row as int,
            t.kernel_col as int,
        ),
{
    assert(taps.push(t)[taps.len() as int] == t);
}

/// The output channel `oc_out` of a weight with `per_group` output channels per
/// group lies in group `oc_out / per_group`, at `oc_out % per_group` in it, and
/// the group's input channels `[g * width, (g + 1) * width)` lie inside the
/// weight's `in_channels`.
proof fn lemma_group(oc_out: int, per_group: int, groups: int, in_channels: int)
    requires
        0 <= oc_out < per_group * groups,
        per_group > 0,
        groups > 0,
        in_channels >= 0,
    ensures
        0 <= oc_out / per_group < groups,
        (oc_out / per_group) % groups == oc_out / per_group,
        0 <= oc_out - per_group * (oc_out / per_group) < per_group,
        (oc_out / per_group) * (in_channels / groups) + in_channels / groups <= in_channels,
        0 <= (oc_out / per_group) * (in_channels / groups),
{
    let k = oc_out / per_group;
    let w = in_channels / groups;
    lemma_fundamental_div_mod(oc_out, per_group);
    lemma_mod_bound(oc_out, per_group);
    assert(0 <= k < groups) by (nonlinear_arith)
        requires
            oc_out == per_group * k + oc_out % per_group,
            0 <= oc_out % per_group < per_group,
            0 <= oc_out < per_group * groups,
            per_group > 0,
    ;
    vstd::arithmetic::div_mod::lemma_small_mod(k as nat, groups as nat);
    lemma_fundamental_div_mod(in_channels, groups);
    lemma_mod_bound(in_channels, groups);
    assert(0 <= w);
    assert(k * w + w <= in_channels && 0 <= k * w) by (nonlinear_arith)
        requires
            in_channels == groups * w + in_channels % groups,
            0 <= in_channels % groups,
            0 <= k < groups,
            0 <= w,
    ;
}

impl Conv2dTransposeComputeShader {
    /// The launch the kernel is written for: four-dimensional bindings whose
    /// shapes agree with each other, a non-empty output with positive strides,
    /// positive strides, dilations and group count, and input and weight
    /// buffers addressable with `u32` offsets.
    pub open spec fn launch_ok(&self, sc: &KernelScalars) -> bool {
        &&& self.input.rank4()
        &&& self.weight.rank4()
        &&& self.output.rank4()
        &&& self.output.shape@[0] > 0 && self.output.shape@[1] > 0
        &&& self.output.shape@[2] > 0 && self.output.shape@[3] > 0
        &&& self.output.strides@[0] > 0 && self.output.strides@[1] > 0
        &&& self.output.strides@[2] > 0 && self.output.strides@[3] > 0
        &&& sc.stride[0] > 0 && sc.stride[1] > 0
        &&& sc.dilation[0] > 0 && sc.dilation[1] > 0
        &&& sc.groups > 0
        &&& self.output.shape@[0] == self.input.shape@[0]
        &&& self.weight.shape@[0] == self.input.shape@[1]
        &&& self.output.shape@[1] == self.weight.shape@[1] * sc.groups
        &&& self.input.max_offset4() <= u32::MAX
        &&& self.weight.max_offset4() <= u32::MAX
    }

    /// Coordinate `dim` of the output element of invocation `id`.
    pub open spec fn out_coord(&self, id: int, dim: int) -> int {
        (id / (self.output.strides@[dim] as int)) % (self.output.shape@[dim] as int)
    }

    /// The group of the output channel of invocation `id`.
    pub open spec fn group_of(&self, sc: &KernelScalars, id: int) -> int {
        (self.out_coord(id, 1) / (self.weight.shape@[1] as int)) % (sc.groups as int)
    }

    /// The position of the output channel of invocation `id` inside its group.
    pub open spec fn channel_in_group(&self, sc: &KernelScalars, id: int) -> int {
        self.out_coord(id, 1) - self.weight.shape@[1] * self.group_of(sc, id)
    }

    /// The number of input channels of a group.
    pub open spec fn group_width(&self, sc: &KernelScalars) -> int {
        (self.weight.shape@[0] as int) / (sc.groups as int)
    }

    /// The output row of invocation `id`, counted in the padded output.
    pub open spec fn padded_row(&self, sc: &KernelScalars, id: int) -> int {
        self.out_coord(id, 2) + sc.padding[0]
    }

    /// The output column of invocation `id`, counted in the padded output.
    pub open spec fn padded_col(&self, sc: &KernelScalars, id: int) -> int {
        self.out_coord(id, 3) + sc.padding[1]
    }

    /// Along both axes the dilated kernel spans at least one stride.
    pub open spec fn covered(&self, sc: &KernelScalars) -> bool {
        &&& axis_covered(self.weight.shape@[2] as int, sc.stride[0] as int, sc.dilation[0] as int)
        &&& axis_covered(self.weight.shape@[3] as int, sc.stride[1] as int, sc.dilation[1] as int)
    }

    /// Input element `[batch, c, i, w]` and weight element `[c, channel, kh, kw]`
    /// meet in the output element of invocation `id`: `c` is an input channel of
    /// the output channel's group, and along each axis the input position, moved
    /// by `stride` and shifted by the dilated kernel position, lands on the
    /// padded output position. Such a product is summed only where the dilated
    /// kernel spans a stride along both axes.
    pub open spec fn contributes_in_window(
        &self,
        sc: &KernelScalars,
        id: int,
        c: int,
        i: int,
        w: int,
        kh: int,
        kw: int,
    ) -> bool {
        &&& self.covered(sc)
        &&& self.group_of(sc, id) * self.group_width(sc) <= c < self.group_of(sc, id)
            * self.group_width(sc) + self.group_width(sc)
        &&& axis_tap(
            self.padded_row(sc, id),
            i,
            kh,
            self.input.shape@[2] as int,
            self.weight.shape@[2] as int,
            sc.stride[0] as int,
            sc.dilation[0] as int,
        )
        &&& axis_tap(
            self.padded_col(sc, id),
            w,
            kw,
            self.input.shape@[3] as int,
            self.weight.shape@[3] as int,
            sc.stride[1] as int,
            sc.dilation[1] as int,
        )
    }

    /// `t` is the product of a contributing input and weight element, with the
    /// offsets of those elements.
    pub open spec fn tap_at(&self, sc: &KernelScalars, id: int, t: Tap) -> bool {
        &&& self.contributes_in_window(
            sc,
            id,
            t.in_channel as int,
            t.in_row as int,
            t.in_col as int,
            t.kernel_row as int,
            t.kernel_col as int,
        )
        &&& t.input_index == self.input.offset4(
            self.out_coord(id, 0),
            t.in_channel as int,
            t.in_row as int,
            t.in_col as int,
        )
        &&& t.weight_index == self.weight.offset4(
            t.in_channel as int,
            self.channel_in_group(sc, id),
            t.kernel_row as int,
            t.kernel_col as int,
        )
    }

    /// `taps` lists, in increasing order of input channel, row and column, the
    /// product of every contributing input and weight element of invocation
    /// `id`, and nothing else.
    pub open spec fn taps_exactly(&self, sc: &KernelScalars, id: int, taps: Seq<Tap>) -> bool {
        &&& taps_sorted(taps)
        &&& forall|j: int| 0 <= j < taps.len() ==> self.tap_at(sc, id, #[trigger] taps[j])
        &&& forall|c: int, i: int, w: int, kh: int, kw: int|
            self.contributes_in_window(sc, id, c, i, w, kh, kw) ==> #[trigger] has_tap(
                taps,
                c,
                i,
                w,
                kh,
                kw,
            )
    }

    /// Whether the bindings and scalars form the launch the kernel is written
    /// for.
    pub fn launch_supported(&self, sc: &KernelScalars) -> (r: bool)
        ensures
            r == self.launch_ok(sc),
    {
        if self.input.shape.len() != 4 || self.input.strides.len() != 4 {
            return false;
        }
        if self.weight.shape.len() != 4 || self.weight.strides.len() != 4 {
            return false;
        }
        if self.output.shape.len() != 4 || self.output.strides.len() != 4 {
            return false;
        }
        let o = &self.output;
        let shapes_positive = o.shape[0] > 0 && o.shape[1] > 0 && o.shape[2] > 0 && o.shape[3] > 0;
        let strides_positive = o.strides[0] > 0 && o.strides[1] > 0 && o.strides[2] > 0
            && o.strides[3] > 0;
        let scalars_positive = sc.stride[0] > 0 && sc.stride[1] > 0 && sc.dilation[0] > 0
            && sc.dilation[1] > 0 && sc.groups > 0;
        assert(self.weight.shape@[1] * sc.groups <= u64::MAX) by (nonlinear_arith)
            requires
                self.weight.shape@[1] <= u32::MAX,
                sc.groups <= u32::MAX,
        ;
        let shapes_agree = o.shape[0] == self.input.shape[0] && self.weight.shape[0]
            == self.input.shape[1] && o.shape[1] as u64 == self.weight.shape[1] as u64
            * sc.groups as u64;
        shapes_positive && strides_positive && scalars_positive && shapes_agree
            && self.input.offsets_fit_u32() && self.weight.offsets_fit_u32()
    }

    /// The work of invocation `id` of the transposed-convolution kernel: the
    /// output element `id` receives the bias of its output channel plus the
    /// products of every input element and weight element that meet in it,
    /// in the order of input channel, row and column.
    ///
    /// The kernel scans, per axis, a window of input positions derived from the
    /// padded output position. Where the dilated kernel spans at least a stride
    /// along both axes, the window holds every contributing position, so the
    /// invocation computes the transposed convolution; where it spans less
    /// along an axis, the window is empty and the invocation adds no product.
    /// Every product reads inside the input and the weight.
    #[verifier::loop_isolation(false)]
    pub fn expand(&self, id: u32, sc: &KernelScalars) -> (r: Invocation)
        requires
            self.launch_ok(sc),
        ensures
            r.output_index == id,
            r.bias_index == self.out_coord(id as int, 1),
            self.taps_exactly(sc, id as int, r.taps@),
            !self.covered(sc) ==> r.taps.len() == 0,
            forall|j: int|
                0 <= j < r.taps.len() ==> (#[trigger] r.taps@[j]).input_index
                    <= self.input.max_offset4() && r.taps@[j].weight_index
                    <= self.weight.max_offset4(),
            r.bias_index < self.output.shape@[1],
            self.bias.shape.len() >= 1 && self.bias.shape@[0] >= self.output.shape@[1]
                ==> r.bias_index < self.bias.shape@[0],
    {
        let b = (id / self.output.strides[0]) % self.output.shape[0];
        let oc_out = (id / self.output.strides[1]) % self.output.shape[1];
        let oh = (id / self.output.strides[2]) % self.output.shape[2];
        let ow = (id / self.output.strides[3]) % self.output.shape[3];

        let per_group = self.weight.shape[1];
        proof {
            lemma_mod_bound(id as int / (self.output.strides@[1] as int), self.output.shape@[1] as int);
            lemma_group(
                oc_out as int,
                per_group as int,
                sc.groups as int,
                self.weight.shape@[0] as int,
            );
        }
        let k = oc_out / per_group;
        let g = k % sc.groups;
        let oc = oc_out - per_group * g;
        let ic_width = self.weight.shape[0] / sc.groups;
        let ic_start = g * ic_width;
        let ic_end = ic_start + ic_width;

        let stride_h = sc.stride[0];
        let stride_w = sc.stride[1];
        let dilation_h = sc.dilation[0];
        let dilation_w = sc.dilation[1];
        let kernel_h = self.weight.shape[2];
        let kernel_w = self.weight.shape[3];
        let n_h: u64 = oh as u64 + sc.padding[0] as u64;
        let n_w: u64 = ow as u64 + sc.padding[1] as u64;
        let (h_start, h_end) = axis_window(
            n_h,
            kernel_h,
            stride_h,
            dilation_h,
            self.input.shape[2],
        );
        let (w_start, w_end) = axis_window(
            n_w,
            kernel_w,
            stride_w,
            dilation_w,
            self.input.shape[3],
        );
        let ghost gid = id as int;
        assert(b == self.out_coord(gid, 0));
        assert(oh == self.out_coord(gid, 2));
        assert(ow == self.out_coord(gid, 3));
        assert(n_h == self.padded_row(sc, gid));
        assert(n_w == self.padded_col(sc, gid));
        assert(ic_start == self.group_of(sc, gid) * self.group_width(sc));
        assert(oc == self.channel_in_group(sc, gid));
        proof {
            lemma_mod_bound(id as int / (self.output.strides@[0] as int), self.output.shape@[0] as int);
        }

        let ghost size_h = self.input.shape@[2] as int;
        let ghost size_w = self.input.shape@[3] as int;
        proof {
            // Every contributing position lies inside the windows.
            assert forall|c: int, i: int, w: int, kh2: int, kw2: int|
                self.contributes_in_window(sc, gid, c, i, w, kh2, kw2) implies h_start <= i < h_end
                && w_start <= w < w_end by {
                lemma_axis_tap_unique(
                    n_h as int,
                    i,
                    kh2,
                    size_h,
                    kernel_h as int,
                    stride_h as int,
                    dilation_h as int,
                );
                lemma_axis_tap_unique(
                    n_w as int,
                    w,
                    kw2,
                    size_w,
                    kernel_w as int,
                    stride_w as int,
                    dilation_w as int,
                );
            }
        }

        let mut taps: Vec<Tap> = Vec::new();
        let mut ic = ic_start;
        while ic < ic_end
            invariant
                ic_start <= ic <= ic_end,
                taps_sorted(taps@),
                forall|j: int| 0 <= j < taps.len() ==> self.tap_at(sc, gid, #[trigger] taps@[j]),
                forall|j: int|
                    0 <= j < taps.len() ==> (#[trigger] taps@[j]).input_index
                        <= self.input.max_offset4() && taps@[j].weight_index
                        <= self.weight.max_offset4(),
                forall|j: int| 0 <= j < taps.len() ==> (#[trigger] taps@[j]).in_channel < ic,
                forall|c: int, i: int, w: int, kh: int, kw: int|
                    self.contributes_in_window(sc, gid, c, i, w, kh, kw) && c < ic ==> #[trigger] has_tap(
                        taps@,
                        c,
                        i,
                        w,
                        kh,
                        kw,
                    ),
            decreases ic_end - ic,
        {
            let mut ih = h_start;
            while ih < h_end
                invariant
                    ic_start <= ic < ic_end,
                    h_start <= ih,
                    taps_sorted(taps@),
                    forall|j: int| 0 <= j < taps.len() ==> self.tap_at(sc, gid, #[trigger] taps@[j]),
                    forall|j: int|
                        0 <= j < taps.len() ==> (#[trigger] taps@[j]).input_index
                            <= self.input.max_offset4() && taps@[j].weight_index
                            <= self.weight.max_offset4(),
                    forall|j: int|
                        0 <= j < taps.len() ==> tap_before(#[trigger] taps@[j], ic as int, ih as int, 0),
                    forall|c: int, i: int, w: int, kh: int, kw: int|
                        self.contributes_in_window(sc, gid, c, i, w, kh, kw) && key_before(
                            c,
                            i,
                            w,
                            ic as int,
                            ih as int,
                            0,
                        ) ==> #[trigger] has_tap(taps@, c, i, w, kh, kw),
                decreases h_end - ih,
            {
                assert(ih * stride_h <= u64::MAX) by (nonlinear_arith)
                    requires
                        ih < u32::MAX,
                        stride_h <= u32::MAX,
                ;
                let ih_stride = ih * stride_h as u64;
                if ih_stride <= n_h && (n_h - ih_stride) % dilation_h as u64 == 0 {
                    let kh = (n_h - ih_stride) / dilation_h as u64;
                    proof {
                        assert(axis_in_reach(
                            n_h as int,
                            ih as int,
                            kernel_h as int,
                            stride_h as int,
                            dilation_h as int,
                        ));
                        lemma_axis_tap_found(
                            n_h as int,
                            ih as int,
                            size_h,
                            kernel_h as int,
                            stride_h as int,
                            dilation_h as int,
                        );
                    }
                    let mut iw = w_start;
                    while iw < w_end
                        invariant
                            ic_start <= ic < ic_end,
                            h_start <= ih < h_end,
                            w_start <= iw,
                            taps_sorted(taps@),
                            forall|j: int|
                                0 <= j < taps.len() ==> self.tap_at(sc, gid, #[trigger] taps@[j]),
                            forall|j: int|
                                0 <= j < taps.len() ==> (#[trigger] taps@[j]).input_index
                                    <= self.input.max_offset4() && taps@[j].weight_index
                                    <= self.weight.max_offset4(),
                            forall|j: int|
                                0 <= j < taps.len() ==> tap_before(
                                    #[trigger] taps@[j],
                                    ic as int,
                                    ih as int,
                                    iw as int,
                                ),
                            forall|c: int, i: int, w: int, kh: int, kw: int|
                                self.contributes_in_window(sc, gid, c, i, w, kh, kw) && key_before(
                                    c,
                                    i,
                                    w,
                                    ic as int,
                                    ih as int,
                                    iw as int,
                                ) ==> #[trigger] has_tap(taps@, c, i, w, kh, kw),
                        decreases w_end - iw,
                    {
                        assert(iw * stride_w <= u64::MAX) by (nonlinear_arith)
                            requires
                                iw < u32::MAX,
                                stride_w <= u32::MAX,
                        ;
                        let iw_stride = iw * stride_w as u64;
                        let ghost old_taps = taps@;
                        if iw_stride <= n_w && (n_w - iw_stride) % dilation_w as u64 == 0 {
                            let kw = (n_w - iw_stride) / dilation_w as u64;
                            proof {
                                assert(axis_in_reach(
                                    n_w as int,
                                    iw as int,
                                    kernel_w as int,
                                    stride_w as int,
                                    dilation_w as int,
                                ));
                                lemma_axis_tap_found(
                                    n_w as int,
                                    iw as int,
                                    size_w,
                                    kernel_w as int,
                                    stride_w as int,
                                    dilation_w as int,
                                );
                            }
                            let input_index = self.input.index4(b, ic, ih as u32, iw as u32);
                            let weight_index = self.weight.index4(
                                ic,
                                oc,
                                kh as u32,
                                kw as u32,
                            );
                            let t = Tap {
                                in_channel: ic,
                                in_row: ih as u32,
                                in_col: iw as u32,
                                kernel_row: kh as u32,
                                kernel_col: kw as u32,
                                input_index,
                                weight_index,
                            };
                            taps.push(t);
                            proof {
                                assert(self.tap_at(sc, gid, t));
                                assert(taps@ == old_taps.push(t));
                                assert forall|j: int, k: int|
                                    #![trigger taps@[j], taps@[k]]
                                    0 <= j < k < taps@.len() implies tap_before(
                                    taps@[j],
                                    taps@[k].in_channel as int,
                                    taps@[k].in_row as int,
                                    taps@[k].in_col as int,
                                ) by {
                                    if k < old_taps.len() {
                                        assert(taps@[j] == old_taps[j]);
                                        assert(taps@[k] == old_taps[k]);
                                    } else {
                                        assert(taps@[j] == old_taps[j]);
                                    }
                                }
                                assert forall|c: int, i: int, w: int, kh2: int, kw2: int|
                                    self.contributes_in_window(sc, gid, c, i, w, kh2, kw2) && key_before(
                                        c,
                                        i,
                                        w,
                                        ic as int,
                                        ih as int,
                                        iw + 1,
                                    ) implies #[trigger] has_tap(taps@, c, i, w, kh2, kw2) by {
                                    if key_before(c, i, w, ic as int, ih as int, iw as int) {
                                        assert(has_tap(old_taps, c, i, w, kh2, kw2));
                                        lemma_has_tap_push(old_taps, t, c, i, w, kh2, kw2);
                                    } else {
                                        lemma_axis_tap_unique(
                                            n_h as int,
                                            i,
                                            kh2,
                                            size_h,
                                            kernel_h as int,
                                            stride_h as int,
                                            dilation_h as int,
                                        );
                                        lemma_axis_tap_unique(
                                            n_w as int,
                                            w,
                                            kw2,
                                            size_w,
                                            kernel_w as int,
                                            stride_w as int,
                                            dilation_w as int,
                                        );
                                        lemma_has_tap_last(old_taps, t);
                                    }
                                }
                            }
                        } else {
                            proof {
                                assert forall|c: int, i: int, w: int, kh2: int, kw2: int|
                                    self.contributes_in_window(sc, gid, c, i, w, kh2, kw2) && key_before(
                                        c,
                                        i,
                                        w,
                                        ic as int,
                                        ih as int,
                                        iw + 1,
                                    ) implies #[trigger] has_tap(taps@, c, i, w, kh2, kw2) by {
                                    if !key_before(c, i, w, ic as int, ih as int, iw as int) {
                                        lemma_axis_tap_unique(
                                            n_w as int,
                                            w,
                                            kw2,
                                            size_w,
                                            kernel_w as int,
                                            stride_w as int,
                                            dilation_w as int,
                                        );
                                    }
                                }
                            }
                        }
                        iw = iw + 1;
                    }
                    proof {
                        assert forall|c: int, i: int, w: int, kh2: int, kw2: int|
                            self.contributes_in_window(sc, gid, c, i, w, kh2, kw2) && key_before(
                                c,
                                i,
                                w,
                                ic as int,
                                ih + 1,
                                0,
                            ) implies #[trigger] has_tap(taps@, c, i, w, kh2, kw2) by {
                            assert(key_before(c, i, w, ic as int, ih as int, iw as int));
                        }
                    }
                } else {
                    proof {
                        assert forall|c: int, i: int, w: int, kh2: int, kw2: int|
                            self.contributes_in_window(sc, gid, c, i, w, kh2, kw2) && key_before(
                                c,
                                i,
                                w,
                                ic as int,
                                ih + 1,
                                0,
                            ) implies #[trigger] has_tap(taps@, c, i, w, kh2, kw2) by {
                            if !key_before(c, i, w, ic as int, ih as int, 0) {
                                lemma_axis_tap_unique(
                                    n_h as int,
                                    i,
                                    kh2,
                                    size_h,
                                    kernel_h as int,
                                    stride_h as int,
                                    dilation_h as int,
                                );
                            }
                        }
                    }
                }
                ih = ih + 1;
            }
            ic = ic + 1;
        }
        proof {
            if taps.len() > 0 {
                assert(self.tap_at(sc, gid, taps@[0]));
            }
        }
        Invocation { output_index: id, bias_index: oc_out, taps }
    }
}

/// Options of a two-dimensional transposed convolution.
pub struct ConvTransposeOptions {
    pub stride: [usize; 2],
    pub padding: [usize; 2],
    pub padding_out: [usize; 2],
    pub dilation: [usize; 2],
    pub groups: usize,
}

/// What the kernel is launched with: the shape of the output it fills, the
/// shape the bias is given (one value per entry of its first dimension), and
/// the kernel's scalars.
pub struct ConvTranspose2dLaunch {
    pub output_shape: [usize; 4],
    pub bias_shape: [usize; 4],
    pub scalars: KernelScalars,
}

/// Length of one output axis of a transposed convolution:
/// `(size_in - 1) * stride + dilation * (kernel - 1) + padding_out - 2 * padding + 1`.
pub open spec fn transposed_len(
    size_in: int,
    kernel: int,
    stride: int,
    padding: int,
    padding_out: int,
    dilation: int,
) -> int {
    (size_in - 1) * stride + dilation * (kernel - 1) + padding_out - 2 * padding + 1
}

/// Every step of the length computation, evaluated left to right in `usize`,
/// stays inside `usize`.
pub open spec fn transposed_len_fits(
    size_in: int,
    kernel: int,
    stride: int,
    padding: int,
    padding_out: int,
    dilation: int,
) -> bool {
    &&& size_in >= 1
    &&& kernel >= 1
    &&& (size_in - 1) * stride <= usize::MAX
    &&& dilation * (kernel - 1) <= usize::MAX
    &&& (size_in - 1) * stride + dilation * (kernel - 1) + padding_out <= usize::MAX
    &&& 2 * padding <= usize::MAX
    &&& 2 * padding <= (size_in - 1) * stride + dilation * (kernel - 1) + padding_out
    &&& (size_in - 1) * stride + dilation * (kernel - 1) + padding_out - 2 * padding + 1
        <= usize::MAX
}

/// Length of one output axis.
fn transposed_len_exec(
    size_in: usize,
    kernel: usize,
    stride: usize,
    padding: usize,
    padding_out: usize,
    dilation: usize,
) -> (r: usize)
    requires
        transposed_len_fits(
            size_in as int,
            kernel as int,
            stride as int,
            padding as int,
            padding_out as int,
            dilation as int,
        ),
    ensures
        r == transposed_len(
            size_in as int,
            kernel as int,
            stride as int,
            padding as int,
            padding_out as int,
            dilation as int,
        ),
{
    (size_in - 1) * stride + dilation * (kernel - 1) + padding_out - 2 * padding + 1
}

/// Length of one output axis, or `None` where a step of its computation in
/// `usize` would overflow.
pub fn checked_transposed_len(
    size_in: usize,
    kernel: usize,
    stride: usize,
    padding: usize,
    padding_out: usize,
    dilation: usize,
) -> (r: Option<usize>)
    ensures
        r is Some <==> transposed_len_fits(
            size_in as int,
            kernel as int,
            stride as int,
            padding as int,
            padding_out as int,
            dilation as int,
        ),
        r matches Some(v) ==> v == transposed_len(
            size_in as int,
            kernel as int,
            stride as int,
            padding as int,
            padding_out as int,
            dilation as int,
        ),
        r matches Some(v) ==> v == (size_in - 1) * stride + dilation * (kernel - 1) + padding_out
            - 2 * padding + 1,
{
    let max = usize::MAX as u128;
    if size_in < 1 || kernel < 1 {
        return None;
    }
    assert((size_in - 1) * stride <= u128::MAX && dilation * (kernel - 1) <= u128::MAX)
        by (nonlinear_arith)
        requires
            0 <= size_in - 1 <= u64::MAX,
            stride <= u64::MAX,
            dilation <= u64::MAX,
            0 <= kernel - 1 <= u64::MAX,
    ;
    let a = (size_in - 1) as u128 * stride as u128;
    let b = dilation as u128 * (kernel - 1) as u128;
    if a > max || b > max {
        return None;
    }
    let c = a + b + padding_out as u128;
    let p = 2 * padding as u128;
    if c > max || p > max || p > c || c - p + 1 > max {
        return None;
    }
    Some(transposed_len_exec(size_in, kernel, stride, padding, padding_out, dilation))
}

/// `launch` is what the host computes for a transposed convolution of an input
/// of shape `input_dims` with a weight of shape `weight_dims`, an optional bias
/// of length `bias_len`, and `options`: the output has the batch of the input,
/// `out_channels * groups` channels and the transposed lengths; the bias keeps
/// its length, or, when there is none, a zero bias as long as the batch is
/// made; the scalars are the options cut to `u32`.
pub open spec fn launch_for(
    launch: ConvTranspose2dLaunch,
    input_dims: [usize; 4],
    weight_dims: [usize; 4],
    bias_len: Option<usize>,
    options: ConvTransposeOptions,
) -> bool {
    &&& launch.output_shape[0] == input_dims[0]
    &&& launch.output_shape[1] == weight_dims[1] * options.groups
    &&& launch.output_shape[2] == transposed_len(
        input_dims[2] as int,
        weight_dims[2] as int,
        options.stride[0] as int,
        options.padding[0] as int,
        options.padding_out[0] as int,
        options.dilation[0] as int,
    )
    &&& launch.output_shape[3] == transposed_len(
        input_dims[3] as int,
        weight_dims[3] as int,
        options.stride[1] as int,
        options.padding[1] as int,
        options.padding_out[1] as int,
        options.dilation[1] as int,
    )
    &&& launch.bias_shape[0] == (match bias_len {
        Some(len) => len,
        None => input_dims[0],
    })
    &&& launch.bias_shape[1] == 1 && launch.bias_shape[2] == 1 && launch.bias_shape[3] == 1
    &&& launch.scalars.stride[0] == options.stride[0] as u32
    &&& launch.scalars.stride[1] == options.stride[1] as u32
    &&& launch.scalars.dilation[0] == options.dilation[0] as u32
    &&& launch.scalars.dilation[1] == options.dilation[1] as u32
    &&& launch.scalars.padding[0] == options.padding[0] as u32
    &&& launch.scalars.padding[1] == options.padding[1] as u32
    &&& launch.scalars.groups == options.groups as u32
}

/// The host side of a transposed convolution: the output shape, the shape of
/// the bias the kernel reads, and the kernel's scalars.
pub fn conv_transpose2d_launch(
    input_dims: [usize; 4],
    weight_dims: [usize; 4],
    bias_len: Option<usize>,
    options: &ConvTransposeOptions,
) -> (r: ConvTranspose2dLaunch)
    requires
        transposed_len_fits(
            input_dims[2] as int,
            weight_dims[2] as int,
            options.stride[0] as int,
            options.padding[0] as int,
            options.padding_out[0] as int,
            options.dilation[0] as int,
        ),
        transposed_len_fits(
            input_dims[3] as int,
            weight_dims[3] as int,
            options.stride[1] as int,
            options.padding[1] as int,
            options.padding_out[1] as int,
            options.dilation[1] as int,
        ),
        weight_dims[1] * options.groups <= usize::MAX,
    ensures
        launch_for(r, input_dims, weight_dims, bias_len, *options),
        r.output_shape[2] == (input_dims[2] - 1) * options.stride[0] + options.dilation[0] * (
        weight_dims[2] - 1) + options.padding_out[0] - 2 * options.padding[0] + 1,
        r.output_shape[3] == (input_dims[3] - 1) * options.stride[1] + options.dilation[1] * (
        weight_dims[3] - 1) + options.padding_out[1] - 2 * options.padding[1] + 1,
{
    let batch_size = input_dims[0];
    let out_0 = transposed_len_exec(
        input_dims[2],
        weight_dims[2],
        options.stride[0],
        options.padding[0],
        options.padding_out[0],
        options.dilation[0],
    );
    let out_1 = transposed_len_exec(
        input_dims[3],
        weight_dims[3],
        options.stride[1],
        options.padding[1],
        options.padding_out[1],
        options.dilation[1],
    );
    let output_shape = [batch_size, weight_dims[1] * options.groups, out_0, out_1];
    let bias_channels = match bias_len {
        Some(len) => len,
        None => output_shape[0],
    };
    let bias_shape = [bias_channels, 1, 1, 1];
    let scalars = KernelScalars {
        stride: [options.stride[0] as u32, options.stride[1] as u32],
        dilation: [options.dilation[0] as u32, options.dilation[1] as u32],
        padding: [options.padding[0] as u32, options.padding[1] as u32],
        groups: options.groups as u32,
    };
    ConvTranspose2dLaunch { output_shape, bias_shape, scalars }
}

/// The host side of a transposed convolution, or `None` on the options and
/// shapes where computing the output shape overflows `usize`.
pub fn try_conv_transpose2d_launch(
    input_dims: [usize; 4],
    weight_dims: [usize; 4],
    bias_len: Option<usize>,
    options: &ConvTransposeOptions,
) -> (r: Option<ConvTranspose2dLaunch>)
    ensures
        r is Some <==> (transposed_len_fits(
            input_dims[2] as int,
            weight_dims[2] as int,
            options.stride[0] as int,
            options.padding[0] as int,
            options.padding_out[0] as int,
            options.dilation[0] as int,
        ) && transposed_len_fits(
            input_dims[3] as int,
            weight_dims[3] as int,
            options.stride[1] as int,
            options.padding[1] as int,
            options.padding_out[1] as int,
            options.dilation[1] as int,
        ) && weight_dims[1] * options.groups <= usize::MAX),
        r matches Some(launch) ==> launch_for(launch, input_dims, weight_dims, bias_len, *options),
        r matches Some(launch) ==> launch.output_shape[2] == (input_dims[2] - 1) * options.stride[0]
            + options.dilation[0] * (weight_dims[2] - 1) + options.padding_out[0] - 2
            * options.padding[0] + 1,
        r matches Some(launch) ==> launch.output_shape[3] == (input_dims[3] - 1) * options.stride[1]
            + options.dilation[1] * (weight_dims[3] - 1) + options.padding_out[1] - 2
            * options.padding[1] + 1,
{
    let rows = checked_transposed_len(
        input_dims[2],
        weight_dims[2],
        options.stride[0],
        options.padding[0],
        options.padding_out[0],
        options.dilation[0],
    );
    let cols = checked_transposed_len(
        input_dims[3],
        weight_dims[3],
        options.stride[1],
        options.padding[1],
        options.padding_out[1],
        options.dilation[1],
    );
    if rows.is_none() || cols.is_none() {
        return None;
    }
    assert(weight_dims[1] * options.groups <= u128::MAX) by (nonlinear_arith)
        requires
            weight_dims[1] <= u64::MAX,
            options.groups <= u64::MAX,
    ;
    if weight_dims[1] as u128 * options.groups as u128 > usize::MAX as u128 {
        return None;
    }
    Some(conv_transpose2d_launch(input_dims, weight_dims, bias_len, options))
}

/// For a contiguous output, invocation `id`, below the number of output
/// elements, fills the element at offset `id`: the coordinates it derives from
/// its id lie inside the output and address exactly that element. So the
/// invocations `0 .. num_elements` fill every output element once.
pub proof fn lemma_invocation_owns_its_element(shader: Conv2dTransposeComputeShader, id: int)
    requires
        shader.output.contiguous4(),
        shader.output.shape@[0] > 0,
        shader.output.shape@[1] > 0,
        shader.output.shape@[2] > 0,
        shader.output.shape@[3] > 0,
        0 <= id < shader.output.num_elements4(),
    ensures
        0 <= shader.out_coord(id, 0) < shader.output.shape@[0],
        0 <= shader.out_coord(id, 1) < shader.output.shape@[1],
        0 <= shader.out_coord(id, 2) < shader.output.shape@[2],
        0 <= shader.out_coord(id, 3) < shader.output.shape@[3],
        shader.output.offset4(
            shader.out_coord(id, 0),
            shader.out_coord(id, 1),
            shader.out_coord(id, 2),
            shader.out_coord(id, 3),
        ) == id,
{
    let a = shader.output.shape@[0] as int;
    let b = shader.output.shape@[1] as int;
    let c = shader.output.shape@[2] as int;
    let d = shader.output.shape@[3] as int;
    let y3 = id / d;
    let x3 = id % d;
    let y2 = y3 / c;
    let x2 = y3 % c;
    let y1 = y2 / b;
    let x1 = y2 % b;
    lemma_fundamental_div_mod(id, d);
    lemma_mod_bound(id, d);
    lemma_fundamental_div_mod(y3, c);
    lemma_mod_bound(y3, c);
    lemma_fundamental_div_mod(y2, b);
    lemma_mod_bound(y2, b);
    assert(y3 >= 0 && y2 >= 0 && y1 >= 0) by (nonlinear_arith)
        requires
            id >= 0,
            d > 0,
            c > 0,
            b > 0,
            y3 == id / d,
            y2 == y3 / c,
            y1 == y2 / b,
    {
        vstd::arithmetic::div_mod::lemma_div_pos_is_pos(id, d);
        vstd::arithmetic::div_mod::lemma_div_pos_is_pos(y3, c);
        vstd::arithmetic::div_mod::lemma_div_pos_is_pos(y2, b);
    }
    vstd::arithmetic::div_mod::lemma_div_denominator(id, d, c);
    vstd::arithmetic::div_mod::lemma_div_denominator(y3, c, b);
    vstd::arithmetic::div_mod::lemma_div_denominator(id, d * c, b);
    assert(d * y3 == d * c * y2 + d * x2) by (nonlinear_arith)
        requires
            y3 == c * y2 + x2,
    ;
    assert(d * c * y2 == d * c * b * y1 + d * c * x1) by (nonlinear_arith)
        requires
            y2 == b * y1 + x1,
    ;
    assert(d * c * b * y1 == y1 * (b * c * d)) by (nonlinear_arith);
    assert(d * c * x1 == x1 * (c * d)) by (nonlinear_arith);
    assert(d * x2 == x2 * d) by (nonlinear_arith);
    assert(id == y1 * (b * c * d) + x1 * (c * d) + x2 * d + x3);
    assert(y1 < a) by (nonlinear_arith)
        requires
            id == y1 * (b * c * d) + x1 * (c * d) + x2 * d + x3,
            0 <= x1,
            0 <= x2,
            0 <= x3,
            b > 0,
            c > 0,
            d > 0,
            id < a * b * c * d,
    ;
    vstd::arithmetic::div_mod::lemma_small_mod(y1 as nat, a as nat);
    assert(d * c == c * d) by (nonlinear_arith);
    assert(b * c * d == (d * c) * b) by (nonlinear_arith);
    assert(id / 1 == id);
    assert(id % 1 == 0) by {
        lemma_mod_bound(id, 1);
    }
}

/// The host's launch meets the kernel's requirements: for contiguous input,
/// weight and output of the shapes the host works with, an input channel count
/// that the weight agrees with, a non-empty batch and group, and options whose
/// strides, dilations and group count are positive and fit the kernel's `u32`
/// scalars, with input and weight small enough for `u32` offsets.
pub proof fn lemma_launch_meets_kernel(
    shader: Conv2dTransposeComputeShader,
    input_dims: [usize; 4],
    weight_dims: [usize; 4],
    bias_len: Option<usize>,
    options: ConvTransposeOptions,
    launch: ConvTranspose2dLaunch,
)
    requires
        launch_for(launch, input_dims, weight_dims, bias_len, options),
        transposed_len_fits(
            input_dims[2] as int,
            weight_dims[2] as int,
            options.stride[0] as int,
            options.padding[0] as int,
            options.padding_out[0] as int,
            options.dilation[0] as int,
        ),
        transposed_len_fits(
            input_dims[3] as int,
            weight_dims[3] as int,
            options.stride[1] as int,
            options.padding[1] as int,
            options.padding_out[1] as int,
            options.dilation[1] as int,
        ),
        shader.input.contiguous4(),
        shader.weight.contiguous4(),
        shader.output.contiguous4(),
        forall|k: int| 0 <= k < 4 ==> #[trigger] shader.input.shape@[k] == input_dims[k],
        forall|k: int| 0 <= k < 4 ==> #[trigger] shader.weight.shape@[k] == weight_dims[k],
        forall|k: int| 0 <= k < 4 ==> #[trigger] shader.output.shape@[k] == launch.output_shape[k],
        weight_dims[0] == input_dims[1],
        input_dims[0] > 0,
        weight_dims[1] > 0,
        0 < options.stride[0] <= u32::MAX,
        0 < options.stride[1] <= u32::MAX,
        0 < options.dilation[0] <= u32::MAX,
        0 < options.dilation[1] <= u32::MAX,
        0 < options.groups <= u32::MAX,
        shader.input.num_elements4() <= u32::MAX + 1,
        shader.weight.num_elements4() <= u32::MAX + 1,
    ensures
        shader.launch_ok(&launch.scalars),
{
    assert(shader.input.shape@[0] == input_dims[0]);
    assert(shader.input.shape@[1] == input_dims[1]);
    assert(shader.input.shape@[2] == input_dims[2]);
    assert(shader.input.shape@[3] == input_dims[3]);
    assert(shader.weight.shape@[0] == weight_dims[0]);
    assert(shader.weight.shape@[1] == weight_dims[1]);
    assert(shader.weight.shape@[2] == weight_dims[2]);
    assert(shader.weight.shape@[3] == weight_dims[3]);
    assert(shader.output.shape@[0] == launch.output_shape[0]);
    assert(shader.output.shape@[1] == launch.output_shape[1]);
    assert(shader.output.shape@[2] == launch.output_shape[2]);
    assert(shader.output.shape@[3] == launch.output_shape[3]);
    let o = shader.output;
    assert(o.shape@[1] > 0) by (nonlinear_arith)
        requires
            o.shape@[1] == weight_dims[1] * options.groups,
            weight_dims[1] > 0,
            options.groups > 0,
    ;
    assert(o.strides@[1] > 0 && o.strides@[0] > 0) by (nonlinear_arith)
        requires
            o.strides@[1] == o.shape@[2] * o.shape@[3],
            o.strides@[0] == o.shape@[1] * o.shape@[2] * o.shape@[3],
            o.shape@[1] > 0,
            o.shape@[2] > 0,
            o.shape@[3] > 0,
    ;
    let t = shader.input;
    assert(t.max_offset4() == t.num_elements4() - 1) by (nonlinear_arith)
        requires
            t.contiguous4(),
    ;
    let w = shader.weight;
    assert(w.max_offset4() == w.num_elements4() - 1) by (nonlinear_arith)
        requires
            w.contiguous4(),
    ;
}

/// The two taps read the same input position with the same kernel position.
pub open spec fn same_position(a: Tap, b: Tap) -> bool {
    &&& a.in_channel == b.in_channel
    &&& a.in_row == b.in_row
    &&& a.in_col == b.in_col
    &&& a.kernel_row == b.kernel_row
    &&& a.kernel_col == b.kernel_col
}

/// Two sorted tap lists each of which holds the positions of the other agree
/// position by position on their first `n` taps.
proof fn lemma_sorted_prefix(a: Seq<Tap>, b: Seq<Tap>, n: int)
    requires
        taps_sorted(a),
        taps_sorted(b),
        forall|j: int|
            0 <= j < a.len() ==> has_tap(
                b,
                (#[trigger] a[j]).in_channel as int,
                a[j].in_row as int,
                a[j].in_col as int,
                a[j].kernel_row as int,
                a[j].kernel_col as int,
            ),
        forall|j: int|
            0 <= j < b.len() ==> has_tap(
                a,
                (#[trigger] b[j]).in_channel as int,
                b[j].in_row as int,
                b[j].in_col as int,
                b[j].kernel_row as int,
                b[j].kernel_col as int,
            ),
        0 <= n <= a.len(),
        n <= b.len(),
    ensures
        forall|j: int| 0 <= j < n ==> same_position(#[trigger] a[j], b[j]),
    decreases n,
{
    if n > 0 {
        let m = n - 1;
        lemma_sorted_prefix(a, b, m);
        let am = a[m];
        let bm = b[m];
        assert(has_tap(b, am.in_channel as int, am.in_row as int, am.in_col as int,
            am.kernel_row as int, am.kernel_col as int));
        let k = choose|k: int|
            0 <= k < b.len() && #[trigger] b[k].in_channel == am.in_channel && b[k].in_row
                == am.in_row && b[k].in_col == am.in_col && b[k].kernel_row == am.kernel_row
                && b[k].kernel_col == am.kernel_col;
        assert(has_tap(a, bm.in_channel as int, bm.in_row as int, bm.in_col as int,
            bm.kernel_row as int, bm.kernel_col as int));
        let k2 = choose|k2: int|
            0 <= k2 < a.len() && #[trigger] a[k2].in_channel == bm.in_channel && a[k2].in_row
                == bm.in_row && a[k2].in_col == bm.in_col && a[k2].kernel_row == bm.kernel_row
                && a[k2].kernel_col == bm.kernel_col;
        if k < m {
            assert(same_position(a[k], b[k]));
            assert(tap_before(a[k], am.in_channel as int, am.in_row as int, am.in_col as int));
        }
        if k2 < m {
            assert(same_position(a[k2], b[k2]));
            assert(tap_before(b[k2], bm.in_channel as int, bm.in_row as int, bm.in_col as int));
        }
        if k > m {
            assert(tap_before(bm, am.in_channel as int, am.in_row as int, am.in_col as int));
            if k2 > m {
                assert(tap_before(am, bm.in_channel as int, bm.in_row as int, bm.in_col as int));
            }
        }
    }
}

/// Two sorted tap lists each of which holds the positions of the other are
/// the same list of positions.
proof fn lemma_sorted_same_positions(a: Seq<Tap>, b: Seq<Tap>)
    requires
        taps_sorted(a),
        taps_sorted(b),
        forall|j: int|
            0 <= j < a.len() ==> has_tap(
                b,
                (#[trigger] a[j]).in_channel as int,
                a[j].in_row as int,
                a[j].in_col as int,
                a[j].kernel_row as int,
                a[j].kernel_col as int,
            ),
        forall|j: int|
            0 <= j < b.len() ==> has_tap(
                a,
                (#[trigger] b[j]).in_channel as int,
                b[j].in_row as int,
                b[j].in_col as int,
                b[j].kernel_row as int,
                b[j].kernel_col as int,
            ),
    ensures
        a.len() == b.len(),
        forall|j: int| 0 <= j < a.len() ==> same_position(#[trigger] a[j], b[j]),
{
    if a.len() > b.len() {
        let m = b.len() as int;
        lemma_sorted_prefix(a, b, m);
        let am = a[m];
        assert(has_tap(b, am.in_channel as int, am.in_row as int, am.in_col as int,
            am.kernel_row as int, am.kernel_col as int));
        let k = choose|k: int|
            0 <= k < b.len() && #[trigger] b[k].in_channel == am.in_channel && b[k].in_row
                == am.in_row && b[k].in_col == am.in_col && b[k].kernel_row == am.kernel_row
                && b[k].kernel_col == am.kernel_col;
        assert(same_position(a[k], b[k]));
        assert(tap_before(a[k], am.in_channel as int, am.in_row as int, am.in_col as int));
    } else if b.len() > a.len() {
        let m = a.len() as int;
        lemma_sorted_prefix(a, b, m);
        let bm = b[m];
        assert(has_tap(a, bm.in_channel as int, bm.in_row as int, bm.in_col as int,
            bm.kernel_row as int, bm.kernel_col as int));
        let k = choose|k: int|
            0 <= k < a.len() && #[trigger] a[k].in_channel == bm.in_channel && a[k].in_row
                == bm.in_row && a[k].in_col == bm.in_col && a[k].kernel_row == bm.kernel_row
                && a[k].kernel_col == bm.kernel_col;
        assert(same_position(a[k], b[k]));
        assert(tap_before(b[k], bm.in_channel as int, bm.in_row as int, bm.in_col as int));
    }
    lemma_sorted_prefix(a, b, a.len() as int);
}

/// The products an invocation sums do not depend on how the input and the
/// weight are laid out in memory: for two kernels whose tensors have the same
/// shapes and whose outputs have the same layout, invocation `id` multiplies
/// the same input and weight elements (each read through its own layout) in
/// the same order.
pub proof fn lemma_layout_independent(
    s1: Conv2dTransposeComputeShader,
    s2: Conv2dTransposeComputeShader,
    sc: KernelScalars,
    id: int,
    taps1: Seq<Tap>,
    taps2: Seq<Tap>,
)
    requires
        s1.input.shape@ == s2.input.shape@,
        s1.weight.shape@ == s2.weight.shape@,
        s1.output.shape@ == s2.output.shape@,
        s1.output.strides@ == s2.output.strides@,
        s1.taps_exactly(&sc, id, taps1),
        s2.taps_exactly(&sc, id, taps2),
    ensures
        taps1.len() == taps2.len(),
        forall|j: int| 0 <= j < taps1.len() ==> same_position(#[trigger] taps1[j], taps2[j]),
{
    assert forall|j: int| 0 <= j < taps1.len() implies has_tap(
        taps2,
        (#[trigger] taps1[j]).in_channel as int,
        taps1[j].in_row as int,
        taps1[j].in_col as int,
        taps1[j].kernel_row as int,
        taps1[j].kernel_col as int,
    ) by {
        let t = taps1[j];
        assert(s1.tap_at(&sc, id, t));
        assert(s2.contributes_in_window(&sc, id, t.in_channel as int, t.in_row as int, t.in_col as int,
            t.kernel_row as int, t.kernel_col as int));
    }
    assert forall|j: int| 0 <= j < taps2.len() implies has_tap(
        taps1,
        (#[trigger] taps2[j]).in_channel as int,
        taps2[j].in_row as int,
        taps2[j].in_col as int,
        taps2[j].kernel_row as int,
        taps2[j].kernel_col as int,
    ) by {
        let t = taps2[j];
        assert(s2.tap_at(&sc, id, t));
        assert(s1.contributes_in_window(&sc, id, t.in_channel as int, t.in_row as int, t.in_col as int,
            t.kernel_row as int, t.kernel_col as int));
    }
    lemma_sorted_same_positions(taps1, taps2);
}

/// The output position input position `i` reaches through kernel position `k`,
/// counted in the padded output.
pub open spec fn reached_position(i: int, k: int, stride: int, dilation: int) -> int {
    i * stride + k * dilation
}

/// The output axis of a transposed convolution spans exactly the positions
/// its taps reach: every input position and kernel position land at most at
/// the axis's last position (counted in the padded output, before the extra
/// `padding_out`), and the last input position through the last kernel
/// position lands exactly there.
pub proof fn lemma_output_length_spans_taps(
    size_in: int,
    kernel: int,
    stride: int,
    padding: int,
    padding_out: int,
    dilation: int,
)
    requires
        size_in >= 1,
        kernel >= 1,
        stride >= 0,
        dilation >= 0,
    ensures
        forall|i: int, k: int|
            0 <= i < size_in && 0 <= k < kernel ==> #[trigger] reached_position(i, k, stride, dilation)
                <= transposed_len(size_in, kernel, stride, padding, padding_out, dilation) - 1 + 2
                * padding - padding_out,
        reached_position(size_in - 1, kernel - 1, stride, dilation) == transposed_len(
            size_in,
            kernel,
            stride,
            padding,
            padding_out,
            dilation,
        ) - 1 + 2 * padding - padding_out,
{
    assert forall|i: int, k: int|
        0 <= i < size_in && 0 <= k < kernel implies #[trigger] reached_position(i, k, stride, dilation)
        <= reached_position(size_in - 1, kernel - 1, stride, dilation) by {
        assert(i * stride <= (size_in - 1) * stride) by (nonlinear_arith)
            requires
                i <= size_in - 1,
                stride >= 0,
        ;
        assert(k * dilation <= (kernel - 1) * dilation) by (nonlinear_arith)
            requires
                k <= kernel - 1,
                dilation >= 0,
        ;
    }
    assert(dilation * (kernel - 1) == (kernel - 1) * dilation) by (nonlinear_arith);
}

} // verus!
