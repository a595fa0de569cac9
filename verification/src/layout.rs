use vstd::prelude::*;

use crate::dtype::DType;
use crate::error::{first_of, outcome, Error, ErrorView};
use crate::shape::{
    contiguous_stride, prefix_products_fit, product, slices_equal, Shape, SmallDims, Strides,
};

verus! {

/// The largest element count, and the largest extent, that the CUDA kernels take (their
/// sizes are `i32`).
pub open spec fn kernel_max() -> usize {
    0x7fff_ffff
}

/// The row-major strides of a shape, as a sequence.
pub open spec fn contiguous_strides_of(dims: Seq<usize>) -> Seq<usize> {
    Seq::new(dims.len(), |i: int| contiguous_stride(dims, i) as usize)
}

/// What describes a device tensor for shape checking: its element type, its shape and strides,
/// the number of elements its storage holds, and the ordinal of its device.
#[derive(Debug)]
pub struct TensorLayout {
    shape: Shape,
    strides: Strides,
    len: usize,
    device_ordinal: usize,
    dtype: DType,
}

/// A [`TensorLayout`] with its shape and strides taken as sequences.
pub struct LayoutView {
    pub shape: Seq<usize>,
    pub strides: Seq<usize>,
    pub len: usize,
    pub device_ordinal: usize,
    pub dtype: DType,
}

impl View for TensorLayout {
    type V = LayoutView;

    closed spec fn view(&self) -> LayoutView {
        LayoutView {
            shape: self.shape@,
            strides: self.strides@,
            len: self.len,
            device_ordinal: self.device_ordinal,
            dtype: self.dtype,
        }
    }
}

/// A layout as tensors are made: row-major strides, and as many elements as its shape counts.
pub open spec fn layout_wf(t: LayoutView) -> bool {
    &&& t.strides == contiguous_strides_of(t.shape)
    &&& prefix_products_fit(t.shape)
    &&& t.len == product(t.shape)
}

/// The same tensor viewed under another shape with row-major strides.
pub open spec fn reshaped(t: LayoutView, dims: Seq<usize>) -> LayoutView {
    LayoutView { shape: dims, strides: contiguous_strides_of(dims), ..t }
}

// ---------------------------------------------------------------------------------------------
// The checks, each `None` when it passes.
// ---------------------------------------------------------------------------------------------

/// Both tensors on the same device.
pub open spec fn device_check(expected: usize, actual: usize) -> Option<ErrorView> {
    if expected == actual {
        None
    } else {
        Some(ErrorView::DeviceMismatch { expected, actual })
    }
}

/// Equal shapes.
pub open spec fn shape_check(expected: Seq<usize>, actual: Seq<usize>) -> Option<ErrorView> {
    if expected == actual {
        None
    } else {
        Some(ErrorView::ShapeMismatch { expected, actual })
    }
}

/// Row-major strides.
pub open spec fn contiguity_check(t: LayoutView) -> Option<ErrorView> {
    if t.strides == contiguous_strides_of(t.shape) {
        None
    } else {
        Some(ErrorView::NonContiguous)
    }
}

/// An element count the kernels can take.
pub open spec fn kernel_len_check(len: usize) -> Option<ErrorView> {
    if len <= kernel_max() {
        None
    } else {
        Some(ErrorView::KernelElementLimit { actual: len, max: kernel_max() })
    }
}

/// A size that fits a kernel's `i32` argument.
pub open spec fn i32_check(value: usize, name: Seq<char>) -> Option<ErrorView> {
    if value <= kernel_max() {
        None
    } else {
        Some(ErrorView::InvalidDim { dim: value, reason: name })
    }
}

/// A rank as required.
pub open spec fn rank_check(dims: Seq<usize>, expected: usize) -> Option<ErrorView> {
    if dims.len() == expected {
        None
    } else {
        Some(ErrorView::RankMismatch { expected, actual: dims.len() as usize, shape: dims })
    }
}

/// A shape that has a last dimension.
pub open spec fn last_dim_check(dims: Seq<usize>) -> Option<ErrorView> {
    if dims.len() > 0 {
        None
    } else {
        Some(ErrorView::InvalidDim { dim: 0, reason: crate::shape::scalar_last_reason() })
    }
}

/// An element count as required by a width.
pub open spec fn width_check(t: LayoutView, width: usize) -> Option<ErrorView> {
    if t.len == width {
        None
    } else {
        Some(ErrorView::ElementCountMismatch { shape: t.shape, expected: width, actual: t.len })
    }
}

/// The checks of two operands of an element-wise operation: same shape, same device, both
/// row-major.
pub open spec fn compatible_check(a: LayoutView, b: LayoutView) -> Option<ErrorView> {
    first_of(
        shape_check(a.shape, b.shape),
        first_of(
            device_check(a.device_ordinal, b.device_ordinal),
            first_of(contiguity_check(a), contiguity_check(b)),
        ),
    )
}

/// The checks of an input and its output tensor: same device, same shape, both row-major, and
/// an element count the kernels take.
pub open spec fn output_check(a: LayoutView, out: LayoutView) -> Option<ErrorView> {
    first_of(
        device_check(a.device_ordinal, out.device_ordinal),
        first_of(
            shape_check(a.shape, out.shape),
            first_of(
                contiguity_check(a),
                first_of(contiguity_check(out), kernel_len_check(a.len)),
            ),
        ),
    )
}

/// The reason given for a normalization width that does not fit a kernel argument.
pub open spec fn norm_width_name() -> Seq<char> {
    "normalization width"@
}

/// The checks of RMS normalization of `a` by `weight` into `out`.
pub open spec fn rms_norm_check(a: LayoutView, weight: LayoutView, out: LayoutView) -> Option<
    ErrorView,
> {
    first_of(
        device_check(a.device_ordinal, weight.device_ordinal),
        first_of(
            output_check(a, out),
            first_of(
                contiguity_check(weight),
                first_of(
                    last_dim_check(a.shape),
                    first_of(
                        width_check(weight, a.shape.last()),
                        i32_check(a.shape.last(), norm_width_name()),
                    ),
                ),
            ),
        ),
    )
}

/// The checks of layer normalization of `a` by `weight` and `bias` into `out`.
pub open spec fn layer_norm_check(
    a: LayoutView,
    weight: LayoutView,
    bias: LayoutView,
    out: LayoutView,
) -> Option<ErrorView> {
    first_of(
        device_check(a.device_ordinal, weight.device_ordinal),
        first_of(
            device_check(a.device_ordinal, bias.device_ordinal),
            first_of(
                output_check(a, out),
                first_of(
                    contiguity_check(weight),
                    first_of(
                        contiguity_check(bias),
                        first_of(
                            shape_check(weight.shape, bias.shape),
                            first_of(
                                last_dim_check(a.shape),
                                first_of(
                                    width_check(weight, a.shape.last()),
                                    i32_check(a.shape.last(), norm_width_name()),
                                ),
                            ),
                        ),
                    ),
                ),
            ),
        ),
    )
}

/// The checks of a row softmax of `a` into `out`.
pub open spec fn softmax_check(a: LayoutView, out: LayoutView) -> Option<ErrorView> {
    first_of(
        output_check(a, out),
        first_of(last_dim_check(a.shape), i32_check(a.shape.last(), "softmax width"@)),
    )
}

/// The checks of a causal mask over the last two dimensions of `a` into `out`.
pub open spec fn causal_mask_check(a: LayoutView, out: LayoutView) -> Option<ErrorView> {
    let r = a.shape.len();
    first_of(
        output_check(a, out),
        if r < 2 {
            Some(ErrorView::RankMismatch { expected: 2, actual: r as usize, shape: a.shape })
        } else {
            first_of(
                i32_check(a.shape[r - 2], "query length"@),
                i32_check(a.shape[r - 1], "key length"@),
            )
        },
    )
}

/// The checks of rotary embedding of `a` over heads of `head_dim` elements.
pub open spec fn rope_check(a: LayoutView, seq_len: usize, head_dim: usize) -> Option<ErrorView> {
    first_of(
        contiguity_check(a),
        first_of(
            if a.len % head_dim != 0 {
                Some(
                    ErrorView::InvalidDim {
                        dim: head_dim,
                        reason: "head_dim must divide tensor length"@,
                    },
                )
            } else {
                None
            },
            first_of(
                if head_dim % 2 != 0 {
                    Some(
                        ErrorView::InvalidDim {
                            dim: head_dim,
                            reason: "head_dim must be even for rotary pairs"@,
                        },
                    )
                } else {
                    None
                },
                first_of(
                    i32_check(seq_len, "sequence length"@),
                    first_of(i32_check(head_dim, "head dimension"@), kernel_len_check(a.len)),
                ),
            ),
        ),
    )
}

/// The dimensions `(rows, cols, inner)` of `a` times `b` (or times `b` transposed when
/// `rhs_t`), when both are matrices.
pub open spec fn matmul_dims_of(a: Seq<usize>, b: Seq<usize>, rhs_t: bool) -> (usize, usize, usize) {
    (a[0], if rhs_t { b[0] } else { b[1] }, a[1])
}

/// The shape `[rows, cols]` of a matrix product.
pub open spec fn matmul_out_shape(a: Seq<usize>, b: Seq<usize>, rhs_t: bool) -> Seq<usize> {
    let (rows, cols, _) = matmul_dims_of(a, b, rhs_t);
    seq![rows, cols]
}

/// The checks of allocating a zero-filled tensor of a shape.
pub open spec fn alloc_check(dims: Seq<usize>) -> Option<ErrorView> {
    if !prefix_products_fit(dims) {
        Some(ErrorView::ElementCountOverflow(dims))
    } else {
        kernel_len_check(product(dims) as usize)
    }
}

/// The checks of the dimensions of a matrix product.
pub open spec fn matmul_dims_check(a: Seq<usize>, b: Seq<usize>, rhs_t: bool) -> Option<ErrorView> {
    let rhs_inner = if rhs_t { b[1] } else { b[0] };
    first_of(
        rank_check(a, 2),
        first_of(
            rank_check(b, 2),
            if a[1] != rhs_inner {
                Some(ErrorView::ShapeMismatch { expected: seq![a[1]], actual: seq![rhs_inner] })
            } else {
                None
            },
        ),
    )
}

/// The checks of a matrix product of `a` and `b` written to `out`.
pub open spec fn matmul_into_check(a: LayoutView, b: LayoutView, rhs_t: bool, out: LayoutView) -> Option<
    ErrorView,
> {
    let (rows, cols, inner) = matmul_dims_of(a.shape, b.shape, rhs_t);
    first_of(
        device_check(a.device_ordinal, b.device_ordinal),
        first_of(
            contiguity_check(a),
            first_of(
                contiguity_check(b),
                first_of(
                    contiguity_check(out),
                    first_of(
                        device_check(a.device_ordinal, out.device_ordinal),
                        first_of(
                            matmul_dims_check(a.shape, b.shape, rhs_t),
                            first_of(
                                shape_check(out.shape, seq![rows, cols]),
                                first_of(
                                    i32_check(rows, "matmul rows"@),
                                    first_of(
                                        i32_check(cols, "matmul cols"@),
                                        i32_check(inner, "matmul inner"@),
                                    ),
                                ),
                            ),
                        ),
                    ),
                ),
            ),
        ),
    )
}

// ---------------------------------------------------------------------------------------------
// Executable checks.
// ---------------------------------------------------------------------------------------------

/// `value` as a kernel's `i32` argument, or `InvalidDim` naming the size.
pub fn checked_i32(value: usize, name: &'static str) -> (r: Result<i32, Error>)
    ensures
        outcome(r) == i32_check(value, name@),
        r matches Ok(v) ==> v as int == value as int,
{
    if value <= 0x7fff_ffff {
        Ok(value as i32)
    } else {
        Err(Error::InvalidDim { dim: value, reason: name })
    }
}

/// `Ok` when the kernels can take `len` elements, otherwise `KernelElementLimit`.
pub fn check_kernel_len(len: usize) -> (r: Result<(), Error>)
    ensures
        outcome(r) == kernel_len_check(len),
{
    if len <= 0x7fff_ffff {
        Ok(())
    } else {
        Err(Error::KernelElementLimit { actual: len, max: 0x7fff_ffff })
    }
}

impl TensorLayout {
    #[verifier::type_invariant]
    closed spec fn inv(self) -> bool {
        layout_wf(self@)
    }

    fn from_shape(shape: Shape, len: usize, device_ordinal: usize, dtype: DType) -> (r: TensorLayout)
        requires
            prefix_products_fit(shape@),
            len == product(shape@),
        ensures
            r@ == (LayoutView {
                shape: shape@,
                strides: contiguous_strides_of(shape@),
                len,
                device_ordinal,
                dtype,
            }),
    {
        let strides = shape.contiguous_strides();
        assert(strides@ =~= contiguous_strides_of(shape@));
        TensorLayout { shape, strides, len, device_ordinal, dtype }
    }

    /// The layout of a tensor uploaded from `data_len` host values: the shape must count exactly
    /// that many elements (`ElementCountOverflow` when its count does not fit, otherwise
    /// `ElementCountMismatch`).
    pub fn for_data(shape: Shape, dtype: DType, device_ordinal: usize, data_len: usize) -> (r: Result<
        TensorLayout,
        Error,
    >)
        ensures
            !prefix_products_fit(shape@) ==> outcome(r) == Some(
                ErrorView::ElementCountOverflow(shape@),
            ),
            prefix_products_fit(shape@) && product(shape@) != data_len ==> outcome(r) == Some(
                ErrorView::ElementCountMismatch {
                    shape: shape@,
                    expected: product(shape@) as usize,
                    actual: data_len,
                },
            ),
            prefix_products_fit(shape@) && product(shape@) == data_len ==> r is Ok,
            r matches Ok(t) ==> t@ == (LayoutView {
                shape: shape@,
                strides: contiguous_strides_of(shape@),
                len: data_len,
                device_ordinal,
                dtype,
            }),
    {
        let expected = match shape.elem_count() {
            Ok(n) => n,
            Err(e) => return Err(e),
        };
        if expected != data_len {
            return Err(Error::ElementCountMismatch { shape, expected, actual: data_len });
        }
        Ok(TensorLayout::from_shape(shape, expected, device_ordinal, dtype))
    }

    /// The layout of a zero-filled tensor: its element count must fit and be one the kernels take.
    pub fn zeroed(shape: Shape, dtype: DType, device_ordinal: usize) -> (r: Result<TensorLayout, Error>)
        ensures
            outcome(r) == (if !prefix_products_fit(shape@) {
                Some(ErrorView::ElementCountOverflow(shape@))
            } else {
                kernel_len_check(product(shape@) as usize)
            }),
            r matches Ok(t) ==> t@ == (LayoutView {
                shape: shape@,
                strides: contiguous_strides_of(shape@),
                len: product(shape@) as usize,
                device_ordinal,
                dtype,
            }),
    {
        let len = match shape.elem_count() {
            Ok(n) => n,
            Err(e) => return Err(e),
        };
        match check_kernel_len(len) {
            Ok(()) => {},
            Err(e) => return Err(e),
        }
        Ok(TensorLayout::from_shape(shape, len, device_ordinal, dtype))
    }

    /// The element type.
    pub fn dtype(&self) -> (r: DType)
        ensures
            r == self@.dtype,
    {
        self.dtype
    }

    /// The shape.
    pub fn shape(&self) -> (r: &Shape)
        ensures
            r@ == self@.shape,
    {
        &self.shape
    }

    /// The strides, in elements.
    pub fn strides(&self) -> (r: &[usize])
        ensures
            r@ == self@.strides,
    {
        self.strides.as_slice()
    }

    /// The number of elements held.
    pub fn len(&self) -> (r: usize)
        ensures
            r == self@.len,
    {
        self.len
    }

    /// Whether no element is held.
    pub fn is_empty(&self) -> (r: bool)
        ensures
            r == (self@.len == 0),
    {
        self.len == 0
    }

    /// The ordinal of the device that holds the tensor.
    pub fn device_ordinal(&self) -> (r: usize)
        ensures
            r == self@.device_ordinal,
    {
        self.device_ordinal
    }

    /// Whether the strides are the row-major strides of the shape.
    pub fn is_contiguous(&self) -> (r: bool)
        ensures
            r == (self@.strides == contiguous_strides_of(self@.shape)),
    {
        let c = self.shape.contiguous_strides();
        assert(c@ =~= contiguous_strides_of(self@.shape));
        slices_equal(self.strides.as_slice(), c.as_slice())
    }

    /// The same storage under another shape, which must count the same number of elements;
    /// the strides become the row-major strides of the new shape.
    pub fn reshape(self, shape: Shape) -> (r: Result<TensorLayout, Error>)
        ensures
            !prefix_products_fit(shape@) ==> outcome(r) == Some(
                ErrorView::ElementCountOverflow(shape@),
            ),
            prefix_products_fit(shape@) && product(shape@) != self@.len ==> outcome(r) == Some(
                ErrorView::ElementCountMismatch {
                    shape: shape@,
                    expected: product(shape@) as usize,
                    actual: self@.len,
                },
            ),
            prefix_products_fit(shape@) && product(shape@) == self@.len ==> r is Ok,
            r matches Ok(t) ==> t@ == reshaped(self@, shape@),
    {
        let expected = match shape.elem_count() {
            Ok(n) => n,
            Err(e) => return Err(e),
        };
        if expected != self.len {
            return Err(Error::ElementCountMismatch { shape, expected, actual: self.len });
        }
        Ok(TensorLayout::from_shape(shape, self.len, self.device_ordinal, self.dtype))
    }

    /// `Ok` when `data_len` host values fill this tensor, otherwise `ElementCountMismatch`.
    pub fn check_data_len(&self, data_len: usize) -> (r: Result<(), Error>)
        ensures
            outcome(r) == (if self@.len == data_len {
                None
            } else {
                Some(
                    ErrorView::ElementCountMismatch {
                        shape: self@.shape,
                        expected: self@.len,
                        actual: data_len,
                    },
                )
            }),
    {
        if self.len != data_len {
            return Err(
                Error::ElementCountMismatch {
                    shape: self.shape.duplicate(),
                    expected: self.len,
                    actual: data_len,
                },
            );
        }
        Ok(())
    }

    /// `Ok` when both tensors have the same shape, otherwise `ShapeMismatch`.
    pub fn same_shape(&self, other: &TensorLayout) -> (r: Result<(), Error>)
        ensures
            outcome(r) == shape_check(self@.shape, other@.shape),
    {
        self.shape.require_same(&other.shape)
    }

    /// `Ok` when both tensors are on the same device, otherwise `DeviceMismatch`.
    pub fn ensure_same_device(&self, other: &TensorLayout) -> (r: Result<(), Error>)
        ensures
            outcome(r) == device_check(self@.device_ordinal, other@.device_ordinal),
    {
        if self.device_ordinal == other.device_ordinal {
            Ok(())
        } else {
            Err(
                Error::DeviceMismatch {
                    expected: self.device_ordinal,
                    actual: other.device_ordinal,
                },
            )
        }
    }

    /// `Ok` when the tensor is row-major, otherwise `NonContiguous`.
    pub fn ensure_contiguous(&self) -> (r: Result<(), Error>)
        ensures
            outcome(r) == contiguity_check(self@),
    {
        if self.is_contiguous() {
            Ok(())
        } else {
            Err(Error::NonContiguous)
        }
    }

    /// The checks of two operands of an element-wise operation.
    pub fn ensure_compatible(&self, other: &TensorLayout) -> (r: Result<(), Error>)
        ensures
            outcome(r) == compatible_check(self@, other@),
    {
        match self.same_shape(other) {
            Ok(()) => {},
            Err(e) => return Err(e),
        }
        match self.ensure_same_device(other) {
            Ok(()) => {},
            Err(e) => return Err(e),
        }
        match self.ensure_contiguous() {
            Ok(()) => {},
            Err(e) => return Err(e),
        }
        other.ensure_contiguous()
    }

    /// The checks of an input and the tensor an operation writes to.
    pub fn ensure_output(&self, out: &TensorLayout) -> (r: Result<(), Error>)
        ensures
            outcome(r) == output_check(self@, out@),
    {
        match self.ensure_same_device(out) {
            Ok(()) => {},
            Err(e) => return Err(e),
        }
        match self.shape.require_same(&out.shape) {
            Ok(()) => {},
            Err(e) => return Err(e),
        }
        match self.ensure_contiguous() {
            Ok(()) => {},
            Err(e) => return Err(e),
        }
        match out.ensure_contiguous() {
            Ok(()) => {},
            Err(e) => return Err(e),
        }
        check_kernel_len(self.len)
    }

    /// The checks of an element-wise operation of two tensors that allocates its result: the
    /// operands must be compatible and the element count one the kernels take.
    pub fn check_binary(&self, rhs: &TensorLayout) -> (r: Result<(), Error>)
        ensures
            outcome(r) == first_of(compatible_check(self@, rhs@), kernel_len_check(self@.len)),
    {
        match self.ensure_compatible(rhs) {
            Ok(()) => {},
            Err(e) => return Err(e),
        }
        check_kernel_len(self.len)
    }

    /// The checks of an element-wise operation of two tensors that writes into `out`.
    pub fn check_binary_into(&self, rhs: &TensorLayout, out: &TensorLayout) -> (r: Result<
        (),
        Error,
    >)
        ensures
            outcome(r) == first_of(compatible_check(self@, rhs@), output_check(self@, out@)),
    {
        match self.ensure_compatible(rhs) {
            Ok(()) => {},
            Err(e) => return Err(e),
        }
        self.ensure_output(out)
    }

    /// The checks of an element-wise operation of one tensor that allocates its result (and of
    /// filling a tensor in place): row-major, with an element count the kernels take.
    pub fn check_unary(&self) -> (r: Result<(), Error>)
        ensures
            outcome(r) == first_of(contiguity_check(self@), kernel_len_check(self@.len)),
    {
        match self.ensure_contiguous() {
            Ok(()) => {},
            Err(e) => return Err(e),
        }
        check_kernel_len(self.len)
    }

    /// A zero-filled tensor like this one (same shape, type and device).
    pub fn empty_like(&self) -> (r: Result<TensorLayout, Error>)
        ensures
            outcome(r) == kernel_len_check(self@.len),
            r matches Ok(t) ==> t@ == self@,
    {
        proof {
            use_type_invariant(self);
        }
        let shape = self.shape.duplicate();
        let r = TensorLayout::zeroed(shape, self.dtype, self.device_ordinal);
        r
    }

    /// The kernel width argument of RMS normalization of this tensor by `weight` into `out`: the
    /// last dimension, which `weight` must match in element count.
    pub fn rms_norm_width(&self, weight: &TensorLayout, out: &TensorLayout) -> (r: Result<
        i32,
        Error,
    >)
        ensures
            outcome(r) == rms_norm_check(self@, weight@, out@),
            r matches Ok(w) ==> w as int == self@.shape.last(),
    {
        match self.ensure_same_device(weight) {
            Ok(()) => {},
            Err(e) => return Err(e),
        }
        match self.ensure_output(out) {
            Ok(()) => {},
            Err(e) => return Err(e),
        }
        match weight.ensure_contiguous() {
            Ok(()) => {},
            Err(e) => return Err(e),
        }
        self.norm_width(weight)
    }

    fn norm_width(&self, weight: &TensorLayout) -> (r: Result<i32, Error>)
        ensures
            outcome(r) == first_of(
                last_dim_check(self@.shape),
                first_of(
                    width_check(weight@, self@.shape.last()),
                    i32_check(self@.shape.last(), norm_width_name()),
                ),
            ),
            r matches Ok(w) ==> w as int == self@.shape.last(),
    {
        let width = match self.shape.last_dim() {
            Ok(w) => w,
            Err(e) => return Err(e),
        };
        if weight.len != width {
            return Err(
                Error::ElementCountMismatch {
                    shape: weight.shape.duplicate(),
                    expected: width,
                    actual: weight.len,
                },
            );
        }
        checked_i32(width, "normalization width")
    }

    /// The kernel width argument of layer normalization of this tensor by `weight` and `bias`
    /// into `out`: the last dimension, which `weight` (shaped as `bias`) must match.
    pub fn layer_norm_width(
        &self,
        weight: &TensorLayout,
        bias: &TensorLayout,
        out: &TensorLayout,
    ) -> (r: Result<i32, Error>)
        ensures
            outcome(r) == layer_norm_check(self@, weight@, bias@, out@),
            r matches Ok(w) ==> w as int == self@.shape.last(),
    {
        match self.ensure_same_device(weight) {
            Ok(()) => {},
            Err(e) => return Err(e),
        }
        match self.ensure_same_device(bias) {
            Ok(()) => {},
            Err(e) => return Err(e),
        }
        match self.ensure_output(out) {
            Ok(()) => {},
            Err(e) => return Err(e),
        }
        match weight.ensure_contiguous() {
            Ok(()) => {},
            Err(e) => return Err(e),
        }
        match bias.ensure_contiguous() {
            Ok(()) => {},
            Err(e) => return Err(e),
        }
        match weight.same_shape(bias) {
            Ok(()) => {},
            Err(e) => return Err(e),
        }
        self.norm_width(weight)
    }

    /// The kernel width argument of a softmax over the last dimension into `out`.
    pub fn softmax_width(&self, out: &TensorLayout) -> (r: Result<i32, Error>)
        ensures
            outcome(r) == softmax_check(self@, out@),
            r matches Ok(w) ==> w as int == self@.shape.last(),
    {
        match self.ensure_output(out) {
            Ok(()) => {},
            Err(e) => return Err(e),
        }
        let width = match self.shape.last_dim() {
            Ok(w) => w,
            Err(e) => return Err(e),
        };
        checked_i32(width, "softmax width")
    }

    /// The kernel arguments `(query_len, key_len)` of a causal mask into `out`: the last two
    /// dimensions.
    pub fn causal_mask_lens(&self, out: &TensorLayout) -> (r: Result<(i32, i32), Error>)
        ensures
            outcome(r) == causal_mask_check(self@, out@),
            r matches Ok((q, k)) ==> q as int == self@.shape[self@.shape.len() - 2] && k as int
                == self@.shape[self@.shape.len() - 1],
    {
        match self.ensure_output(out) {
            Ok(()) => {},
            Err(e) => return Err(e),
        }
        let rank = self.shape.rank();
        if rank < 2 {
            return Err(Error::RankMismatch { expected: 2, actual: rank, shape: self.shape.duplicate() });
        }
        let dims = self.shape.dims();
        let q = match checked_i32(dims[rank - 2], "query length") {
            Ok(v) => v,
            Err(e) => return Err(e),
        };
        let k = match checked_i32(dims[rank - 1], "key length") {
            Ok(v) => v,
            Err(e) => return Err(e),
        };
        Ok((q, k))
    }

    /// The kernel arguments `(seq_len, head_dim)` of rotary embedding over heads of `head_dim`
    /// elements, which must be even and divide the element count.
    pub fn rope_args(&self, seq_len: usize, head_dim: usize) -> (r: Result<(i32, i32), Error>)
        requires
            head_dim > 0,
        ensures
            outcome(r) == rope_check(self@, seq_len, head_dim),
            r matches Ok((s, h)) ==> s as int == seq_len && h as int == head_dim,
    {
        match self.ensure_contiguous() {
            Ok(()) => {},
            Err(e) => return Err(e),
        }
        if self.len % head_dim != 0 {
            return Err(Error::InvalidDim { dim: head_dim, reason: "head_dim must divide tensor length" });
        }
        if head_dim % 2 != 0 {
            return Err(Error::InvalidDim { dim: head_dim, reason: "head_dim must be even for rotary pairs" });
        }
        let s = match checked_i32(seq_len, "sequence length") {
            Ok(v) => v,
            Err(e) => return Err(e),
        };
        let h = match checked_i32(head_dim, "head dimension") {
            Ok(v) => v,
            Err(e) => return Err(e),
        };
        match check_kernel_len(self.len) {
            Ok(()) => {},
            Err(e) => return Err(e),
        }
        Ok((s, h))
    }

    /// The dimensions `(rows, cols, inner)` of this matrix times `rhs` (or times `rhs`
    /// transposed when `rhs_t`); the inner dimensions must agree.
    pub fn matmul_dims(&self, rhs: &TensorLayout, rhs_t: bool) -> (r: Result<
        (usize, usize, usize),
        Error,
    >)
        ensures
            outcome(r) == matmul_dims_check(self@.shape, rhs@.shape, rhs_t),
            r matches Ok(d) ==> d == matmul_dims_of(self@.shape, rhs@.shape, rhs_t),
    {
        match self.shape.require_rank(2) {
            Ok(()) => {},
            Err(e) => return Err(e),
        }
        match rhs.shape.require_rank(2) {
            Ok(()) => {},
            Err(e) => return Err(e),
        }
        let a = self.shape.dims();
        let b = rhs.shape.dims();
        let rows = a[0];
        let inner = a[1];
        let rhs_inner = if rhs_t {
            b[1]
        } else {
            b[0]
        };
        if inner != rhs_inner {
            let e = [inner];
            let g = [rhs_inner];
            let expected = Shape::new(&e);
            let actual = Shape::new(&g);
            assert(e@ =~= seq![inner]);
            assert(g@ =~= seq![rhs_inner]);
            return Err(Error::ShapeMismatch { expected, actual });
        }
        let cols = if rhs_t {
            b[0]
        } else {
            b[1]
        };
        Ok((rows, cols, inner))
    }

    /// The layout of the zero-filled `rows x cols` result of this matrix times `rhs` (or times
    /// `rhs` transposed).
    pub fn matmul_output(&self, rhs: &TensorLayout, rhs_t: bool) -> (r: Result<TensorLayout, Error>)
        ensures
            outcome(r) == first_of(
                matmul_dims_check(self@.shape, rhs@.shape, rhs_t),
                alloc_check(matmul_out_shape(self@.shape, rhs@.shape, rhs_t)),
            ),
            r matches Ok(t) ==> t@ == (LayoutView {
                shape: matmul_out_shape(self@.shape, rhs@.shape, rhs_t),
                strides: contiguous_strides_of(matmul_out_shape(self@.shape, rhs@.shape, rhs_t)),
                len: product(matmul_out_shape(self@.shape, rhs@.shape, rhs_t)) as usize,
                device_ordinal: self@.device_ordinal,
                dtype: self@.dtype,
            }),
    {
        let (rows, cols, _) = match self.matmul_dims(rhs, rhs_t) {
            Ok(d) => d,
            Err(e) => return Err(e),
        };
        let d = [rows, cols];
        let shape = Shape::new(&d);
        assert(d@ =~= seq![rows, cols]);
        TensorLayout::zeroed(shape, self.dtype, self.device_ordinal)
    }

    /// The kernel arguments `(rows, cols, inner)` of this matrix times `rhs` (or times `rhs`
    /// transposed) written into `out`, which must be `rows x cols`.
    pub fn matmul_args(&self, rhs: &TensorLayout, rhs_t: bool, out: &TensorLayout) -> (r: Result<
        (i32, i32, i32),
        Error,
    >)
        ensures
            outcome(r) == matmul_into_check(self@, rhs@, rhs_t, out@),
            r matches Ok((m, n, k)) ==> {
                let (rows, cols, inner) = matmul_dims_of(self@.shape, rhs@.shape, rhs_t);
                m as int == rows && n as int == cols && k as int == inner
            },
    {
        match self.ensure_same_device(rhs) {
            Ok(()) => {},
            Err(e) => return Err(e),
        }
        match self.ensure_contiguous() {
            Ok(()) => {},
            Err(e) => return Err(e),
        }
        match rhs.ensure_contiguous() {
            Ok(()) => {},
            Err(e) => return Err(e),
        }
        match out.ensure_contiguous() {
            Ok(()) => {},
            Err(e) => return Err(e),
        }
        match self.ensure_same_device(out) {
            Ok(()) => {},
            Err(e) => return Err(e),
        }
        let (rows, cols, inner) = match self.matmul_dims(rhs, rhs_t) {
            Ok(d) => d,
            Err(e) => return Err(e),
        };
        let d = [rows, cols];
        let expected = Shape::new(&d);
        assert(d@ =~= seq![rows, cols]);
        match out.shape.require_same(&expected) {
            Ok(()) => {},
            Err(e) => return Err(e),
        }
        let m = match checked_i32(rows, "matmul rows") {
            Ok(v) => v,
            Err(e) => return Err(e),
        };
        let n = match checked_i32(cols, "matmul cols") {
            Ok(v) => v,
            Err(e) => return Err(e),
        };
        let k = match checked_i32(inner, "matmul inner") {
            Ok(v) => v,
            Err(e) => return Err(e),
        };
        Ok((m, n, k))
    }
}

} // verus!
