use vstd::prelude::*;

use crate::error::{fails_with, Error, ErrorView};

verus! {

/// Inline storage for up to six dimensions (or strides), spilling to the heap beyond that.
///
/// The small vector is held in a private field and is reached only through `from_slice` and
/// `as_slice` below.
#[derive(Debug, Hash)]
#[verifier::external_body]
pub struct SmallDims {
    items: smallvec::SmallVec<[usize; 6]>,
}

/// The values held by a [`SmallDims`], in order.
pub uninterp spec fn small_dims_items(d: SmallDims) -> Seq<usize>;

impl View for SmallDims {
    type V = Seq<usize>;

    open spec fn view(&self) -> Seq<usize> {
        small_dims_items(*self)
    }
}

impl Clone for SmallDims {
    /// Calls `SmallVec::clone`, which copies the elements in order.
    #[verifier::external_body]
    fn clone(&self) -> (r: SmallDims)
        ensures
            small_dims_items(r) == small_dims_items(*self),
    {
        SmallDims { items: self.items.clone() }
    }
}

impl SmallDims {
    /// Calls `SmallVec::from_slice`, which copies the slice's elements in order.
    #[verifier::external_body]
    pub(crate) fn from_slice(values: &[usize]) -> (r: SmallDims)
        ensures
            small_dims_items(r) == values@,
    {
        SmallDims { items: smallvec::SmallVec::from_slice(values) }
    }

    /// Calls `SmallVec::as_slice`, the slice of all stored elements in order.
    #[verifier::external_body]
    pub fn as_slice(&self) -> (r: &[usize])
        ensures
            r@ == small_dims_items(*self),
    {
        self.items.as_slice()
    }
}

/// The shape of a row-major tensor: one extent per dimension, outermost first.
#[derive(Debug, Clone, Hash)]
pub struct Shape {
    dims: SmallDims,
}

/// Strides of a tensor, in elements, one per dimension.
pub type Strides = SmallDims;

impl View for Shape {
    type V = Seq<usize>;

    closed spec fn view(&self) -> Seq<usize> {
        self.dims@
    }
}

/// The product of all extents, as an unbounded number.
pub open spec fn product(dims: Seq<usize>) -> nat
    decreases dims.len(),
{
    if dims.len() == 0 {
        1
    } else {
        product(dims.drop_last()) * (dims.last() as nat)
    }
}

/// Whether every running product of the extents (the product of each prefix) fits in `usize`;
/// the element count is computed left to right and fails at the first running product that
/// does not fit.
pub open spec fn prefix_products_fit(dims: Seq<usize>) -> bool {
    forall|k: int| 0 <= k <= dims.len() ==> #[trigger] product(dims.take(k)) <= usize::MAX
}

/// `a * b`, clamped to `usize::MAX`.
pub open spec fn saturating_mul(a: nat, b: nat) -> nat {
    if a * b > usize::MAX {
        usize::MAX as nat
    } else {
        a * b
    }
}

/// The row-major stride of dimension `i`: 1 for the innermost dimension, and the next inner
/// stride times the next inner extent otherwise, each product clamped to `usize::MAX`.
pub open spec fn contiguous_stride(dims: Seq<usize>, i: int) -> nat
    decreases dims.len() - i,
{
    if i + 1 >= dims.len() {
        1
    } else {
        saturating_mul(contiguous_stride(dims, i + 1), dims[i + 1] as nat)
    }
}

/// The reason given when a dimension index is past the rank.
pub open spec fn out_of_bounds_reason() -> Seq<char> {
    "dimension is out of bounds"@
}

/// The reason given when a scalar shape is asked for its last dimension.
pub open spec fn scalar_last_reason() -> Seq<char> {
    "scalar shape has no last dimension"@
}

impl Shape {
    /// Creates a shape with the given extents.
    pub fn new(dims: &[usize]) -> (r: Shape)
        ensures
            r@ == dims@,
    {
        Shape { dims: SmallDims::from_slice(dims) }
    }

    /// The rank-0 shape of a single value.
    pub fn scalar() -> (r: Shape)
        ensures
            r@ == Seq::<usize>::empty(),
    {
        let empty: Vec<usize> = Vec::new();
        Shape { dims: SmallDims::from_slice(empty.as_slice()) }
    }

    /// The extents, outermost first.
    pub fn dims(&self) -> (r: &[usize])
        ensures
            r@ == self@,
    {
        self.dims.as_slice()
    }

    /// The number of dimensions.
    pub fn rank(&self) -> (r: usize)
        ensures
            r == self@.len(),
    {
        self.dims().len()
    }

    /// A new shape with the same extents.
    pub fn duplicate(&self) -> (r: Shape)
        ensures
            r@ == self@,
    {
        Shape::new(self.dims())
    }

    /// The extent of dimension `dim`, or `InvalidDim` when `dim` is not below the rank.
    pub fn dim(&self, dim: usize) -> (r: Result<usize, Error>)
        ensures
            dim < self@.len() ==> r == Ok::<usize, Error>(self@[dim as int]),
            dim >= self@.len() ==> fails_with(r, ErrorView::InvalidDim {
                dim,
                reason: out_of_bounds_reason(),
            }),
    {
        let d = self.dims();
        if dim < d.len() {
            Ok(d[dim])
        } else {
            Err(Error::InvalidDim { dim, reason: "dimension is out of bounds" })
        }
    }

    /// The innermost extent, or `InvalidDim` (reported at dimension 0) for a scalar shape.
    pub fn last_dim(&self) -> (r: Result<usize, Error>)
        ensures
            self@.len() > 0 ==> r == Ok::<usize, Error>(self@.last()),
            self@.len() == 0 ==> fails_with(r, ErrorView::InvalidDim {
                dim: 0,
                reason: scalar_last_reason(),
            }),
    {
        let d = self.dims();
        if d.len() > 0 {
            Ok(d[d.len() - 1])
        } else {
            Err(Error::InvalidDim { dim: 0, reason: "scalar shape has no last dimension" })
        }
    }

    /// The number of elements: the product of the extents, computed left to right with
    /// overflow checks. Fails with `ElementCountOverflow` as soon as a running product
    /// leaves `usize`, even when a later zero extent would bring the total back to zero.
    pub fn elem_count(&self) -> (r: Result<usize, Error>)
        ensures
            prefix_products_fit(self@) ==> r == Ok::<usize, Error>(product(self@) as usize),
            !prefix_products_fit(self@) ==> fails_with(r, ErrorView::ElementCountOverflow(self@)),
            r matches Ok(n) ==> n as nat == product(self@) && prefix_products_fit(self@),
    {
        let d = self.dims();
        let n = d.len();
        let mut acc: usize = 1;
        let mut i: usize = 0;
        assert(d@.take(0) =~= Seq::<usize>::empty());
        while i < n
            invariant
                n == d@.len(),
                d@ == self@,
                i <= n,
                acc as nat == product(d@.take(i as int)),
                forall|k: int| 0 <= k <= i ==> #[trigger] product(d@.take(k)) <= usize::MAX,
            decreases n - i,
        {
            assert(d@.take(i + 1).drop_last() =~= d@.take(i as int));
            match acc.checked_mul(d[i]) {
                Some(next) => {
                    acc = next;
                    i = i + 1;
                },
                None => {
                    assert(!prefix_products_fit(self@)) by {
                        assert(product(d@.take(i + 1)) > usize::MAX);
                    }
                    return Err(Error::ElementCountOverflow(self.duplicate()));
                },
            }
        }
        assert(d@.take(n as int) =~= d@);
        Ok(acc)
    }

    /// Row-major strides for this shape: the innermost stride is 1 and each outer stride is
    /// the next inner stride times the next inner extent, saturating at `usize::MAX`.
    pub fn contiguous_strides(&self) -> (r: Strides)
        ensures
            r@.len() == self@.len(),
            forall|i: int| 0 <= i < self@.len() ==> r@[i] == contiguous_stride(self@, i),
    {
        let d = self.dims();
        let n = d.len();
        let mut out: Vec<usize> = Vec::new();
        let mut k: usize = 0;
        while k < n
            invariant
                k <= n,
                out@.len() == k,
            decreases n - k,
        {
            out.push(1);
            k = k + 1;
        }
        let mut stride: usize = 1;
        let mut i: usize = n;
        while i > 0
            invariant
                n == d@.len(),
                d@ == self@,
                i <= n,
                out@.len() == n,
                i > 0 ==> stride as nat == contiguous_stride(self@, i - 1),
                forall|j: int| i <= j < n ==> out@[j] == contiguous_stride(self@, j),
            decreases i,
        {
            i = i - 1;
            out.set(i, stride);
            if i > 0 {
                let next = match stride.checked_mul(d[i]) {
                    Some(v) => v,
                    None => usize::MAX,
                };
                stride = next;
            }
        }
        SmallDims::from_slice(out.as_slice())
    }

    /// `Ok` when the rank is `expected`, otherwise `RankMismatch` with this shape.
    pub fn require_rank(&self, expected: usize) -> (r: Result<(), Error>)
        ensures
            self@.len() == expected ==> r is Ok,
            self@.len() != expected ==> fails_with(r, ErrorView::RankMismatch {
                expected,
                actual: self@.len() as usize,
                shape: self@,
            }),
    {
        let actual = self.rank();
        if actual == expected {
            Ok(())
        } else {
            Err(Error::RankMismatch { expected, actual, shape: self.duplicate() })
        }
    }

    /// Whether two shapes have the same extents.
    pub fn same_dims(&self, other: &Shape) -> (r: bool)
        ensures
            r == (self@ == other@),
    {
        slices_equal(self.dims(), other.dims())
    }

    /// `Ok` when both shapes are equal, otherwise `ShapeMismatch` with this shape as expected.
    pub fn require_same(&self, other: &Shape) -> (r: Result<(), Error>)
        ensures
            self@ == other@ ==> r is Ok,
            self@ != other@ ==> fails_with(r, ErrorView::ShapeMismatch {
                expected: self@,
                actual: other@,
            }),
    {
        if self.same_dims(other) {
            Ok(())
        } else {
            Err(Error::ShapeMismatch { expected: self.duplicate(), actual: other.duplicate() })
        }
    }
}

impl PartialEq for Shape {
    fn eq(&self, other: &Shape) -> (r: bool) {
        self.same_dims(other)
    }
}

impl vstd::std_specs::cmp::PartialEqSpecImpl for Shape {
    open spec fn obeys_eq_spec() -> bool {
        true
    }

    open spec fn eq_spec(&self, other: &Shape) -> bool {
        self@ == other@
    }
}

impl Eq for Shape {
}

impl From<Vec<usize>> for Shape {
    /// The shape with the extents of `value`, as [`Shape::new`] makes it.
    fn from(value: Vec<usize>) -> (r: Shape)
        ensures
            r@ == value@,
    {
        Shape::new(value.as_slice())
    }
}

impl vstd::std_specs::convert::FromSpecImpl<Vec<usize>> for Shape {
    /// Two shapes with the same extents may differ in how their storage is laid out, so no
    /// single value is named here; `from` states the extents.
    open spec fn obeys_from_spec() -> bool {
        false
    }

    open spec fn from_spec(value: Vec<usize>) -> Shape {
        arbitrary()
    }
}

impl<const N: usize> From<[usize; N]> for Shape {
    /// The shape with the extents of `value`, as [`Shape::new`] makes it.
    fn from(value: [usize; N]) -> (r: Shape)
        ensures
            r@ == value@,
    {
        Shape::new(value.as_slice())
    }
}

impl<const N: usize> vstd::std_specs::convert::FromSpecImpl<[usize; N]> for Shape {
    open spec fn obeys_from_spec() -> bool {
        false
    }

    open spec fn from_spec(value: [usize; N]) -> Shape {
        arbitrary()
    }
}

impl From<&[usize]> for Shape {
    /// The shape with the extents of `value`, as [`Shape::new`] makes it.
    fn from(value: &[usize]) -> (r: Shape)
        ensures
            r@ == value@,
    {
        Shape::new(value)
    }
}

impl vstd::std_specs::convert::FromSpecImpl<&[usize]> for Shape {
    open spec fn obeys_from_spec() -> bool {
        false
    }

    open spec fn from_spec(value: &[usize]) -> Shape {
        arbitrary()
    }
}

/// Element-wise equality of two slices of `usize`.
pub fn slices_equal(a: &[usize], b: &[usize]) -> (r: bool)
    ensures
        r == (a@ == b@),
{
    if a.len() != b.len() {
        return false;
    }
    let n = a.len();
    let mut i: usize = 0;
    while i < n
        invariant
            n == a@.len(),
            n == b@.len(),
            i <= n,
            forall|j: int| 0 <= j < i ==> a@[j] == b@[j],
        decreases n - i,
    {
        if a[i] != b[i] {
            return false;
        }
        i = i + 1;
    }
    assert(a@ =~= b@);
    true
}

} // verus!
