//! Tensors on the device: a buffer, a shape and the strides of a layout.
use vstd::prelude::*;
use core::marker::PhantomData;
use crate::client::{BufferHandle, EagerHandle, HandleModel};

verus! {

/// Product of the dimensions from place `from` to the last.
pub open spec fn suffix_product(dims: Seq<usize>, from: int) -> nat
    decreases dims.len() - from,
{
    if from < 0 || from >= dims.len() {
        1
    } else {
        (dims[from] as nat) * suffix_product(dims, from + 1)
    }
}

/// Every suffix product of the dimensions fits in `usize`: the element
/// count and each row-major stride can be held.
pub open spec fn addressable(dims: Seq<usize>) -> bool {
    forall|i: int| 0 <= i <= dims.len() ==> #[trigger] suffix_product(dims, i) <= usize::MAX
}

/// The row-major strides of `dims`: the stride of a dimension is the
/// number of elements that the later dimensions span.
pub open spec fn row_major(dims: Seq<usize>) -> Seq<usize> {
    Seq::new(dims.len(), |i: int| suffix_product(dims, i + 1) as usize)
}

/// The logical shape of a tensor of `D` dimensions.
#[derive(Clone, Copy, Debug, PartialEq, Eq)]
pub struct Shape<const D: usize> {
    pub dims: [usize; D],
}

impl<const D: usize> Shape<D> {
    pub fn new(dims: [usize; D]) -> (shape: Self)
        ensures
            shape.dims == dims,
    {
        Shape { dims }
    }

    /// Number of elements of a tensor of this shape.
    pub open spec fn spec_num_elements(&self) -> nat {
        suffix_product(self.dims@, 0)
    }

    /// The element count and the row-major strides of this shape, where
    /// they can be held.
    pub fn layout(&self) -> (r: Option<(usize, [usize; D])>)
        ensures
            match r {
                Some((count, strides)) => addressable(self.dims@) && count == self.spec_num_elements()
                    && strides@ == row_major(self.dims@),
                None => !addressable(self.dims@),
            },
    {
        let mut strides = self.dims;
        let mut count: usize = 1;
        let mut i: usize = D;
        while i > 0
            invariant
                i <= D,
                self.dims@.len() == D,
                strides@.len() == D,
                count == suffix_product(self.dims@, i as int),
                forall|k: int|
                    i <= k <= D ==> #[trigger] suffix_product(self.dims@, k) <= usize::MAX,
                forall|k: int|
                    i <= k < D ==> #[trigger] strides@[k] == suffix_product(self.dims@, k + 1),
            decreases i,
        {
            i = i - 1;
            strides[i] = count;
            let dim: usize = self.dims[i];
            assert(suffix_product(self.dims@, i as int) == dim * count) by {
                assert(suffix_product(self.dims@, i as int) == (self.dims@[i as int] as nat)
                    * suffix_product(self.dims@, i + 1));
            }
            assert(count * dim == dim * count) by (nonlinear_arith);
            match count.checked_mul(dim) {
                Some(next) => {
                    count = next;
                },
                None => {
                    return None;
                },
            }
        }
        Some((count, strides))
    }
}

/// A tensor of elements of type `E` in a buffer on the device.
///
/// Its element count, its row-major strides and its size in bytes fit in
/// `usize`.
pub struct JitTensor<E, const D: usize> {
    handle: BufferHandle,
    shape: Shape<D>,
    strides: [usize; D],
    elem: PhantomData<E>,
}

impl<E, const D: usize> JitTensor<E, D> {
    /// What every tensor satisfies.
    #[verifier::type_invariant]
    pub closed spec fn wf(&self) -> bool {
        &&& addressable(self.shape.dims@)
        &&& self.shape.spec_num_elements() * vstd::layout::size_of::<E>() <= usize::MAX
    }

    /// A well-formed tensor can be addressed, and its bytes counted.
    pub proof fn lemma_well_formed(&self)
        requires
            self.wf(),
        ensures
            addressable(self.spec_shape().dims@),
            self.spec_shape().spec_num_elements() * vstd::layout::size_of::<E>() <= usize::MAX,
    {
    }

    pub closed spec fn spec_handle(&self) -> BufferHandle {
        self.handle
    }

    pub closed spec fn spec_shape(&self) -> Shape<D> {
        self.shape
    }

    pub closed spec fn spec_strides(&self) -> [usize; D] {
        self.strides
    }

    /// The buffer that holds the elements.
    #[verifier::when_used_as_spec(spec_handle)]
    pub fn handle(&self) -> (h: BufferHandle)
        ensures
            h == self.spec_handle(),
    {
        self.handle
    }

    /// The logical shape.
    pub fn shape(&self) -> (s: &Shape<D>)
        ensures
            *s == self.spec_shape(),
    {
        &self.shape
    }

    /// The stride of each dimension, in elements.
    pub fn strides(&self) -> (s: &[usize; D])
        ensures
            *s == self.spec_strides(),
    {
        &self.strides
    }

    /// Whether a tensor of this shape and element type can exist.
    pub open spec fn representable(shape: Shape<D>) -> bool {
        &&& addressable(shape.dims@)
        &&& shape.spec_num_elements() * vstd::layout::size_of::<E>() <= usize::MAX
    }

    /// The tensor of `shape` that lies in `handle` with the given strides.
    pub fn with_strides(
        handle: BufferHandle,
        shape: Shape<D>,
        strides: [usize; D],
    ) -> (r: Option<Self>)
        ensures
            match r {
                Some(tensor) => Self::representable(shape) && tensor.spec_handle() == handle
                    && tensor.spec_shape() == shape && tensor.spec_strides() == strides && tensor.wf(),
                None => !Self::representable(shape),
            },
    {
        match shape.layout() {
            Some((count, _)) => match count.checked_mul(core::mem::size_of::<E>()) {
                Some(_) => Some(JitTensor { handle, shape, strides, elem: PhantomData }),
                None => None,
            },
            None => None,
        }
    }

    /// The tensor of `shape` that lies row-major in `handle`.
    pub fn new(handle: BufferHandle, shape: Shape<D>) -> (r: Option<Self>)
        ensures
            match r {
                Some(tensor) => Self::representable(shape) && tensor.spec_handle() == handle
                    && tensor.spec_shape() == shape && tensor.spec_strides()@ == row_major(shape.dims@)
                    && tensor.wf(),
                None => !Self::representable(shape),
            },
    {
        match shape.layout() {
            Some((count, strides)) => match count.checked_mul(core::mem::size_of::<E>()) {
                Some(_) => Some(JitTensor { handle, shape, strides, elem: PhantomData }),
                None => None,
            },
            None => None,
        }
    }

    /// The tensor as a launch sees it: its buffer, strides and shape as
    /// they are.
    pub open spec fn spec_as_handle(&self) -> HandleModel {
        HandleModel {
            handle: self.spec_handle(),
            strides: self.spec_strides()@,
            shape: self.spec_shape().dims@,
        }
    }

    /// What a launch sees of a row-major tensor of the same shape in
    /// `handle`.
    pub open spec fn spec_like(&self, handle: BufferHandle) -> HandleModel {
        HandleModel {
            handle,
            strides: row_major(self.spec_shape().dims@),
            shape: self.spec_shape().dims@,
        }
    }

    /// The tensor as a launch sees it.
    pub fn as_handle(&self) -> (h: EagerHandle<'_>)
        ensures
            h@ == self.spec_as_handle(),
    {
        EagerHandle::new(&self.handle, self.strides.as_slice(), self.shape.dims.as_slice())
    }

    /// Number of elements.
    pub fn num_elements(&self) -> (n: usize)
        ensures
            n == self.spec_shape().spec_num_elements(),
    {
        proof {
            use_type_invariant(self);
        }
        match self.shape.layout() {
            Some((count, _)) => count,
            None => vstd::pervasive::unreached(),
        }
    }

    /// Size of the elements in bytes: the element count times the size of
    /// one element.
    pub fn size_bytes(&self) -> (n: usize)
        ensures
            n == self.spec_shape().spec_num_elements() * vstd::layout::size_of::<E>(),
    {
        proof {
            use_type_invariant(self);
        }
        let count: usize = self.num_elements();
        count * core::mem::size_of::<E>()
    }

    /// A tensor of the same shape that lies row-major in `handle`.
    pub fn like(&self, handle: BufferHandle) -> (tensor: Self)
        ensures
            tensor.spec_shape() == self.spec_shape(),
            tensor.spec_as_handle() == self.spec_like(handle),
            tensor.wf(),
    {
        proof {
            use_type_invariant(self);
        }
        match self.shape.layout() {
            Some((_, strides)) => JitTensor { handle, shape: self.shape, strides, elem: PhantomData },
            None => vstd::pervasive::unreached(),
        }
    }
}

} // verus!
