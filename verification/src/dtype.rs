use vstd::prelude::*;

verus! {

/// Element type of a device tensor.
#[derive(Clone, Copy, Debug, PartialEq, Eq, Structural, Hash)]
pub enum DType {
    F16,
    F32,
}

} // verus!
