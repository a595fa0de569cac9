use vstd::prelude::*;

verus! {

/// One parameter of a CUDA kernel signature, mapped to a Rust type.
#[derive(Debug)]
pub struct Param {
    pub name: String,
    pub rust_ty: String,
    pub is_ptr: bool,
    pub is_const: bool,
    pub base_ty: String,
}

/// A kernel (or native function) name with its parameters.
#[derive(Debug)]
pub struct Kernel {
    pub name: String,
    pub params: Vec<Param>,
}

/// The kernels of one `.cu` file, with the module stem and PTX file they load from.
#[derive(Debug)]
pub struct KernelFile {
    pub stem: String,
    pub ptx_name: String,
    pub kernels: Vec<Kernel>,
}

/// The host-callable native functions of one `.cu` file.
#[derive(Debug)]
pub struct NativeFile {
    pub functions: Vec<Kernel>,
}

/// A [`Param`] with its texts taken as characters.
pub struct ParamView {
    pub name: Seq<char>,
    pub rust_ty: Seq<char>,
    pub is_ptr: bool,
    pub is_const: bool,
    pub base_ty: Seq<char>,
}

/// A [`Kernel`] with its texts taken as characters.
pub struct KernelView {
    pub name: Seq<char>,
    pub params: Seq<ParamView>,
}

impl View for Param {
    type V = ParamView;

    open spec fn view(&self) -> ParamView {
        ParamView {
            name: self.name@,
            rust_ty: self.rust_ty@,
            is_ptr: self.is_ptr,
            is_const: self.is_const,
            base_ty: self.base_ty@,
        }
    }
}

/// The views of a sequence of parameters.
pub open spec fn params_view(ps: Seq<Param>) -> Seq<ParamView> {
    ps.map_values(|p: Param| p@)
}

impl View for Kernel {
    type V = KernelView;

    open spec fn view(&self) -> KernelView {
        KernelView { name: self.name@, params: params_view(self.params@) }
    }
}

/// The views of a sequence of kernels.
pub open spec fn kernels_view(ks: Seq<Kernel>) -> Seq<KernelView> {
    ks.map_values(|k: Kernel| k@)
}

} // verus!
