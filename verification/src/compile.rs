use vstd::prelude::*;

use crate::config::{opt_string_view, strings_view, Config, ConfigView};
use crate::generator::GenError;
use crate::paths::{
    extension_of, file_name_of, file_stem_of, joined_path, path_extension, path_file_name,
    path_file_stem,
};
use crate::pipeline::{concat, output_path};
use crate::text::{chars_of, find_chars, find_from};

verus! {

/// Whether a directory entry is a CUDA source to compile: a file whose extension is `cu`.
pub fn is_cuda_source(path: &str, is_file: bool) -> (r: bool)
    ensures
        r == (is_file && extension_of(path@) == Some("cu"@)),
{
    if !is_file {
        return false;
    }
    match path_extension(path) {
        Some(ext) => crate::text::eq_str(chars_of(ext.as_str()).as_slice(), "cu"),
        None => false,
    }
}

/// Whether a CUDA source includes headers (holds `#include`); such sources are compiled with
/// `nvcc`, the others with NVRTC.
pub fn needs_nvcc(source: &str) -> (r: bool)
    ensures
        r == (find_from(source@, "#include"@, 0) is Some),
{
    let s = chars_of(source);
    let pat = chars_of("#include");
    find_chars(s.as_slice(), pat.as_slice(), 0).is_some()
}

/// The architecture flag NVRTC gets for a compute capability.
pub open spec fn nvrtc_arch_flags(cap: Option<Seq<char>>) -> Seq<Seq<char>> {
    match cap {
        Some(c) => seq!["--gpu-architecture=compute_"@ + c],
        None => Seq::empty(),
    }
}

/// The architecture flag `nvcc` gets for a compute capability.
pub open spec fn nvcc_arch_flags(cap: Option<Seq<char>>) -> Seq<Seq<char>> {
    match cap {
        Some(c) => seq!["-arch=sm_"@ + c],
        None => Seq::empty(),
    }
}

/// One `-I<path>` flag per include path.
pub open spec fn include_flags(paths: Seq<Seq<char>>) -> Seq<Seq<char>> {
    paths.map_values(|p: Seq<char>| "-I"@ + p)
}

/// Appends copies of the strings.
fn extend_strings(out: &mut Vec<String>, items: &[String])
    ensures
        strings_view(final(out)@) == strings_view(old(out)@) + strings_view(items@),
{
    let ghost start = strings_view(out@);
    let mut i: usize = 0;
    while i < items.len()
        invariant
            i <= items@.len(),
            strings_view(out@) == start + strings_view(items@).take(i as int),
        decreases items.len() - i,
    {
        let ghost prev = out@;
        out.push(String::from_str(items[i].as_str()));
        assert(strings_view(out@) =~= strings_view(prev).push(items@[i as int]@));
        assert(strings_view(items@).take(i + 1) =~= strings_view(items@).take(i as int).push(
            items@[i as int]@,
        ));
        i = i + 1;
    }
    assert(strings_view(items@).take(items@.len() as int) =~= strings_view(items@));
}

/// Appends one `-I<path>` flag per include path.
fn extend_include_flags(out: &mut Vec<String>, paths: &[String])
    ensures
        strings_view(final(out)@) == strings_view(old(out)@) + include_flags(
            strings_view(paths@),
        ),
{
    let ghost start = strings_view(out@);
    let mut i: usize = 0;
    while i < paths.len()
        invariant
            i <= paths@.len(),
            strings_view(out@) == start + include_flags(strings_view(paths@)).take(i as int),
        decreases paths.len() - i,
    {
        let ghost prev = out@;
        out.push(concat("-I", paths[i].as_str()));
        assert(strings_view(out@) =~= strings_view(prev).push("-I"@ + paths@[i as int]@));
        assert(include_flags(strings_view(paths@)).take(i + 1) =~= include_flags(
            strings_view(paths@),
        ).take(i as int).push("-I"@ + paths@[i as int]@));
        i = i + 1;
    }
    assert(include_flags(strings_view(paths@)).take(paths@.len() as int) =~= include_flags(
        strings_view(paths@),
    ));
}

/// Appends the `nvcc` architecture flag for the configured compute capability, if any.
fn push_nvcc_arch(out: &mut Vec<String>, config: &Config)
    ensures
        strings_view(final(out)@) == strings_view(old(out)@) + nvcc_arch_flags(
            config@.compute_capability,
        ),
{
    let ghost prev = out@;
    match config.compute_capability_ref() {
        Some(cap) => {
            out.push(concat("-arch=sm_", cap));
            assert(strings_view(out@) =~= strings_view(prev) + nvcc_arch_flags(
                config@.compute_capability,
            ));
        },
        None => {
            assert(strings_view(out@) =~= strings_view(prev) + nvcc_arch_flags(
                config@.compute_capability,
            ));
        },
    }
}

/// The options handed to NVRTC: the configured raw options, then the architecture flag for the
/// configured compute capability, if any.
pub fn nvrtc_options(config: &Config) -> (r: Vec<String>)
    ensures
        strings_view(r@) == config@.nvrtc_options + nvrtc_arch_flags(config@.compute_capability),
{
    let mut out: Vec<String> = Vec::new();
    extend_strings(&mut out, config.nvrtc_options());
    let ghost prev = out@;
    match config.compute_capability_ref() {
        Some(cap) => {
            out.push(concat("--gpu-architecture=compute_", cap));
            assert(strings_view(out@) =~= strings_view(prev) + nvrtc_arch_flags(
                config@.compute_capability,
            ));
        },
        None => {
            assert(strings_view(out@) =~= strings_view(prev) + nvrtc_arch_flags(
                config@.compute_capability,
            ));
        },
    }
    assert(Seq::<Seq<char>>::empty() + config@.nvrtc_options =~= config@.nvrtc_options);
    out
}

/// Text that holds no NUL character (C strings cannot carry one).
pub open spec fn nul_free(s: Seq<char>) -> bool {
    !s.contains('\0')
}

/// Every text of the list is NUL-free.
pub open spec fn all_nul_free(v: Seq<Seq<char>>) -> bool {
    forall|i: int| 0 <= i < v.len() ==> nul_free(#[trigger] v[i])
}

/// The settings that reach NVRTC as C strings are NUL-free: include paths, raw options and the
/// compute capability.
pub open spec fn config_nul_free(c: ConfigView) -> bool {
    &&& all_nul_free(c.include_paths)
    &&& all_nul_free(c.nvrtc_options)
    &&& (c.compute_capability matches Some(cap) ==> nul_free(cap))
}

/// NVRTC's compilation error, carried through unchanged.
#[verifier::external_type_specification]
#[verifier::external_body]
pub struct ExCompileError(cudarc::nvrtc::CompileError);

/// What one NVRTC compilation is given besides the source text.
pub struct NvrtcRequest {
    pub include_paths: Vec<String>,
    pub options: Vec<String>,
    pub use_fast_math: Option<bool>,
    pub max_register_count: Option<usize>,
    pub name: Option<String>,
}

/// `r` is the request for `source_file` under `config`: the include paths, the raw options
/// followed by the architecture flag, the fast-math and register settings, and the file name as
/// program name.
pub open spec fn request_for(r: NvrtcRequest, config: ConfigView, source_file: Seq<char>) -> bool {
    &&& strings_view(r.include_paths@) == config.include_paths
    &&& strings_view(r.options@) == config.nvrtc_options + nvrtc_arch_flags(
        config.compute_capability,
    )
    &&& r.use_fast_math == config.use_fast_math
    &&& r.max_register_count == config.max_register_count
    &&& opt_string_view(r.name) == file_name_of(source_file)
}

/// A request whose texts NVRTC can take as C strings.
pub open spec fn request_nul_free(r: NvrtcRequest) -> bool {
    &&& all_nul_free(strings_view(r.include_paths@))
    &&& all_nul_free(strings_view(r.options@))
    &&& (r.name matches Some(n) ==> nul_free(n@))
}

/// Whether NVRTC, given a source and the settings of a request (include paths, raw options,
/// fast-math and register settings, program name), may produce the PTX text `ptx`. This is a
/// relation, not a function: which PTX comes out depends on the NVRTC library installed.
pub uninterp spec fn nvrtc_may_produce(
    source: Seq<char>,
    include_paths: Seq<Seq<char>>,
    options: Seq<Seq<char>>,
    use_fast_math: Option<bool>,
    max_register_count: Option<usize>,
    name: Option<Seq<char>>,
    ptx: Seq<char>,
) -> bool;

/// Calls `cudarc::nvrtc::compile_ptx_with_opts` with the request's include paths, raw options,
/// fast-math and register settings and program name (the other options left at their
/// defaults), and returns the PTX text (`Ptx::to_src`) or NVRTC's error.
///
/// Which PTX comes out, or whether compilation fails, depends on the NVRTC library installed,
/// so the contract only ties PTX that does come out to the inputs it was compiled from, through
/// the relation [`nvrtc_may_produce`]. The source and every text of the request become C
/// strings, on which cudarc panics when they hold a NUL, hence the `requires`. cudarc also
/// panics when the NVRTC library cannot be loaded, or when a failed compilation's log cannot be
/// read; those depend on the machine, not on the arguments.
#[verifier::external_body]
fn nvrtc_compile(source: &str, request: NvrtcRequest) -> (r: Result<
    String,
    cudarc::nvrtc::CompileError,
>)
    requires
        nul_free(source@),
        request_nul_free(request),
    ensures
        r matches Ok(p) ==> nvrtc_may_produce(
            source@,
            strings_view(request.include_paths@),
            strings_view(request.options@),
            request.use_fast_math,
            request.max_register_count,
            opt_string_view(request.name),
            p@,
        ),
{
    let options = cudarc::nvrtc::CompileOptions {
        include_paths: request.include_paths,
        options: request.options,
        use_fast_math: request.use_fast_math,
        maxrregcount: request.max_register_count,
        name: request.name,
        ..Default::default()
    };
    match cudarc::nvrtc::compile_ptx_with_opts(source, options) {
        Ok(ptx) => Ok(ptx.to_src()),
        Err(e) => Err(e),
    }
}

/// What NVRTC is handed for `source_file` under `config`: the include paths, the raw options
/// followed by the architecture flag, the fast-math and register settings, and the file name as
/// program name.
pub fn nvrtc_request(config: &Config, source_file: &str) -> (r: NvrtcRequest)
    ensures
        request_for(r, config@, source_file@),
        r.name matches Some(n) ==> forall|i: int|
            0 <= i < n@.len() ==> source_file@.contains(#[trigger] n@[i]),
{
    let mut include_paths: Vec<String> = Vec::new();
    extend_strings(&mut include_paths, config.include_paths());
    assert(strings_view(include_paths@) =~= config@.include_paths);
    let name = path_file_name(source_file);
    NvrtcRequest {
        include_paths,
        options: nvrtc_options(config),
        use_fast_math: config.use_fast_math_ref(),
        max_register_count: config.max_register_count_ref(),
        name,
    }
}

/// Whether a CUDA source includes headers (holds `#include`), and so is compiled with `nvcc`.
pub open spec fn uses_nvcc(source: Seq<char>) -> bool {
    find_from(source, "#include"@, 0) is Some
}

/// Compiles a CUDA source with NVRTC when it includes no headers: `None` when it does (it is
/// then compiled with `nvcc`), otherwise PTX that NVRTC may produce from this source with the
/// configured include paths, the raw options followed by the architecture flag, the fast-math
/// and register settings and the file name as program name, or the compilation error for
/// `source_file`.
///
/// Only on the NVRTC path must the texts that NVRTC takes as C strings be NUL-free. The whole
/// `source_file` is asked to be: a path holding a NUL cannot name a file, so the source could
/// not have been read from it.
pub fn compile_source(config: &Config, source_file: &str, source: &str) -> (r: Option<
    Result<String, GenError>,
>)
    requires
        !uses_nvcc(source@) ==> nul_free(source@),
        !uses_nvcc(source@) ==> nul_free(source_file@),
        !uses_nvcc(source@) ==> config_nul_free(config@),
    ensures
        r is None <==> uses_nvcc(source@),
        r matches Some(Err(e)) ==> (e matches GenError::NvrtcCompile { source_file: f, .. }
            && f@ == source_file@),
        r matches Some(Ok(p)) ==> nvrtc_may_produce(
            source@,
            config@.include_paths,
            config@.nvrtc_options + nvrtc_arch_flags(config@.compute_capability),
            config@.use_fast_math,
            config@.max_register_count,
            file_name_of(source_file@),
            p@,
        ),
{
    if needs_nvcc(source) {
        return None;
    }
    let request = nvrtc_request(config, source_file);
    proof {
        assert forall|i: int| 0 <= i < request.options@.len() implies nul_free(
            #[trigger] strings_view(request.options@)[i],
        ) by {
            let opts = strings_view(request.options@);
            let n = config@.nvrtc_options.len();
            if i < n {
                assert(opts[i] == config@.nvrtc_options[i]);
            } else {
                let cap = config@.compute_capability->Some_0;
                let flag = "--gpu-architecture=compute_"@ + cap;
                assert(opts[i] == flag);
                reveal_strlit("--gpu-architecture=compute_");
                assert forall|j: int| 0 <= j < flag.len() implies flag[j] != '\0' by {
                    if j >= 27 {
                        assert(flag[j] == cap[j - 27]);
                    }
                }
            }
        }
        assert(strings_view(request.options@).len() == request.options@.len());
        assert forall|i: int| 0 <= i < strings_view(request.include_paths@).len() implies nul_free(
            #[trigger] strings_view(request.include_paths@)[i],
        ) by {
            assert(strings_view(request.include_paths@)[i] == config@.include_paths[i]);
        }
        if request.name is Some {
            let n = request.name->Some_0@;
            assert forall|j: int| 0 <= j < n.len() implies n[j] != '\0' by {
                assert(source_file@.contains(n[j]));
            }
        }
    }
    match nvrtc_compile(source, request) {
        Ok(ptx) => Some(Ok(ptx)),
        Err(error) => Some(Err(GenError::NvrtcCompile { source_file: String::from_str(source_file), error })),
    }
}

/// Arguments of `nvcc` for compiling a source with headers to PTX.
pub open spec fn spec_nvcc_ptx_args(
    config: crate::config::ConfigView,
    source_file: Seq<char>,
    ptx_path: Seq<char>,
) -> Seq<Seq<char>> {
    seq!["--ptx"@, source_file, "-o"@, ptx_path] + nvcc_arch_flags(config.compute_capability)
        + config.nvrtc_options + include_flags(config.include_paths)
}

/// The `nvcc` command line that compiles `source_file` to `ptx_path`: `--ptx`, the source,
/// `-o` and the output, the architecture flag, the raw options, and one `-I` per include path.
pub fn nvcc_ptx_args(config: &Config, source_file: &str, ptx_path: &str) -> (r: Vec<String>)
    ensures
        strings_view(r@) == spec_nvcc_ptx_args(config@, source_file@, ptx_path@),
{
    let mut out: Vec<String> = Vec::new();
    out.push(String::from_str("--ptx"));
    out.push(String::from_str(source_file));
    out.push(String::from_str("-o"));
    out.push(String::from_str(ptx_path));
    assert(strings_view(out@) =~= seq!["--ptx"@, source_file@, "-o"@, ptx_path@]);
    push_nvcc_arch(&mut out, config);
    extend_strings(&mut out, config.nvrtc_options());
    extend_include_flags(&mut out, config.include_paths());
    out
}

/// The directory that holds natively compiled objects and the shared library.
pub fn native_dir(config: &Config) -> (r: String)
    ensures
        r@ == joined_path(config@.out_dir, "native_cuda"@),
{
    output_path(config, "native_cuda")
}

/// Arguments of `nvcc` for compiling a native source to a position-independent object.
pub open spec fn spec_native_object_args(
    config: crate::config::ConfigView,
    source_file: Seq<char>,
    object: Seq<char>,
) -> Seq<Seq<char>> {
    seq!["-c"@, source_file, "-o"@, object, "-Xcompiler"@, "-fPIC"@] + nvcc_arch_flags(
        config.compute_capability,
    ) + include_flags(config.include_paths)
}

/// One native compilation: the object file it writes and the `nvcc` arguments.
pub struct NativeStep {
    pub object: String,
    pub args: Vec<String>,
}

/// The compilation of one native source into `native_dir`: the object `<stem>.o` and its
/// `nvcc` command line; `None` when the source path has no stem.
pub fn native_compile_step(config: &Config, native_dir: &str, source_file: &str) -> (r: Option<
    NativeStep,
>)
    ensures
        r is None <==> file_stem_of(source_file@) is None,
        r matches Some(step) ==> {
            &&& file_stem_of(source_file@) matches Some(stem)
            &&& step.object@ == joined_path(native_dir@, stem + ".o"@)
            &&& strings_view(step.args@) == spec_native_object_args(
                config@,
                source_file@,
                step.object@,
            )
        },
{
    let stem = match path_file_stem(source_file) {
        Some(s) => s,
        None => return None,
    };
    let object_name = concat(stem.as_str(), ".o");
    let object = crate::paths::path_join(native_dir, object_name.as_str());
    let mut args: Vec<String> = Vec::new();
    args.push(String::from_str("-c"));
    args.push(String::from_str(source_file));
    args.push(String::from_str("-o"));
    args.push(String::from_str(object.as_str()));
    args.push(String::from_str("-Xcompiler"));
    args.push(String::from_str("-fPIC"));
    assert(strings_view(args@) =~= seq![
        "-c"@,
        source_file@,
        "-o"@,
        object@,
        "-Xcompiler"@,
        "-fPIC"@,
    ]);
    push_nvcc_arch(&mut args, config);
    extend_include_flags(&mut args, config.include_paths());
    Some(NativeStep { object, args })
}

/// The shared library built from the native objects: `lib<lib_name>.so` in `native_dir`.
pub fn shared_library_path(native_dir: &str, lib_name: &str) -> (r: String)
    ensures
        r@ == joined_path(native_dir@, "lib"@ + lib_name@ + ".so"@),
{
    let with_prefix = concat("lib", lib_name);
    let file = concat(with_prefix.as_str(), ".so");
    crate::paths::path_join(native_dir, file.as_str())
}

/// The `nvcc` command line that links the objects into a shared library against cuBLAS and the
/// CUDA runtime.
pub fn native_link_args(shared: &str, objects: &[String]) -> (r: Vec<String>)
    ensures
        strings_view(r@) == seq!["-shared"@, "-o"@, shared@] + strings_view(objects@) + seq![
            "-lcublas"@,
            "-lcudart"@,
        ],
{
    let mut out: Vec<String> = Vec::new();
    out.push(String::from_str("-shared"));
    out.push(String::from_str("-o"));
    out.push(String::from_str(shared));
    assert(strings_view(out@) =~= seq!["-shared"@, "-o"@, shared@]);
    extend_strings(&mut out, objects);
    let ghost prev = out@;
    out.push(String::from_str("-lcublas"));
    out.push(String::from_str("-lcudart"));
    assert(strings_view(out@) =~= strings_view(prev) + seq!["-lcublas"@, "-lcudart"@]);
    out
}

} // verus!
