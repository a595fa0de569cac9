use vstd::prelude::*;

use crate::config::{default_config, strings_view, Config, ConfigView};
use crate::model::{kernels_view, KernelFile, KernelView};
use crate::parser::spec_parse_kernels;
use crate::paths::{file_stem_of, joined_path, path_file_stem, resolve_manifest_path, spec_resolve_manifest_path};
use crate::pipeline::{
    all_kernel_names, collect_kernel_names, generated_file_path, kernel_file,
    output_path, ptx_file_name, source_cargo_directive, spec_sanitize, static_cargo_directives,
    GeneratedApi, GeneratedApiView,
};

verus! {

/// Why a generation run stopped, apart from file-system and process failures.
#[derive(Debug)]
pub enum GenError {
    /// A required build-script environment variable was not present.
    MissingEnvVar(&'static str),
    /// A kernel source path has no file stem.
    InvalidKernelFileName(String),
    /// NVRTC failed to compile a source.
    NvrtcCompile { source_file: String, error: cudarc::nvrtc::CompileError },
    /// A kernel's parameters could not be read.
    ParseKernel { source_file: String, kernel: String, message: String },
}

// ---------------------------------------------------------------------------------------------
// Configuration from the environment.
// ---------------------------------------------------------------------------------------------

/// The configuration of a build script: `kernels_dir` resolved against the manifest directory,
/// output in `out_dir`, and the compute capability when one was given.
pub open spec fn env_config(
    manifest_dir: Seq<char>,
    out_dir: Seq<char>,
    kernels_dir: Seq<char>,
    compute_capability: Option<Seq<char>>,
) -> ConfigView {
    let c = default_config(spec_resolve_manifest_path(manifest_dir, kernels_dir), out_dir);
    match compute_capability {
        Some(cap) => c.with_compute_capability(Some(cap)),
        None => c,
    }
}

/// The configuration of a build script from the values of `CARGO_MANIFEST_DIR`, `OUT_DIR` and
/// `CUDA_COMPUTE_CAP` (each `None` when unset); a missing directory variable is reported,
/// `CARGO_MANIFEST_DIR` first.
pub fn config_from_env_values(
    manifest_dir: Option<&str>,
    out_dir: Option<&str>,
    kernels_dir: &str,
    compute_capability: Option<&str>,
) -> (r: Result<Config, GenError>)
    ensures
        manifest_dir is None ==> (r matches Err(GenError::MissingEnvVar(v)) && v@
            == "CARGO_MANIFEST_DIR"@),
        manifest_dir is Some && out_dir is None ==> (r matches Err(GenError::MissingEnvVar(v))
            && v@ == "OUT_DIR"@),
        manifest_dir is Some && out_dir is Some ==> (r matches Ok(c) && c@ == env_config(
            manifest_dir->Some_0@,
            out_dir->Some_0@,
            kernels_dir@,
            match compute_capability {
                Some(cap) => Some(cap@),
                None => None,
            },
        )),
{
    let m = match manifest_dir {
        Some(m) => m,
        None => return Err(GenError::MissingEnvVar("CARGO_MANIFEST_DIR")),
    };
    let o = match out_dir {
        Some(o) => o,
        None => return Err(GenError::MissingEnvVar("OUT_DIR")),
    };
    let resolved = resolve_manifest_path(m, kernels_dir);
    let config = Config::new(resolved.as_str(), o);
    match compute_capability {
        Some(cap) => Ok(config.compute_capability(cap)),
        None => Ok(config),
    }
}

// ---------------------------------------------------------------------------------------------
// Directives.
// ---------------------------------------------------------------------------------------------

/// The directives printed before any source is compiled: none when they are switched off.
pub fn cargo_directives(config: &Config) -> (r: Vec<String>)
    ensures
        config@.emit_cargo_directives ==> strings_view(r@) == seq![
            "cargo:rerun-if-changed="@ + config@.kernels_dir,
            "cargo:rerun-if-env-changed=CUDA_COMPUTE_CAP"@,
        ],
        !config@.emit_cargo_directives ==> r@.len() == 0,
{
    if config.emits_cargo_directives() {
        static_cargo_directives(config)
    } else {
        Vec::new()
    }
}

/// The directives printed for one kernel source: none when they are switched off.
pub fn source_directives(config: &Config, source_path: &str) -> (r: Vec<String>)
    ensures
        config@.emit_cargo_directives ==> strings_view(r@) == seq![
            "cargo:rerun-if-changed="@ + source_path@,
        ],
        !config@.emit_cargo_directives ==> r@.len() == 0,
{
    let mut v: Vec<String> = Vec::new();
    if config.emits_cargo_directives() {
        v.push(source_cargo_directive(source_path));
        assert(strings_view(v@) =~= seq!["cargo:rerun-if-changed="@ + source_path@]);
    }
    v
}

// ---------------------------------------------------------------------------------------------
// The run, one source at a time.
// ---------------------------------------------------------------------------------------------

/// Where the PTX of a kernel source is written: `<stem>.ptx` in the output directory; `None`
/// when the path has no stem.
pub open spec fn ptx_path_for(config: ConfigView, source_path: Seq<char>) -> Option<Seq<char>> {
    match file_stem_of(source_path) {
        Some(stem) => Some(joined_path(config.out_dir, stem + ".ptx"@)),
        None => None,
    }
}

/// `f` is the kernel file of a source with stem `stem` whose kernels are `kernels`.
pub open spec fn kernel_file_of(f: KernelFile, stem: Seq<char>, kernels: Seq<KernelView>) -> bool {
    &&& f.stem@ == spec_sanitize(stem)
    &&& f.ptx_name@ == stem + ".ptx"@
    &&& kernels_view(f.kernels@) == kernels
}

/// Where a source's output goes: its stem and the path of its PTX file.
pub struct SourcePlan {
    pub stem: String,
    pub ptx_path: String,
}

/// The stem and PTX path of a kernel source, or `InvalidKernelFileName` when it has no stem.
pub fn plan_source(config: &Config, source_path: &str) -> (r: Result<SourcePlan, GenError>)
    ensures
        file_stem_of(source_path@) is None ==> (r matches Err(GenError::InvalidKernelFileName(p))
            && p@ == source_path@),
        file_stem_of(source_path@) is Some ==> (r matches Ok(plan) && Some(plan.stem@)
            == file_stem_of(source_path@) && Some(plan.ptx_path@) == ptx_path_for(
            config@,
            source_path@,
        )),
{
    match path_file_stem(source_path) {
        None => Err(GenError::InvalidKernelFileName(String::from_str(source_path))),
        Some(stem) => {
            let ptx_path = output_path(config, ptx_file_name(stem.as_str()).as_str());
            Ok(SourcePlan { stem, ptx_path })
        },
    }
}

/// What a run has produced so far: the PTX paths and the kernel files, one per source in the
/// order the sources were recorded.
pub struct GenState {
    ptx_files: Vec<String>,
    files: Vec<KernelFile>,
}

/// A [`GenState`] with its paths taken as characters.
pub struct GenStateView {
    pub ptx_files: Seq<Seq<char>>,
    pub files: Seq<KernelFile>,
}

impl View for GenState {
    type V = GenStateView;

    closed spec fn view(&self) -> GenStateView {
        GenStateView { ptx_files: strings_view(self.ptx_files@), files: self.files@ }
    }
}

impl GenState {
    /// The state of a run before any source.
    pub fn new() -> (r: GenState)
        ensures
            r@.ptx_files.len() == 0,
            r@.files.len() == 0,
    {
        let s = GenState { ptx_files: Vec::new(), files: Vec::new() };
        assert(strings_view(s.ptx_files@) =~= Seq::<Seq<char>>::empty());
        s
    }

    /// The kernel files recorded so far, in order.
    pub fn files(&self) -> (r: &[KernelFile])
        ensures
            r@ == self@.files,
    {
        self.files.as_slice()
    }

    /// Records a kernel source whose PTX has been compiled: appends its PTX path and its parsed
    /// kernel file, and returns the PTX path. Fails, leaving the state as it was, with
    /// `InvalidKernelFileName` when the path has no stem, and otherwise with `ParseKernel`
    /// naming the first kernel that cannot be read.
    pub fn record_source(&mut self, config: &Config, source_path: &str, source: &str) -> (r: Result<
        String,
        GenError,
    >)
        ensures
            r is Err ==> final(self)@ == old(self)@,
            file_stem_of(source_path@) is None ==> (r matches Err(
                GenError::InvalidKernelFileName(p),
            ) && p@ == source_path@),
            file_stem_of(source_path@) matches Some(stem) ==> match spec_parse_kernels(source@) {
                Err((k, m)) => (r matches Err(GenError::ParseKernel { source_file, kernel, message })
                    && source_file@ == source_path@ && kernel@ == k && message@ == m),
                Ok(ks) => (r matches Ok(p) && Some(p@) == ptx_path_for(config@, source_path@)
                    && final(self)@.ptx_files == old(self)@.ptx_files.push(p@)
                    && final(self)@.files.len() == old(self)@.files.len() + 1
                    && final(self)@.files.drop_last() == old(self)@.files
                    && kernel_file_of(final(self)@.files.last(), stem, ks)),
            },
    {
        let plan = match plan_source(config, source_path) {
            Ok(p) => p,
            Err(e) => return Err(e),
        };
        let file = match kernel_file(plan.stem.as_str(), source) {
            Ok(f) => f,
            Err((kernel, message)) => {
                return Err(
                    GenError::ParseKernel {
                        source_file: String::from_str(source_path),
                        kernel,
                        message,
                    },
                );
            },
        };
        let ghost old_ptx = self.ptx_files@;
        let ghost old_files = self.files@;
        let ptx = String::from_str(plan.ptx_path.as_str());
        self.ptx_files.push(plan.ptx_path);
        self.files.push(file);
        assert(strings_view(self.ptx_files@) =~= strings_view(old_ptx).push(ptx@));
        assert(self.files@.drop_last() =~= old_files);
        Ok(ptx)
    }

    /// The summary of a finished run: the generated file in the output directory, the PTX paths
    /// and the names of all recorded kernels, in order.
    pub fn finish(self, config: &Config) -> (r: GeneratedApi)
        ensures
            r@ == (GeneratedApiView {
                generated_file: joined_path(config@.out_dir, config@.generated_file_name),
                ptx_files: self@.ptx_files,
                kernel_names: all_kernel_names(self@.files),
            }),
    {
        let names = collect_kernel_names(&self.files);
        GeneratedApi::new(generated_file_path(config), self.ptx_files, names)
    }
}

} // verus!
