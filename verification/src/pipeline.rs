use vstd::prelude::*;

use crate::config::{strings_view, Config};
use crate::model::{kernels_view, Kernel, KernelFile, KernelView};
use crate::parser::{kernels_match, parse_kernels, spec_parse_kernels};
use crate::paths::{joined_path, path_join};
use crate::text::{chars_of, ident_char, is_ident_char, string_from_chars};

verus! {

/// Summary of files and kernels produced by a generation run.
#[derive(Debug)]
pub struct GeneratedApi {
    generated_file: String,
    ptx_files: Vec<String>,
    kernel_names: Vec<String>,
}

/// A [`GeneratedApi`] with its texts taken as characters.
pub struct GeneratedApiView {
    pub generated_file: Seq<char>,
    pub ptx_files: Seq<Seq<char>>,
    pub kernel_names: Seq<Seq<char>>,
}

impl View for GeneratedApi {
    type V = GeneratedApiView;

    closed spec fn view(&self) -> GeneratedApiView {
        GeneratedApiView {
            generated_file: self.generated_file@,
            ptx_files: strings_view(self.ptx_files@),
            kernel_names: strings_view(self.kernel_names@),
        }
    }
}

impl GeneratedApi {
    /// Records the outcome of a generation run.
    pub fn new(generated_file: String, ptx_files: Vec<String>, kernel_names: Vec<String>) -> (r:
        GeneratedApi)
        ensures
            r@ == (GeneratedApiView {
                generated_file: generated_file@,
                ptx_files: strings_view(ptx_files@),
                kernel_names: strings_view(kernel_names@),
            }),
    {
        GeneratedApi { generated_file, ptx_files, kernel_names }
    }

    /// The generated Rust source file path.
    pub fn generated_file(&self) -> (r: &str)
        ensures
            r@ == self@.generated_file,
    {
        self.generated_file.as_str()
    }

    /// The generated PTX file paths.
    pub fn ptx_files(&self) -> (r: &[String])
        ensures
            strings_view(r@) == self@.ptx_files,
    {
        self.ptx_files.as_slice()
    }

    /// The discovered CUDA kernel names.
    pub fn kernel_names(&self) -> (r: &[String])
        ensures
            strings_view(r@) == self@.kernel_names,
    {
        self.kernel_names.as_slice()
    }

    /// The number of generated kernel methods.
    pub fn kernel_count(&self) -> (r: usize)
        ensures
            r == self@.kernel_names.len(),
    {
        self.kernel_names.len()
    }
}

/// `s` with every character that cannot stand in an identifier turned into `_`.
pub open spec fn spec_sanitize(s: Seq<char>) -> Seq<char> {
    s.map_values(|c: char| if is_ident_char(c) { c } else { '_' })
}

/// Turns a file stem into an identifier: every character that is not alphanumeric or `_`
/// becomes `_`.
pub fn sanitize(s: &str) -> (r: String)
    ensures
        r@ == spec_sanitize(s@),
{
    let cs = chars_of(s);
    let mut out: Vec<char> = Vec::new();
    let mut i: usize = 0;
    while i < cs.len()
        invariant
            i <= cs@.len(),
            cs@ == s@,
            out@ == spec_sanitize(cs@.take(i as int)),
        decreases cs.len() - i,
    {
        let c = cs[i];
        assert(spec_sanitize(cs@.take(i + 1)) =~= spec_sanitize(cs@.take(i as int)).push(
            if is_ident_char(c) {
                c
            } else {
                '_'
            },
        ));
        if ident_char(c) {
            out.push(c);
        } else {
            out.push('_');
        }
        i = i + 1;
    }
    assert(cs@.take(cs@.len() as int) =~= cs@);
    string_from_chars(out.as_slice())
}

/// `a` followed by `b`.
pub fn concat(a: &str, b: &str) -> (r: String)
    ensures
        r@ == a@ + b@,
{
    let mut s = String::from_str(a);
    s.append(b);
    s
}

/// The PTX file name for a kernel source stem: the stem with `.ptx` appended.
pub fn ptx_file_name(stem: &str) -> (r: String)
    ensures
        r@ == stem@ + ".ptx"@,
{
    concat(stem, ".ptx")
}

/// Where a file named `file_name` is written: inside the configured output directory.
pub fn output_path(config: &Config, file_name: &str) -> (r: String)
    ensures
        r@ == joined_path(config@.out_dir, file_name@),
{
    path_join(config.out_dir_path(), file_name)
}

/// The path of the generated Rust file.
pub fn generated_file_path(config: &Config) -> (r: String)
    ensures
        r@ == joined_path(config@.out_dir, config@.generated_file_name),
{
    output_path(config, config.generated_file_name_ref())
}

/// The kernel file a `.cu` source contributes: its sanitized stem, its PTX file name and its
/// parsed kernels; on failure, the name of the first kernel that cannot be read and why.
pub fn kernel_file(orig_stem: &str, source: &str) -> (r: Result<KernelFile, (String, String)>)
    ensures
        r matches Ok(f) ==> {
            &&& f.stem@ == spec_sanitize(orig_stem@)
            &&& f.ptx_name@ == orig_stem@ + ".ptx"@
            &&& spec_parse_kernels(source@) == Ok::<Seq<KernelView>, (Seq<char>, Seq<char>)>(
                kernels_view(f.kernels@),
            )
        },
        r matches Err((n, m)) ==> spec_parse_kernels(source@) == Err::<
            Seq<KernelView>,
            (Seq<char>, Seq<char>),
        >((n@, m@)),
{
    let parsed = parse_kernels(source);
    match parsed {
        Ok(kernels) => Ok(
            KernelFile { stem: sanitize(orig_stem), ptx_name: ptx_file_name(orig_stem), kernels },
        ),
        Err(e) => Err(e),
    }
}

/// The names of all kernels of the files, file by file in order.
pub open spec fn all_kernel_names(files: Seq<KernelFile>) -> Seq<Seq<char>>
    decreases files.len(),
{
    if files.len() == 0 {
        Seq::empty()
    } else {
        all_kernel_names(files.drop_last()) + kernels_view(files.last().kernels@).map_values(
            |k: KernelView| k.name,
        )
    }
}

/// The names of all kernels of the files, in order.
pub fn collect_kernel_names(files: &Vec<KernelFile>) -> (r: Vec<String>)
    ensures
        strings_view(r@) == all_kernel_names(files@),
{
    let mut out: Vec<String> = Vec::new();
    let mut i: usize = 0;
    while i < files.len()
        invariant
            i <= files@.len(),
            strings_view(out@) == all_kernel_names(files@.take(i as int)),
        decreases files.len() - i,
    {
        let ks = &files[i].kernels;
        let ghost base = strings_view(out@);
        let ghost names = kernels_view(ks@).map_values(|k: KernelView| k.name);
        let mut j: usize = 0;
        while j < ks.len()
            invariant
                j <= ks@.len(),
                names == kernels_view(ks@).map_values(|k: KernelView| k.name),
                strings_view(out@) == base + names.take(j as int),
            decreases ks.len() - j,
        {
            let ghost prev = out@;
            out.push(string_from_chars(chars_of(ks[j].name.as_str()).as_slice()));
            assert(strings_view(out@) =~= strings_view(prev).push(ks@[j as int].name@));
            assert(names.take(j + 1) =~= names.take(j as int).push(names[j as int]));
            j = j + 1;
        }
        assert(names.take(ks@.len() as int) =~= names);
        assert(files@.take(i + 1).drop_last() =~= files@.take(i as int));
        i = i + 1;
    }
    assert(files@.take(files@.len() as int) =~= files@);
    out
}

/// The build-script directives emitted before any source is compiled.
pub fn static_cargo_directives(config: &Config) -> (r: Vec<String>)
    ensures
        strings_view(r@) == seq![
            "cargo:rerun-if-changed="@ + config@.kernels_dir,
            "cargo:rerun-if-env-changed=CUDA_COMPUTE_CAP"@,
        ],
{
    let mut v: Vec<String> = Vec::new();
    v.push(concat("cargo:rerun-if-changed=", config.kernels_dir_path()));
    v.push(String::from_str("cargo:rerun-if-env-changed=CUDA_COMPUTE_CAP"));
    assert(strings_view(v@) =~= seq![
        "cargo:rerun-if-changed="@ + config@.kernels_dir,
        "cargo:rerun-if-env-changed=CUDA_COMPUTE_CAP"@,
    ]);
    v
}

/// The build-script directive that reruns generation when a kernel source changes.
pub fn source_cargo_directive(source_path: &str) -> (r: String)
    ensures
        r@ == "cargo:rerun-if-changed="@ + source_path@,
{
    concat("cargo:rerun-if-changed=", source_path)
}

} // verus!
